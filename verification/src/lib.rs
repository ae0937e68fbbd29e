//! Scoreboards, display slots, objective criteria and boss bars of the Steel
//! server core, with their contracts proved by Verus.
pub mod outside;
pub mod text;
pub mod name_map;
pub mod scoreboard;
pub mod scoreboard_laws;
pub mod domain;
pub mod team_color;
pub mod display_slot;
pub mod criterion;
pub mod number_format;
pub mod team;
pub mod boss_bar_properties;
pub mod boss_bar_state;
pub mod viewers;
pub mod boss_bar;
pub mod custom_boss_bar;
pub mod bossbar;
