use steel_core::boss_bar_properties::{BossBarColor, BossBarFlags, BossBarOverlay};
use steel_core::criterion::{
    killed_by_team, team_kill, vanilla_custom_criteria, ObjectiveCriteria, ObjectiveCriterion,
    RenderType,
};
use steel_core::display_slot::DisplaySlot;
use steel_core::number_format::{BlankFormat, NumberFormat};
use steel_core::team_color::{FormatColor, TeamColor};

#[test]
fn team_colors_round_trip_by_name_and_id() {
    let colors = TeamColor::values();
    assert_eq!(colors.len(), 16);
    for (i, c) in colors.iter().enumerate() {
        assert_eq!(c.id(), i as i32);
        assert_eq!(TeamColor::from_id(c.id()), Some(*c));
        assert_eq!(TeamColor::from_name(c.name()), Some(*c));
    }
    assert_eq!(TeamColor::LightPurple.name(), "light_purple");
    assert_eq!(TeamColor::from_name("dark_gray"), Some(TeamColor::DarkGray));
    assert_eq!(TeamColor::from_name("pink"), None);
    assert_eq!(TeamColor::from_id(16), None);
    assert_eq!(TeamColor::from_id(-1), None);
    assert_eq!(TeamColor::Gold.color(), FormatColor::Gold);
}

#[test]
fn display_slots_round_trip_by_name_and_id() {
    let mut slots = vec![DisplaySlot::List, DisplaySlot::Sidebar, DisplaySlot::BelowName];
    for c in TeamColor::values() {
        slots.push(DisplaySlot::Team(c));
    }
    for (i, s) in slots.iter().enumerate() {
        assert_eq!(s.id(), i as i32);
        assert_eq!(DisplaySlot::from_id(s.id()), Some(*s));
        assert_eq!(DisplaySlot::from_name(s.name()), Some(*s));
    }
    assert_eq!(DisplaySlot::Team(TeamColor::Red).name(), "sidebar.team.red");
    assert_eq!(DisplaySlot::Team(TeamColor::Red).id(), 15);
    assert_eq!(DisplaySlot::from_id(18), Some(DisplaySlot::Team(TeamColor::White)));
    assert_eq!(DisplaySlot::from_id(19), None);
    assert_eq!(DisplaySlot::from_id(-4), None);
    assert_eq!(DisplaySlot::from_name("sidebar.team."), None);
    assert_eq!(DisplaySlot::from_name("below_name"), Some(DisplaySlot::BelowName));
}

#[test]
fn boss_bar_property_names() {
    assert_eq!(BossBarColor::values().len(), 7);
    assert_eq!(BossBarColor::Purple.name(), "purple");
    assert_eq!(BossBarColor::Purple.color(), FormatColor::DarkBlue);
    assert_eq!(BossBarColor::Pink.color(), FormatColor::Red);
    assert_eq!(BossBarColor::White.id(), 6);
    assert_eq!(BossBarOverlay::values().len(), 5);
    assert_eq!(BossBarOverlay::Notched12.name(), "notched_12");
    assert_eq!(BossBarOverlay::Notched20.id(), 4);
}

#[test]
fn boss_bar_flags_set_and_clear() {
    let mut flags = BossBarFlags::empty();
    flags.insert(BossBarFlags::play_boss_music());
    flags.insert(BossBarFlags::create_world_fog());
    assert_eq!(flags.bits(), 6);
    assert!(flags.contains(BossBarFlags::play_boss_music()));
    assert!(!flags.contains(BossBarFlags::darken_screen()));
    assert_eq!(flags.names(), vec!["play_boss_music", "create_world_fog"]);
    flags.remove(BossBarFlags::play_boss_music());
    assert_eq!(flags.bits(), 4);
    assert_eq!(
        BossBarFlags::from_name("darken_screen").map(|f| f.bits()),
        Some(1)
    );
    assert!(BossBarFlags::from_name("DARKEN_SCREEN").is_none());
    assert_eq!(
        BossBarFlags::darken_screen().union(BossBarFlags::from_bits_retain(8)).bits(),
        9
    );
}

#[test]
fn vanilla_criteria_are_found_by_name() {
    let health = ObjectiveCriterion::from_name("health").expect("health is vanilla");
    assert_eq!(health.name(), "health");
    assert_eq!(health.render_type(), RenderType::Hearts);
    assert!(health.read_only());
    let xp = ObjectiveCriterion::from_name("xp").expect("xp is vanilla");
    assert_eq!(xp.render_type(), RenderType::Integer);
    assert!(xp.read_only());
    let dummy = ObjectiveCriterion::from_name("dummy").expect("dummy is vanilla");
    assert!(!dummy.read_only());
    assert!(ObjectiveCriterion::from_name("minecraft.custom:minecraft.jump").is_none());
    assert_eq!(vanilla_custom_criteria().len(), 11);
}

#[test]
fn locked_criteria_are_read_only() {
    for name in ["health", "food", "air", "armor", "xp", "level"] {
        let c = ObjectiveCriterion::from_name(name).expect("locked vanilla criterion");
        assert!(c.read_only(), "{name} is locked");
    }
    for name in ["dummy", "trigger", "deathCount", "playerKillCount", "totalKillCount"] {
        let c = ObjectiveCriterion::from_name(name).expect("writable vanilla criterion");
        assert!(!c.read_only(), "{name} is writable");
    }
}

#[test]
fn team_criteria_are_found_by_name() {
    let red = ObjectiveCriterion::from_name("teamkill.red").expect("team-kill criterion");
    assert_eq!(red.name(), "teamkill.red");
    assert!(!red.read_only());
    assert_eq!(red.render_type(), RenderType::Integer);
    let white = ObjectiveCriterion::from_name("killedByTeam.white").expect("killed-by-team criterion");
    assert_eq!(white.name(), "killedByTeam.white");
    for c in TeamColor::values() {
        let kill = format!("teamkill.{}", c.name());
        let killed = format!("killedByTeam.{}", c.name());
        assert_eq!(ObjectiveCriterion::from_name(&kill).map(|x| x.name().to_owned()), Some(kill));
        assert_eq!(
            ObjectiveCriterion::from_name(&killed).map(|x| x.name().to_owned()),
            Some(killed)
        );
    }
    assert!(ObjectiveCriterion::from_name("teamkill.pink").is_none());
    assert!(ObjectiveCriterion::from_name("teamkill").is_none());
    assert!(ObjectiveCriterion::from_name("killedByTeam.").is_none());
}

#[test]
fn team_criteria_are_named_by_color() {
    let kills = team_kill();
    assert_eq!(kills.get(TeamColor::DarkAqua).name(), "teamkill.dark_aqua");
    let killed = killed_by_team();
    assert_eq!(killed.get(TeamColor::White).name(), "killedByTeam.white");
    let mut criteria = ObjectiveCriteria::init();
    assert_eq!(
        criteria.get("teamkill.red").map(|c| c.name().to_owned()),
        Some("teamkill.red".to_owned())
    );
    kills.register(&mut criteria);
    assert_eq!(
        criteria.get("teamkill.red").map(|c| c.name().to_owned()),
        Some("teamkill.red".to_owned())
    );
    assert!(criteria.get("dummy").is_some());
    assert!(criteria.get("health").map(|c| c.read_only()).unwrap_or(false));
}

#[test]
fn number_format_kinds() {
    let t = BlankFormat.format_type();
    assert_eq!(t.key.namespace(), "minecraft");
    assert_eq!(t.key.path(), "blank");
}

#[test]
fn every_vanilla_criterion_is_found_by_its_name() {
    for c in vanilla_custom_criteria() {
        let found = ObjectiveCriterion::from_name(c.name()).expect("vanilla criterion");
        assert_eq!(found.name(), c.name());
        assert_eq!(found.render_type(), c.render_type());
        assert_eq!(found.read_only(), c.read_only());
    }
    assert!(ObjectiveCriterion::from_name("Health").is_none());
}
