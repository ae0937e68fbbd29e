use rustc_hash::FxHashSet;
use steel_core::boss_bar::BossBar;
use steel_core::boss_bar_properties::{BossBarColor, BossBarFlags, BossBarOverlay};
use steel_core::boss_bar_state::{BossBarOperation, BossEventOperation};
use steel_core::bossbar::BossBar as LegacyBossBar;
use steel_core::custom_boss_bar::CustomBossBar;
use text_components::TextComponent;
use uuid::Uuid;

fn bar() -> BossBar<&'static str> {
    BossBar::new(
        TextComponent::plain("Boss"),
        0.5f32.to_bits(),
        BossBarColor::Red,
        BossBarOverlay::Progress,
        BossBarFlags::empty(),
    )
}

#[test]
fn property_changes_are_broadcast_only_when_they_change() {
    let mut b = bar();
    assert_eq!(b.set_color(BossBarColor::Red), None);
    assert_eq!(b.set_color(BossBarColor::Blue), Some(BossBarOperation::UpdateStyle));
    assert_eq!(b.set_overlay(BossBarOverlay::Notched6), Some(BossBarOperation::UpdateStyle));
    assert_eq!(b.set_overlay(BossBarOverlay::Notched6), None);
    assert_eq!(
        b.add_flags(BossBarFlags::darken_screen()),
        Some(BossBarOperation::UpdateProperties)
    );
    assert_eq!(b.add_flags(BossBarFlags::darken_screen()), None);
    assert_eq!(b.set_flags(BossBarFlags::darken_screen()), None);
    assert_eq!(
        b.set_name(TextComponent::plain("Other")),
        Some(BossBarOperation::UpdateName)
    );
    assert_eq!(b.set_progress(1.0f32.to_bits(), true), Some(BossBarOperation::UpdateProgress));
    assert_eq!(f32::from_bits(b.progress()), 1.0);
}

#[test]
fn visibility_changes_add_or_remove_the_bar() {
    let mut b = bar();
    assert_eq!(b.set_visible(true), None);
    assert_eq!(b.set_visible(false), Some(BossBarOperation::Remove));
    assert_eq!(b.set_visible(false), None);
    assert_eq!(b.set_visible(true), Some(BossBarOperation::Add));
}

#[test]
fn viewers_are_added_once_and_removed() {
    let mut b = bar();
    assert!(b.add_player(1, "one"));
    assert!(!b.add_player(1, "again"));
    assert!(b.add_player(2, "two"));
    assert!(b.add_player(3, "three"));
    assert_eq!(b.viewers().len(), 3);
    assert!(b.remove_player(1));
    assert!(!b.remove_player(1));
    assert_eq!(*b.viewers().entry(0), (3, "three"));
    b.set_visible(false);
    assert!(!b.add_player(4, "four"));
    assert_eq!(b.viewers().len(), 3);
    b.clean_viewers(&vec![true, false, true]);
    assert_eq!(b.viewers().len(), 2);
    assert_eq!(*b.viewers().entry(1), (4, "four"));
    let (op, handles) = b.remove_all_players();
    assert_eq!(op, None);
    assert_eq!(handles, vec!["three", "four"]);
    assert_eq!(b.viewers().len(), 0);
}

#[test]
fn packets_carry_the_state() {
    let b = bar();
    let packet = b.create_packet(BossBarOperation::Add);
    assert_eq!(packet.id, b.id());
    match packet.operation {
        BossEventOperation::Add { name, progress, color, overlay, flags } => {
            assert!(name == TextComponent::plain("Boss"));
            assert_eq!(f32::from_bits(progress), 0.5);
            assert_eq!(color, BossBarColor::Red);
            assert_eq!(overlay, BossBarOverlay::Progress);
            assert_eq!(flags.bits(), 0);
        }
        _ => panic!("expected an add operation"),
    }
    match b.create_packet(BossBarOperation::UpdateStyle).operation {
        BossEventOperation::UpdateStyle { color, overlay } => {
            assert_eq!((color, overlay), (BossBarColor::Red, BossBarOverlay::Progress));
        }
        _ => panic!("expected a style operation"),
    }
    let other = bar();
    assert!(other.id() != b.id());
}

#[test]
fn custom_bars_remember_their_players() {
    let alex = Uuid::new_v4();
    let steve = Uuid::new_v4();
    let mut players = FxHashSet::default();
    players.insert(alex);
    let mut b: CustomBossBar<&'static str> = CustomBossBar::new(
        TextComponent::plain("Custom"),
        5,
        10,
        0.5f32.to_bits(),
        BossBarColor::White,
        BossBarOverlay::Notched10,
        BossBarFlags::empty(),
        players,
    );
    assert_eq!(b.value(), 5);
    assert_eq!(b.max(), 10);
    assert!(b.add_player(7, "steve", steve));
    let mut ids = b.players();
    ids.sort();
    let mut expected = vec![alex, steve];
    expected.sort();
    assert_eq!(ids, expected);
    assert_eq!(
        b.set_value(10, 1.0f32.to_bits(), true),
        Some(BossBarOperation::UpdateProgress)
    );
    assert_eq!(b.value(), 10);
    assert!(b.remove_player(7, steve));
    assert_eq!(b.players(), vec![alex]);
    let (op, handles) = b.remove_all_players();
    assert_eq!(op, Some(BossBarOperation::Remove));
    assert!(handles.is_empty());
    assert!(b.players().is_empty());
}

#[test]
fn legacy_bar_drops_gone_viewers_by_swapping() {
    let mut b: LegacyBossBar<u32> = LegacyBossBar::new(
        TextComponent::plain("Old"),
        0.25f32.to_bits(),
        BossBarColor::Green,
        BossBarOverlay::Notched20,
        BossBarFlags::empty(),
    );
    assert!(b.update_viewers(BossBarOperation::UpdateName, &vec![]).is_none());
    for a in 1..=4usize {
        assert!(b.add_viewer(a, a as u32));
    }
    let packet = b
        .update_viewers(BossBarOperation::UpdateName, &vec![false, true, false, true])
        .expect("there are viewers");
    assert_eq!(packet.id, b.id());
    let kept: Vec<usize> = (0..b.viewers().len()).map(|i| b.viewers().entry(i).0).collect();
    assert_eq!(kept, vec![4, 2]);
    assert!(b.remove_viewer(9));
    assert_eq!(b.remove_flags(BossBarFlags::darken_screen()), None);
}

#[test]
fn adding_then_removing_a_viewer_restores_the_viewers() {
    let mut b = bar();
    assert!(b.add_player(10, "ten"));
    assert!(b.add_player(20, "twenty"));
    assert!(b.add_player(30, "thirty"));
    assert!(b.remove_player(30));
    let addresses: Vec<usize> = (0..b.viewers().len()).map(|i| b.viewers().entry(i).0).collect();
    assert_eq!(addresses, vec![10, 20]);
    let (op, handles) = b.remove_all_players();
    assert_eq!(op, Some(BossBarOperation::Remove));
    assert_eq!(handles, vec!["ten", "twenty"]);
    assert!(b.add_player(10, "ten again"));
}

#[test]
fn both_boss_bars_drop_the_same_viewers() {
    let alive = vec![true, false, false, true, true];
    let mut current = bar();
    let mut earlier: LegacyBossBar<&'static str> = LegacyBossBar::new(
        TextComponent::plain("Old"),
        0.0f32.to_bits(),
        BossBarColor::Pink,
        BossBarOverlay::Progress,
        BossBarFlags::empty(),
    );
    for (a, h) in [(1, "a"), (2, "b"), (3, "c"), (4, "d"), (5, "e")] {
        current.add_player(a, h);
        earlier.add_viewer(a, h);
    }
    current.clean_viewers(&alive);
    earlier.update_viewers(BossBarOperation::UpdateProgress, &alive);
    let mut left: Vec<usize> = (0..current.viewers().len()).map(|i| current.viewers().entry(i).0).collect();
    let mut right: Vec<usize> = (0..earlier.viewers().len()).map(|i| earlier.viewers().entry(i).0).collect();
    assert_eq!(left, vec![1, 4, 5]);
    assert_eq!(right, vec![1, 5, 4]);
    left.sort();
    right.sort();
    assert_eq!(left, right);
}
