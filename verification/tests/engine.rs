use brengin::color::Color;
use brengin::diagnostics::Diagnostics;
use brengin::plugins::PluginRegistry;
use brengin::game_loop::{frame_sleep_nanos, LATE_FRAME_SLEEP_NANOS, TARGET_FRAME_LATENCY_NANOS};
use brengin::quat_ext::PrimaryAxis;
use brengin::sprite_sheet::{gpu_mask_color, sprite_cell, SpriteInstance};

#[test]
fn frame_sleeps_the_rest_of_its_target_time() {
    assert_eq!(TARGET_FRAME_LATENCY_NANOS, 15_000_000);
    assert_eq!(frame_sleep_nanos(5_000_000), 10_000_000);
    assert_eq!(frame_sleep_nanos(0), TARGET_FRAME_LATENCY_NANOS);
    assert_eq!(frame_sleep_nanos(14_999_999), 1);
    // a late frame still leaves the render thread a turn
    assert_eq!(frame_sleep_nanos(15_000_000), LATE_FRAME_SLEEP_NANOS);
    assert_eq!(frame_sleep_nanos(40_000_000), 500_000);
}

#[test]
fn sprite_index_names_a_grid_cell() {
    assert_eq!(sprite_cell(0, 2), (0, 0));
    assert_eq!(sprite_cell(3, 2), (1, 1));
    assert_eq!(sprite_cell(17, 10), (7, 1));
    assert_eq!(sprite_cell(u32::MAX, 1), (0, u32::MAX));
}

#[test]
fn mask_color_drops_the_alpha_byte() {
    assert_eq!(gpu_mask_color(Some(Color(0x11223344))), 0x112233);
    assert_eq!(gpu_mask_color(None), 0);
    let s = SpriteInstance::default();
    assert_eq!(s.index, 0);
    assert!(!s.flip);
    assert_eq!(s.color, Color::from_rgb(0));
}

#[test]
fn diagnostics_start_at_zero() {
    let d = Diagnostics::default();
    assert_eq!((d.entities, d.archetypes, d.staging_archetypes, d.resources), (0, 0, 0, 0));
    let axes = [PrimaryAxis::X, PrimaryAxis::Y, PrimaryAxis::Z];
    assert_eq!(axes.iter().filter(|a| **a == PrimaryAxis::Y).count(), 1);
}

#[test]
fn required_plugins_are_built_once_and_checked() {
    let mut r = PluginRegistry::default();
    assert_eq!(r.missing_plugin(), None);
    r.assert_plugin(7, "Audio".to_string());
    assert_eq!(r.missing_plugin(), Some("Audio".to_string()));
    assert!(r.require_plugin(7));
    assert!(!r.require_plugin(7));
    assert_eq!(r.plugins.len(), 1);
    assert_eq!(r.missing_plugin(), None);
    r.add_plugin(8);
    assert!(r.plugins.contains(&8));
    assert!(!r.require_plugin(8));
}
