//! Tests for the data model: snapshots, normalization, condition
//! evaluation, key names and screen projection.

use joyctrl::axis::{stick_is_over_deadzone, threshold_met};
use joyctrl::conditions::{evaluate_condition, evaluate_conditions};
use joyctrl::gamepad::{norm_milli, GamepadAxis, GamepadButton, GamepadState};
use joyctrl::keys::{parse_key_name, KeyIdent, KeyTracker};
use joyctrl::mapping::{Condition, ConditionType, Config};
use joyctrl::screen::project_stick_to_screen;

fn pad() -> GamepadState {
    GamepadState::new(7, "pad".to_string())
}

#[test]
fn snapshot_starts_neutral() {
    let g = pad();
    assert_eq!(g.id(), 7);
    assert!(!g.is_button_pressed(&GamepadButton::A));
    assert!(!g.is_button_pressed(&GamepadButton::Touchpad));
    assert_eq!(g.axis_value(&GamepadAxis::LeftX), 0);
    assert_eq!(g.axis().len(), 6);
}

#[test]
fn set_button_only_touches_its_slot() {
    let mut g = pad();
    g.set_button(GamepadButton::B, true);
    assert!(g.is_button_pressed(&GamepadButton::B));
    assert!(!g.is_button_pressed(&GamepadButton::A));
    g.set_button(GamepadButton::B, false);
    assert!(!g.is_button_pressed(&GamepadButton::B));
}

#[test]
fn set_axis_clamps_extremes() {
    let mut g = pad();
    g.set_axis(GamepadAxis::LeftY, i16::MAX);
    assert_eq!(g.axis_value(&GamepadAxis::LeftY), 32766);
    g.set_axis(GamepadAxis::LeftY, i16::MIN);
    assert_eq!(g.axis_value(&GamepadAxis::LeftY), -32767);
    g.set_axis(GamepadAxis::LeftY, 1234);
    assert_eq!(g.axis_value(&GamepadAxis::LeftY), 1234);
}

#[test]
fn normalization_is_exact_fixed_point() {
    assert_eq!(norm_milli(0), 0);
    assert_eq!(norm_milli(32767), 1000);
    assert_eq!(norm_milli(-32767), -1000);
    assert_eq!(norm_milli(16384), 500);
    assert_eq!(norm_milli(-16384), -500);
    assert_eq!(norm_milli(1), 0);
    assert_eq!(norm_milli(-1), 0);
    let mut g = pad();
    g.set_axis(GamepadAxis::RightX, -16384);
    assert_eq!(g.get_normalized_axis_value(&GamepadAxis::RightX), -500);
}

#[test]
fn threshold_comparison_is_inclusive_and_monotone() {
    // 20000 * 100 / 32767 is about 61: at or above a threshold of 50.
    assert!(threshold_met(20000, 50));
    assert!(threshold_met(-20000, 50));
    assert!(!threshold_met(16000, 50));
    // Exact equality fires: |32767| * 100 == 100 * 32767.
    assert!(threshold_met(32767, 100));
    assert!(!threshold_met(32766, 100));
    // Monotone in the magnitude.
    assert!(threshold_met(20001, 50));
    assert!(threshold_met(0, 0));
}

#[test]
fn deadzone_test_is_strict() {
    // 100 thousandths: raw 3277 normalizes to exactly 100.
    assert!(!stick_is_over_deadzone(3277, 0, 100));
    assert!(stick_is_over_deadzone(3310, 0, 100));
    assert!(stick_is_over_deadzone(0, -3310, 100));
    assert!(!stick_is_over_deadzone(0, 0, 100));
}

#[test]
fn leaf_conditions_complement() {
    let mut g = pad();
    g.set_button(GamepadButton::X, true);
    assert!(evaluate_condition(&g, &Condition::ButtonPressed { button: GamepadButton::X }));
    assert!(!evaluate_condition(&g, &Condition::ButtonNotPressed { button: GamepadButton::X }));
    assert!(!evaluate_condition(&g, &Condition::ButtonPressed { button: GamepadButton::Y }));
    assert!(evaluate_condition(&g, &Condition::ButtonNotPressed { button: GamepadButton::Y }));
}

#[test]
fn empty_condition_list_passes() {
    let g = pad();
    assert!(evaluate_conditions(&g, &Vec::new()));
}

#[test]
fn or_only_list_is_disjunction() {
    let mut g = pad();
    g.set_button(GamepadButton::A, true);
    let hit = vec![
        ConditionType::Or(Condition::ButtonPressed { button: GamepadButton::B }),
        ConditionType::Or(Condition::ButtonPressed { button: GamepadButton::A }),
    ];
    assert!(evaluate_conditions(&g, &hit));
    // With no And-tagged entry at all, the And group contributes false.
    let miss = vec![ConditionType::Or(Condition::ButtonPressed { button: GamepadButton::B })];
    assert!(!evaluate_conditions(&g, &miss));
}

#[test]
fn and_only_list_is_conjunction() {
    let mut g = pad();
    g.set_button(GamepadButton::A, true);
    g.set_button(GamepadButton::B, true);
    let both = vec![
        ConditionType::And(Condition::ButtonPressed { button: GamepadButton::A }),
        ConditionType::And(Condition::ButtonPressed { button: GamepadButton::B }),
    ];
    assert!(evaluate_conditions(&g, &both));
    let one_false = vec![
        ConditionType::And(Condition::ButtonPressed { button: GamepadButton::A }),
        ConditionType::And(Condition::ButtonPressed { button: GamepadButton::X }),
    ];
    assert!(!evaluate_conditions(&g, &one_false));
}

#[test]
fn mixed_list_is_or_group_or_and_group() {
    let mut g = pad();
    g.set_button(GamepadButton::A, true);
    // Or group misses, And group holds: the whole list passes.
    let and_carries = vec![
        ConditionType::Or(Condition::ButtonPressed { button: GamepadButton::B }),
        ConditionType::And(Condition::ButtonPressed { button: GamepadButton::A }),
    ];
    assert!(evaluate_conditions(&g, &and_carries));
    // Or group holds, And group misses: still passes.
    let or_carries = vec![
        ConditionType::Or(Condition::ButtonPressed { button: GamepadButton::A }),
        ConditionType::And(Condition::ButtonPressed { button: GamepadButton::B }),
    ];
    assert!(evaluate_conditions(&g, &or_carries));
    // Both groups miss: fails.
    let neither = vec![
        ConditionType::Or(Condition::ButtonPressed { button: GamepadButton::B }),
        ConditionType::And(Condition::ButtonPressed { button: GamepadButton::X }),
    ];
    assert!(!evaluate_conditions(&g, &neither));
}

#[test]
fn key_names_parse_case_insensitively() {
    assert_eq!(parse_key_name("enter"), Some(KeyIdent::Return));
    assert_eq!(parse_key_name("{enter}"), Some(KeyIdent::Return));
    assert_eq!(parse_key_name("ENTER"), Some(KeyIdent::Return));
    assert_eq!(parse_key_name("backspace"), Some(KeyIdent::Backspace));
    assert_eq!(parse_key_name("{bksp}"), Some(KeyIdent::Backspace));
    assert_eq!(parse_key_name("ctrl"), Some(KeyIdent::Control));
    assert_eq!(parse_key_name("Control"), Some(KeyIdent::Control));
    assert_eq!(parse_key_name("{control}"), Some(KeyIdent::Control));
    assert_eq!(parse_key_name("lock"), Some(KeyIdent::CapsLock));
    assert_eq!(parse_key_name("f12"), Some(KeyIdent::F12));
    assert_eq!(parse_key_name("{f1}"), Some(KeyIdent::F1));
}

#[test]
fn unknown_key_names_mean_their_first_character() {
    assert_eq!(parse_key_name("a"), Some(KeyIdent::Unicode('a')));
    assert_eq!(parse_key_name("Z"), Some(KeyIdent::Unicode('Z')));
    assert_eq!(parse_key_name("é"), Some(KeyIdent::Unicode('é')));
    assert_eq!(parse_key_name("zebra"), Some(KeyIdent::Unicode('z')));
}

#[test]
fn empty_key_name_is_rejected() {
    assert_eq!(parse_key_name(""), None);
}

#[test]
fn key_tracker_releases_everything_on_shutdown() {
    let mut t = KeyTracker::new();
    assert_eq!(t.press_key("shift"), Some(KeyIdent::Shift));
    assert_eq!(t.press_key("a"), Some(KeyIdent::Unicode('a')));
    assert_eq!(t.press_key("shift"), Some(KeyIdent::Shift));
    assert_eq!(t.press_key(""), None);
    assert_eq!(t.keys_to_release.len(), 2);
    assert_eq!(t.release_key("a"), Some(KeyIdent::Unicode('a')));
    assert_eq!(t.keys_to_release.len(), 1);
    let (held, caps) = t.release_all_keys();
    assert_eq!(held, vec![KeyIdent::Shift]);
    assert!(!caps);
    assert!(t.keys_to_release.is_empty());
}

#[test]
fn key_tracker_notes_caps_lock_parity() {
    let mut t = KeyTracker::new();
    t.press_key("lock");
    assert!(t.caps_lock_pressed);
    t.press_key("lock");
    assert!(!t.caps_lock_pressed);
    t.press_key("{lock}");
    let (_, caps) = t.release_all_keys();
    assert!(caps);
    assert!(!t.caps_lock_pressed);
}

#[test]
fn projection_matches_the_fixed_point_formula() {
    // Centered stick lands mid-extent.
    assert_eq!(project_stick_to_screen(0, 1000), 500);
    // Full deflection overshoots the edge through the widening factor.
    assert_eq!(project_stick_to_screen(1000, 1000), 1157);
    assert_eq!(project_stick_to_screen(-1000, 1000), -157);
    // Half deflection on a common monitor width.
    assert_eq!(project_stick_to_screen(500, 1920), 1591);
    assert_eq!(project_stick_to_screen(0, 0), 0);
}

#[test]
fn fresh_config_defaults() {
    let c = Config::fresh();
    assert!(c.mapping_active_on_boot);
    assert!(c.mappings.is_empty());
    assert_eq!(c.deadzone, 100);
    assert!(c.keyboard_layout.is_none());
    let d = Config::default();
    assert_eq!(c, d);
}
