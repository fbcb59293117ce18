//! End-to-end runtime scenarios: whole ticks over configured rules.

use joyctrl::executor::{MappingExecutor, MappingState};
use joyctrl::gamepad::{GamepadAxis, GamepadButton, GamepadState};
use joyctrl::mapping::{
    Action, AxisStickMapping, AxisTriggerMapping, ButtonMapping, Condition, ConditionType, Config,
    Direction, Mapping, MouseButton, MouseMoveMode, StickType,
};
use joyctrl::sink::{ScrollAxis, SinkCommand};

fn config_with(mappings: Vec<Mapping>) -> Config {
    Config { mapping_active_on_boot: true, mappings, deadzone: 100, keyboard_layout: None }
}

fn button_rule(id: &str, button: GamepadButton, action: Action) -> Mapping {
    Mapping::ButtonPressed(ButtonMapping {
        id: id.to_string(),
        button,
        action,
        conditions: Vec::new(),
    })
}

fn press_keys(keys: &[&str]) -> Action {
    Action::PressKeys { keys: keys.iter().map(|k| k.to_string()).collect() }
}

#[test]
fn button_press_hold_release_fires_once_and_resets_once() {
    // Button A bound to pressing "a": press fires once, holding repeats
    // nothing, releasing emits exactly one release.
    let rule = button_rule("r1", GamepadButton::A, press_keys(&["a"]));
    let mut ex = MappingExecutor::new(config_with(vec![rule]));
    let mut g = GamepadState::new(0, "pad".to_string());

    let t1 = ex.process_gamepad_state(&g, 10);
    assert!(t1.is_empty());

    g.set_button(GamepadButton::A, true);
    let t2 = ex.process_gamepad_state(&g, 10);
    assert_eq!(t2, vec![SinkCommand::PressKey { key: "a".to_string() }]);

    let t3 = ex.process_gamepad_state(&g, 10);
    assert!(t3.is_empty());

    g.set_button(GamepadButton::A, false);
    let t4 = ex.process_gamepad_state(&g, 10);
    assert_eq!(t4, vec![SinkCommand::ReleaseKey { key: "a".to_string() }]);

    let t5 = ex.process_gamepad_state(&g, 10);
    assert!(t5.is_empty());
}

#[test]
fn key_sequences_press_in_order_and_release_in_reverse() {
    let rule = button_rule("combo", GamepadButton::X, press_keys(&["ctrl", "c"]));
    let mut ex = MappingExecutor::new(config_with(vec![rule]));
    let mut g = GamepadState::new(0, "pad".to_string());

    g.set_button(GamepadButton::X, true);
    let down = ex.process_gamepad_state(&g, 10);
    assert_eq!(
        down,
        vec![
            SinkCommand::PressKey { key: "ctrl".to_string() },
            SinkCommand::PressKey { key: "c".to_string() },
        ]
    );
    g.set_button(GamepadButton::X, false);
    let up = ex.process_gamepad_state(&g, 10);
    assert_eq!(
        up,
        vec![
            SinkCommand::ReleaseKey { key: "c".to_string() },
            SinkCommand::ReleaseKey { key: "ctrl".to_string() },
        ]
    );
}

#[test]
fn repeated_cycles_alternate_press_and_release() {
    let rule = button_rule("cycle", GamepadButton::B, Action::MouseClick {
        button: MouseButton::Left,
    });
    let mut ex = MappingExecutor::new(config_with(vec![rule]));
    let mut g = GamepadState::new(0, "pad".to_string());

    for _ in 0..3 {
        g.set_button(GamepadButton::B, true);
        let down = ex.process_gamepad_state(&g, 10);
        assert_eq!(down, vec![SinkCommand::MouseButtonPress { button: MouseButton::Left }]);
        let held = ex.process_gamepad_state(&g, 10);
        assert!(held.is_empty());
        g.set_button(GamepadButton::B, false);
        let up = ex.process_gamepad_state(&g, 10);
        assert_eq!(up, vec![SinkCommand::MouseButtonRelease { button: MouseButton::Left }]);
    }
}

#[test]
fn axis_trigger_fires_on_crossing_and_resets_on_dropping() {
    // Threshold 50: raw 20000 normalizes to about 61 and crosses; raw 0
    // drops back under and auto-resets.
    let rule = Mapping::AxisTrigger(AxisTriggerMapping {
        id: "trig".to_string(),
        axis: GamepadAxis::TriggerRight,
        threshold: 50,
        conditions: Vec::new(),
        action: press_keys(&["x"]),
    });
    let mut ex = MappingExecutor::new(config_with(vec![rule]));
    let mut g = GamepadState::new(0, "pad".to_string());

    let t1 = ex.process_gamepad_state(&g, 10);
    assert!(t1.is_empty());

    g.set_axis(GamepadAxis::TriggerRight, 20000);
    let t2 = ex.process_gamepad_state(&g, 10);
    assert_eq!(t2, vec![SinkCommand::PressKey { key: "x".to_string() }]);

    let t3 = ex.process_gamepad_state(&g, 10);
    assert!(t3.is_empty());

    g.set_axis(GamepadAxis::TriggerRight, 0);
    let t4 = ex.process_gamepad_state(&g, 10);
    assert_eq!(t4, vec![SinkCommand::ReleaseKey { key: "x".to_string() }]);
}

#[test]
fn stick_scroll_carries_fractions_across_ticks() {
    // Normalized y = 0.5, speed 50 units/second, 100 ms ticks: 2.5 units
    // accumulate per tick; the whole part is emitted, the fraction carries.
    let rule = Mapping::AxisStick(AxisStickMapping {
        id: "scroll".to_string(),
        stick: StickType::LeftStick,
        action: Action::ScrollStick { speed: 50 },
        conditions: Vec::new(),
    });
    let mut ex = MappingExecutor::new(config_with(vec![rule]));
    let mut g = GamepadState::new(0, "pad".to_string());
    g.set_axis(GamepadAxis::LeftY, 16384);

    let t1 = ex.process_gamepad_state(&g, 100);
    assert_eq!(t1, vec![SinkCommand::Scroll { amount: 2, axis: ScrollAxis::Vertical }]);
    assert_eq!(ex.scroll_accumulator_y, 500_000);

    let t2 = ex.process_gamepad_state(&g, 100);
    assert_eq!(t2, vec![SinkCommand::Scroll { amount: 3, axis: ScrollAxis::Vertical }]);
    assert_eq!(ex.scroll_accumulator_y, 0);

    let t3 = ex.process_gamepad_state(&g, 100);
    assert_eq!(t3, vec![SinkCommand::Scroll { amount: 2, axis: ScrollAxis::Vertical }]);
    assert_eq!(ex.scroll_accumulator_y, 500_000);
}

#[test]
fn deadzone_zeroes_accumulators() {
    let rule = Mapping::AxisStick(AxisStickMapping {
        id: "scroll".to_string(),
        stick: StickType::LeftStick,
        action: Action::ScrollStick { speed: 50 },
        conditions: Vec::new(),
    });
    let mut ex = MappingExecutor::new(config_with(vec![rule]));
    let mut g = GamepadState::new(0, "pad".to_string());
    g.set_axis(GamepadAxis::LeftY, 16384);
    ex.process_gamepad_state(&g, 100);
    assert_eq!(ex.scroll_accumulator_y, 500_000);

    // Both normalized magnitudes drop strictly under the deadzone of 100:
    // the leftover fraction is forced to exactly zero, not carried.
    g.set_axis(GamepadAxis::LeftY, 1000);
    let t = ex.process_gamepad_state(&g, 100);
    assert!(t.is_empty());
    assert_eq!(ex.scroll_accumulator_y, 0);
    assert_eq!(ex.scroll_accumulator_x, 0);
    assert_eq!(ex.move_accumulator_x, 0);
    assert_eq!(ex.move_accumulator_y, 0);
}

#[test]
fn stick_mouse_move_relative_emits_whole_pixels() {
    let rule = Mapping::AxisStick(AxisStickMapping {
        id: "move".to_string(),
        stick: StickType::RightStick,
        action: Action::MouseMoveStick { mode: MouseMoveMode::Relative, speed: 100 },
        conditions: Vec::new(),
    });
    let mut ex = MappingExecutor::new(config_with(vec![rule]));
    let mut g = GamepadState::new(0, "pad".to_string());
    g.set_axis(GamepadAxis::RightX, 16384);
    // 0.5 * 100 units/second over 100 ms: 5 whole pixels per tick.
    let t1 = ex.process_gamepad_state(&g, 100);
    assert_eq!(t1, vec![SinkCommand::MouseMove { dx: 5, dy: 0 }]);
}

#[test]
fn stick_mouse_move_absolute_reports_position_and_ignores_deadzone() {
    let rule = Mapping::AxisStick(AxisStickMapping {
        id: "abs".to_string(),
        stick: StickType::LeftStick,
        action: Action::MouseMoveStick { mode: MouseMoveMode::Absolute, speed: 0 },
        conditions: Vec::new(),
    });
    let mut ex = MappingExecutor::new(config_with(vec![rule]));
    let mut g = GamepadState::new(0, "pad".to_string());
    // Inside the deadzone, absolute mode still reports the position.
    g.set_axis(GamepadAxis::LeftX, 1000);
    let t = ex.process_gamepad_state(&g, 10);
    assert_eq!(t, vec![SinkCommand::MouseMoveStickAbsolute { x_milli: 30, y_milli: 0 }]);
}

#[test]
fn direction_scroll_accumulates_per_tick() {
    // Speed 50: half a unit per tick, one whole scroll every second tick.
    let rule = button_rule(
        "wheel",
        GamepadButton::DPadDown,
        Action::ScrollDirection { direction: Direction::Down, speed: 50 },
    );
    let mut ex = MappingExecutor::new(config_with(vec![rule]));
    let mut g = GamepadState::new(0, "pad".to_string());
    g.set_button(GamepadButton::DPadDown, true);
    let t1 = ex.process_gamepad_state(&g, 10);
    assert!(t1.is_empty());
    let t2 = ex.process_gamepad_state(&g, 10);
    assert_eq!(t2, vec![SinkCommand::Scroll { amount: 1, axis: ScrollAxis::Vertical }]);
    let t3 = ex.process_gamepad_state(&g, 10);
    assert!(t3.is_empty());
}

#[test]
fn direction_move_repeats_every_tick_while_held() {
    let rule = button_rule(
        "nudge",
        GamepadButton::DPadUp,
        Action::MouseMoveDirection { direction: Direction::Up, speed: 5 },
    );
    let mut ex = MappingExecutor::new(config_with(vec![rule]));
    let mut g = GamepadState::new(0, "pad".to_string());
    g.set_button(GamepadButton::DPadUp, true);
    let t1 = ex.process_gamepad_state(&g, 10);
    assert_eq!(t1, vec![SinkCommand::MouseMove { dx: 0, dy: -5 }]);
    let t2 = ex.process_gamepad_state(&g, 10);
    assert_eq!(t2, vec![SinkCommand::MouseMove { dx: 0, dy: -5 }]);
    assert!(ex.has_continuous_actions());
}

#[test]
fn global_disable_gates_everything_but_the_toggle_rule() {
    let hot = button_rule("hot", GamepadButton::A, press_keys(&["a"]));
    let toggle = button_rule("toggle", GamepadButton::Guide, Action::ToogleMappingActive);
    let mut config = config_with(vec![hot, toggle]);
    config.mapping_active_on_boot = false;
    let mut ex = MappingExecutor::new(config);
    assert!(!ex.get_mapping_active());

    // The satisfied ordinary rule produces zero sink calls while disabled.
    let mut g = GamepadState::new(0, "pad".to_string());
    g.set_button(GamepadButton::A, true);
    let t1 = ex.process_gamepad_state(&g, 10);
    assert!(t1.is_empty());

    // The designated toggle rule still executes and re-enables mapping.
    g.set_button(GamepadButton::Guide, true);
    let t2 = ex.process_gamepad_state(&g, 10);
    assert!(t2.is_empty());
    assert!(ex.get_mapping_active());

    // Next tick the ordinary rule finally fires: its edge was never
    // consumed while mapping was off.
    g.set_button(GamepadButton::Guide, false);
    let t3 = ex.process_gamepad_state(&g, 10);
    assert_eq!(t3, vec![SinkCommand::PressKey { key: "a".to_string() }]);
}

#[test]
fn toggling_twice_restores_the_flag() {
    let toggle = button_rule("t", GamepadButton::Start, Action::ToogleMappingActive);
    let mut ex = MappingExecutor::new(config_with(vec![toggle]));
    assert!(ex.get_mapping_active());
    let mut g = GamepadState::new(0, "pad".to_string());
    g.set_button(GamepadButton::Start, true);
    ex.process_gamepad_state(&g, 10);
    assert!(!ex.get_mapping_active());
    g.set_button(GamepadButton::Start, false);
    ex.process_gamepad_state(&g, 10);
    g.set_button(GamepadButton::Start, true);
    ex.process_gamepad_state(&g, 10);
    assert!(ex.get_mapping_active());
}

#[test]
fn conditions_gate_a_button_rule() {
    let rule = Mapping::ButtonPressed(ButtonMapping {
        id: "guarded".to_string(),
        button: GamepadButton::A,
        action: press_keys(&["q"]),
        conditions: vec![ConditionType::And(Condition::ButtonPressed {
            button: GamepadButton::LeftShoulder,
        })],
    });
    let mut ex = MappingExecutor::new(config_with(vec![rule]));
    let mut g = GamepadState::new(0, "pad".to_string());
    g.set_button(GamepadButton::A, true);
    let t1 = ex.process_gamepad_state(&g, 10);
    assert!(t1.is_empty());
    g.set_button(GamepadButton::LeftShoulder, true);
    let t2 = ex.process_gamepad_state(&g, 10);
    assert_eq!(t2, vec![SinkCommand::PressKey { key: "q".to_string() }]);
}

#[test]
fn a_not_pressed_condition_blocks_while_its_button_is_held() {
    let rule = Mapping::ButtonPressed(ButtonMapping {
        id: "solo".to_string(),
        button: GamepadButton::A,
        action: press_keys(&["s"]),
        conditions: vec![ConditionType::And(Condition::ButtonNotPressed {
            button: GamepadButton::RightShoulder,
        })],
    });
    let mut ex = MappingExecutor::new(config_with(vec![rule]));
    let mut g = GamepadState::new(0, "pad".to_string());
    g.set_button(GamepadButton::A, true);
    g.set_button(GamepadButton::RightShoulder, true);
    let blocked = ex.process_gamepad_state(&g, 10);
    assert!(blocked.is_empty());
    g.set_button(GamepadButton::RightShoulder, false);
    let fired = ex.process_gamepad_state(&g, 10);
    assert_eq!(fired, vec![SinkCommand::PressKey { key: "s".to_string() }]);
}

#[test]
fn rules_evaluate_independently_in_list_order() {
    let first = button_rule("one", GamepadButton::A, press_keys(&["1"]));
    let second = button_rule("two", GamepadButton::A, press_keys(&["2"]));
    let mut ex = MappingExecutor::new(config_with(vec![first, second]));
    let mut g = GamepadState::new(0, "pad".to_string());
    g.set_button(GamepadButton::A, true);
    let t = ex.process_gamepad_state(&g, 10);
    assert_eq!(
        t,
        vec![
            SinkCommand::PressKey { key: "1".to_string() },
            SinkCommand::PressKey { key: "2".to_string() },
        ]
    );
}

#[test]
fn one_shot_actions_emit_commands_without_inverse_once() {
    let rules = vec![
        button_rule("txt", GamepadButton::Y, Action::WriteText { text: "hi".to_string() }),
        button_rule("web", GamepadButton::B, Action::OpenWebsite {
            url: "https://example.test".to_string(),
        }),
        button_rule("file", GamepadButton::X, Action::OpenFile { path: "notes.txt".to_string() }),
        button_rule("vk", GamepadButton::Back, Action::ToogleVirtualKeyboard),
    ];
    let mut ex = MappingExecutor::new(config_with(rules));
    let mut g = GamepadState::new(0, "pad".to_string());
    g.set_button(GamepadButton::Y, true);
    g.set_button(GamepadButton::B, true);
    g.set_button(GamepadButton::X, true);
    g.set_button(GamepadButton::Back, true);
    let down = ex.process_gamepad_state(&g, 10);
    assert_eq!(
        down,
        vec![
            SinkCommand::WriteText { text: "hi".to_string() },
            SinkCommand::OpenUrl { url: "https://example.test".to_string() },
            SinkCommand::OpenPath { path: "notes.txt".to_string() },
            SinkCommand::ToogleVirtualKeyboard,
        ]
    );
    // None of these defines an inverse: release emits nothing.
    g.set_button(GamepadButton::Y, false);
    g.set_button(GamepadButton::B, false);
    g.set_button(GamepadButton::X, false);
    g.set_button(GamepadButton::Back, false);
    let up = ex.process_gamepad_state(&g, 10);
    assert!(up.is_empty());
}

#[test]
fn hot_reload_keeps_held_rules_resettable() {
    // A rule is holding its key when the configuration is swapped for one
    // with the same identifier: the release still happens exactly once.
    let rule = button_rule("held", GamepadButton::A, press_keys(&["a"]));
    let mut ex = MappingExecutor::new(config_with(vec![rule.clone()]));
    let mut g = GamepadState::new(0, "pad".to_string());
    g.set_button(GamepadButton::A, true);
    ex.process_gamepad_state(&g, 10);
    ex.set_config(config_with(vec![rule]));
    g.set_button(GamepadButton::A, false);
    let up = ex.process_gamepad_state(&g, 10);
    assert_eq!(up, vec![SinkCommand::ReleaseKey { key: "a".to_string() }]);
}

#[test]
fn axis_trigger_with_continuous_action_refires_every_tick() {
    let rule = Mapping::AxisTrigger(AxisTriggerMapping {
        id: "held-scroll".to_string(),
        axis: GamepadAxis::TriggerLeft,
        threshold: 50,
        conditions: Vec::new(),
        action: Action::ScrollDirection { direction: Direction::Down, speed: 100 },
    });
    let mut ex = MappingExecutor::new(config_with(vec![rule]));
    let mut g = GamepadState::new(0, "pad".to_string());
    g.set_axis(GamepadAxis::TriggerLeft, 32000);
    // Speed 100 is one whole unit per tick: the continuous action repeats
    // every tick the trigger stays over its threshold.
    for _ in 0..3 {
        let t = ex.process_gamepad_state(&g, 10);
        assert_eq!(t, vec![SinkCommand::Scroll { amount: 1, axis: ScrollAxis::Vertical }]);
    }
    g.set_axis(GamepadAxis::TriggerLeft, 0);
    let stopped = ex.process_gamepad_state(&g, 10);
    assert!(stopped.is_empty());
}

#[test]
fn stick_inside_deadzone_moves_nothing() {
    let rule = Mapping::AxisStick(AxisStickMapping {
        id: "move".to_string(),
        stick: StickType::LeftStick,
        action: Action::MouseMoveStick { mode: MouseMoveMode::Relative, speed: 255 },
        conditions: Vec::new(),
    });
    let mut ex = MappingExecutor::new(config_with(vec![rule]));
    let mut g = GamepadState::new(0, "pad".to_string());
    // Normalized 99 against a deadzone of 100: at rest, nothing moves.
    g.set_axis(GamepadAxis::LeftX, 3250);
    let t = ex.process_gamepad_state(&g, 100);
    assert!(t.is_empty());
    assert_eq!(ex.move_accumulator_x, 0);
}

#[test]
fn shutdown_release_pass_inverts_every_held_rule() {
    let rules = vec![
        button_rule("key", GamepadButton::A, press_keys(&["a"])),
        button_rule("click", GamepadButton::B, Action::MouseClick { button: MouseButton::Right }),
    ];
    let mut ex = MappingExecutor::new(config_with(rules));
    let mut g = GamepadState::new(0, "pad".to_string());
    g.set_button(GamepadButton::A, true);
    g.set_button(GamepadButton::B, true);
    ex.process_gamepad_state(&g, 10);

    let pass = ex.release_active_actions();
    assert_eq!(
        pass,
        vec![
            SinkCommand::ReleaseKey { key: "a".to_string() },
            SinkCommand::MouseButtonRelease { button: MouseButton::Right },
        ]
    );
    // Nothing is held any more: a second pass has nothing to invert.
    let again = ex.release_active_actions();
    assert!(again.is_empty());
}

#[test]
fn fresh_state_tracks_nothing() {
    let s = MappingState::new();
    assert_eq!(s.scroll_speed, 20);
    assert!(s.active_actions.is_empty());
    assert!(s.continuous_actions.is_empty());
    assert!(s.pressed_buttons.is_empty());
    assert!(s.previous_gamepad_state.is_none());
    let ex = MappingExecutor::new(Config::fresh());
    assert!(!ex.has_continuous_actions());
}
