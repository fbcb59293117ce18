//! Mapping rules: user configuration binding a trigger to an action.
//!
//! A rule is one of three variants: a button rule, an axis-trigger rule with
//! a threshold, or an axis-stick rule over a paired X/Y stick.  Each rule
//! carries a stable identifier used as the activation-tracking key, plus an
//! optional list of tagged conditions.

use vstd::prelude::*;

use crate::gamepad::{GamepadAxis, GamepadButton};

verus! {

/// The tag carried by a condition-list entry.
#[derive(Clone, Copy, Debug, PartialEq, Eq, Structural)]
pub enum BooleanOperator {
    And,
    Or,
}

/// A leaf predicate over one snapshot.
#[derive(Clone, Copy, Debug, PartialEq, Eq, Structural)]
pub enum Condition {
    ButtonPressed { button: GamepadButton },
    ButtonNotPressed { button: GamepadButton },
}

/// A leaf condition tagged with how it joins the rule's outcome: `Or`
/// entries are disjoined, `And` entries conjoined.
#[derive(Clone, Copy, Debug, PartialEq, Eq, Structural)]
pub enum ConditionType {
    And(Condition),
    Or(Condition),
}

/// Which mouse button an action presses or clicks.
#[derive(Clone, Copy, Debug, PartialEq, Eq, Structural)]
pub enum MouseButton {
    Left,
    Right,
    Middle,
}

/// The fixed direction of a button-driven movement or scroll action.
#[derive(Clone, Copy, Debug, PartialEq, Eq, Structural)]
pub enum Direction {
    Up,
    Down,
    Left,
    Right,
}

/// How a stick drives the cursor: relative velocity, or the stick position
/// projected onto the screen.
#[derive(Clone, Copy, Debug, PartialEq, Eq, Structural)]
pub enum MouseMoveMode {
    Relative,
    Absolute,
}

/// Which paired X/Y axes an axis-stick rule reads.
#[derive(Clone, Copy, Debug, PartialEq, Eq, Structural)]
pub enum StickType {
    LeftStick,
    RightStick,
}

/// What a rule does when it fires.  Pure data; execution is the executor's
/// responsibility.  Speeds are in emitted units per second for stick-driven
/// actions, and per tick for direction-driven ones; `sensitivity` is in
/// hundredths.
#[derive(Clone, Debug, PartialEq, Eq)]
pub enum Action {
    PressKeys { keys: Vec<String> },
    WriteText { text: String },
    MouseMoveDirection { direction: Direction, speed: u8 },
    MouseClick { button: MouseButton },
    MouseMoveStick { mode: MouseMoveMode, speed: u8 },
    ScrollDirection { direction: Direction, speed: u8 },
    ScrollStick { speed: u8 },
    ToogleMappingActive,
    ToogleVirtualKeyboard,
    SetMouseSensitivity { sensitivity: u8 },
    OpenWebsite { url: String },
    OpenFile { path: String },
}

/// A rule firing on one button.
#[derive(Clone, Debug, PartialEq, Eq)]
pub struct ButtonMapping {
    pub id: String,
    pub button: GamepadButton,
    pub action: Action,
    pub conditions: Vec<ConditionType>,
}

/// A rule firing while one axis deflects at least `threshold` hundredths of
/// full deflection (`0..=100`).
#[derive(Clone, Debug, PartialEq, Eq)]
pub struct AxisTriggerMapping {
    pub id: String,
    pub axis: GamepadAxis,
    pub threshold: u8,
    pub conditions: Vec<ConditionType>,
    pub action: Action,
}

/// A rule driving a continuous action from a stick pair.
#[derive(Clone, Debug, PartialEq, Eq)]
pub struct AxisStickMapping {
    pub id: String,
    pub stick: StickType,
    pub action: Action,
    pub conditions: Vec<ConditionType>,
}

/// One user-configured rule.
#[derive(Clone, Debug, PartialEq, Eq)]
pub enum Mapping {
    ButtonPressed(ButtonMapping),
    AxisTrigger(AxisTriggerMapping),
    AxisStick(AxisStickMapping),
}

impl Mapping {
    /// The rule's stable identifier, the activation-tracking key.
    pub open spec fn spec_id(&self) -> Seq<char> {
        match self {
            Mapping::ButtonPressed(m) => m.id@,
            Mapping::AxisTrigger(m) => m.id@,
            Mapping::AxisStick(m) => m.id@,
        }
    }

    /// The action the rule binds.
    pub open spec fn spec_action(&self) -> Action {
        match self {
            Mapping::ButtonPressed(m) => m.action,
            Mapping::AxisTrigger(m) => m.action,
            Mapping::AxisStick(m) => m.action,
        }
    }

    /// The rule's identifier.
    pub fn id(&self) -> (r: &String)
        ensures
            r@ == self.spec_id(),
    {
        match self {
            Mapping::ButtonPressed(m) => &m.id,
            Mapping::AxisTrigger(m) => &m.id,
            Mapping::AxisStick(m) => &m.id,
        }
    }

    /// The rule's action.
    pub fn action(&self) -> (r: &Action)
        ensures
            *r == self.spec_action(),
    {
        match self {
            Mapping::ButtonPressed(m) => &m.action,
            Mapping::AxisTrigger(m) => &m.action,
            Mapping::AxisStick(m) => &m.action,
        }
    }
}

/// User configuration: the ordered rule list plus runtime settings.  The
/// deadzone is in thousandths of full deflection.
#[derive(Clone, Debug, PartialEq, Eq)]
pub struct Config {
    pub mapping_active_on_boot: bool,
    pub mappings: Vec<Mapping>,
    pub deadzone: u16,
    pub keyboard_layout: Option<String>,
}

impl Config {
    /// The configuration used before the store supplies one: mapping active,
    /// no rules, a ten-percent deadzone.
    pub fn fresh() -> (c: Config)
        ensures
            c.mapping_active_on_boot,
            c.mappings@.len() == 0,
            c.deadzone == 100u16,
            c.keyboard_layout is None,
    {
        Config {
            mapping_active_on_boot: true,
            mappings: Vec::new(),
            deadzone: 100,
            keyboard_layout: None,
        }
    }
}

impl Default for Config {
    /// Equal to [`Config::fresh`].
    fn default() -> (c: Config)
        ensures
            c.mapping_active_on_boot,
            c.mappings@.len() == 0,
            c.deadzone == 100u16,
            c.keyboard_layout is None,
    {
        Config::fresh()
    }
}

} // verus!
