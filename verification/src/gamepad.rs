//! Device state snapshots: one full reading of a gamepad's buttons and axes.
//!
//! A snapshot always holds a value for every defined button and axis — there
//! are no sparse or missing entries.  Raw axis values are signed 16-bit;
//! normalized values are thousandths of full deflection, truncated toward
//! zero, so they lie in `-1000..=1000`.

use vstd::prelude::*;

verus! {

/// Every button a snapshot tracks.
#[derive(Clone, Copy, Debug, PartialEq, Eq, Structural)]
pub enum GamepadButton {
    A,
    B,
    X,
    Y,
    Back,
    Guide,
    Start,
    LeftStick,
    RightStick,
    LeftShoulder,
    RightShoulder,
    DPadUp,
    DPadDown,
    DPadLeft,
    DPadRight,
    Misc1,
    Paddle1,
    Paddle2,
    Paddle3,
    Paddle4,
    Touchpad,
}

/// Every analog axis a snapshot tracks.
#[derive(Clone, Copy, Debug, PartialEq, Eq, Structural)]
pub enum GamepadAxis {
    LeftX,
    LeftY,
    RightX,
    RightY,
    TriggerLeft,
    TriggerRight,
}

/// How many buttons a snapshot holds.
pub const BUTTON_COUNT: usize = 21;

/// How many axes a snapshot holds.
pub const AXIS_COUNT: usize = 6;

/// The slot a button occupies in a snapshot's button table.
pub open spec fn spec_button_index(b: GamepadButton) -> int {
    match b {
        GamepadButton::A => 0,
        GamepadButton::B => 1,
        GamepadButton::X => 2,
        GamepadButton::Y => 3,
        GamepadButton::Back => 4,
        GamepadButton::Guide => 5,
        GamepadButton::Start => 6,
        GamepadButton::LeftStick => 7,
        GamepadButton::RightStick => 8,
        GamepadButton::LeftShoulder => 9,
        GamepadButton::RightShoulder => 10,
        GamepadButton::DPadUp => 11,
        GamepadButton::DPadDown => 12,
        GamepadButton::DPadLeft => 13,
        GamepadButton::DPadRight => 14,
        GamepadButton::Misc1 => 15,
        GamepadButton::Paddle1 => 16,
        GamepadButton::Paddle2 => 17,
        GamepadButton::Paddle3 => 18,
        GamepadButton::Paddle4 => 19,
        GamepadButton::Touchpad => 20,
    }
}

/// The slot an axis occupies in a snapshot's axis table.
pub open spec fn spec_axis_index(a: GamepadAxis) -> int {
    match a {
        GamepadAxis::LeftX => 0,
        GamepadAxis::LeftY => 1,
        GamepadAxis::RightX => 2,
        GamepadAxis::RightY => 3,
        GamepadAxis::TriggerLeft => 4,
        GamepadAxis::TriggerRight => 5,
    }
}

/// Executable button indexing, equal to [`spec_button_index`].
pub fn button_index(b: GamepadButton) -> (i: usize)
    ensures
        i == spec_button_index(b),
{
    match b {
        GamepadButton::A => 0,
        GamepadButton::B => 1,
        GamepadButton::X => 2,
        GamepadButton::Y => 3,
        GamepadButton::Back => 4,
        GamepadButton::Guide => 5,
        GamepadButton::Start => 6,
        GamepadButton::LeftStick => 7,
        GamepadButton::RightStick => 8,
        GamepadButton::LeftShoulder => 9,
        GamepadButton::RightShoulder => 10,
        GamepadButton::DPadUp => 11,
        GamepadButton::DPadDown => 12,
        GamepadButton::DPadLeft => 13,
        GamepadButton::DPadRight => 14,
        GamepadButton::Misc1 => 15,
        GamepadButton::Paddle1 => 16,
        GamepadButton::Paddle2 => 17,
        GamepadButton::Paddle3 => 18,
        GamepadButton::Paddle4 => 19,
        GamepadButton::Touchpad => 20,
    }
}

/// Executable axis indexing, equal to [`spec_axis_index`].
pub fn axis_index(a: GamepadAxis) -> (i: usize)
    ensures
        i == spec_axis_index(a),
{
    match a {
        GamepadAxis::LeftX => 0,
        GamepadAxis::LeftY => 1,
        GamepadAxis::RightX => 2,
        GamepadAxis::RightY => 3,
        GamepadAxis::TriggerLeft => 4,
        GamepadAxis::TriggerRight => 5,
    }
}

/// Signed division truncating toward zero, the rounding rule of the
/// executable `/` on machine integers.
pub open spec fn div_trunc(a: int, b: int) -> int
    recommends
        b > 0,
{
    if a >= 0 {
        a / b
    } else {
        -((-a) / b)
    }
}

/// The normalized value of a raw axis reading, in thousandths of full
/// deflection: `raw / 32767` truncated toward zero, snapped to exactly zero
/// at a zero reading.  Always lies in `-1000..=1000`.
pub open spec fn spec_norm_milli(raw: i16) -> int {
    div_trunc(raw * 1000, 32767)
}

/// A full point-in-time reading of one device's buttons and axes.
pub struct GamepadState {
    pub id: u32,
    pub name: String,
    pub buttons: Vec<bool>,
    pub axis: Vec<i16>,
}

impl GamepadState {
    /// Every defined button and axis is present: the tables are full-size.
    pub open spec fn wf(&self) -> bool {
        &&& self.buttons@.len() == BUTTON_COUNT
        &&& self.axis@.len() == AXIS_COUNT
    }

    /// Whether a button reads as pressed in this snapshot.
    pub open spec fn spec_button(&self, b: GamepadButton) -> bool {
        self.buttons@[spec_button_index(b)]
    }

    /// The raw signed 16-bit reading of an axis in this snapshot.
    pub open spec fn spec_axis(&self, a: GamepadAxis) -> i16 {
        self.axis@[spec_axis_index(a)]
    }

    /// A fresh snapshot: no button pressed, every axis at rest.
    pub fn new(id: u32, name: String) -> (s: Self)
        ensures
            s.wf(),
            s.id == id,
            s.name == name,
            forall|b: GamepadButton| !s.spec_button(b),
            forall|a: GamepadAxis| s.spec_axis(a) == 0i16,
    {
        let buttons: Vec<bool> = vec![false; BUTTON_COUNT];
        let axis: Vec<i16> = vec![0i16; AXIS_COUNT];
        GamepadState { id, name, buttons, axis }
    }

    /// Records one button event, leaving every other reading unchanged.
    pub fn set_button(&mut self, button: GamepadButton, pressed: bool)
        requires
            old(self).wf(),
        ensures
            final(self).wf(),
            final(self).spec_button(button) == pressed,
            forall|b: GamepadButton|
                spec_button_index(b) != spec_button_index(button)
                    ==> final(self).spec_button(b) == old(self).spec_button(b),
            final(self).axis == old(self).axis,
            final(self).id == old(self).id,
            final(self).name == old(self).name,
    {
        let i = button_index(button);
        self.buttons[i] = pressed;
    }

    /// Records one axis event.  The stored value is clamped to
    /// `-32767..=32766` so later scaled arithmetic cannot overflow.
    pub fn set_axis(&mut self, axis: GamepadAxis, value: i16)
        requires
            old(self).wf(),
        ensures
            final(self).wf(),
            final(self).spec_axis(axis) == clamp_axis(value),
            forall|a: GamepadAxis|
                spec_axis_index(a) != spec_axis_index(axis)
                    ==> final(self).spec_axis(a) == old(self).spec_axis(a),
            final(self).buttons == old(self).buttons,
            final(self).id == old(self).id,
            final(self).name == old(self).name,
    {
        let clamped: i16 = if value < -32767i16 {
            -32767i16
        } else if value > 32766i16 {
            32766i16
        } else {
            value
        };
        let i = axis_index(axis);
        self.axis[i] = clamped;
    }

    /// The device identifier this snapshot belongs to.
    pub fn id(&self) -> (r: u32)
        ensures
            r == self.id,
    {
        self.id
    }

    /// The full axis table, one raw reading per [`GamepadAxis`] slot.
    pub fn axis(&self) -> (r: &Vec<i16>)
        ensures
            r == &self.axis,
    {
        &self.axis
    }

    /// Whether a button currently reads as pressed.
    pub fn is_button_pressed(&self, button: &GamepadButton) -> (r: bool)
        requires
            self.wf(),
        ensures
            r == self.spec_button(*button),
    {
        let i = button_index(*button);
        self.buttons[i]
    }

    /// The raw reading of one axis.
    pub fn axis_value(&self, axis: &GamepadAxis) -> (r: i16)
        requires
            self.wf(),
        ensures
            r == self.spec_axis(*axis),
    {
        let i = axis_index(*axis);
        self.axis[i]
    }

    /// The normalized reading of one axis, in thousandths of full
    /// deflection, truncated toward zero.  A zero raw reading snaps to
    /// exactly zero before any scaling.
    pub fn get_normalized_axis_value(&self, axis: &GamepadAxis) -> (r: i32)
        requires
            self.wf(),
        ensures
            r == spec_norm_milli(self.spec_axis(*axis)),
            -1000 <= r <= 1000,
    {
        let coord = self.axis_value(axis);
        norm_milli(coord)
    }

    /// A value-equal copy of this snapshot.
    pub fn duplicate(&self) -> (r: Self)
        ensures
            r.id == self.id,
            r.name@ == self.name@,
            r.buttons@ == self.buttons@,
            r.axis@ == self.axis@,
    {
        let mut buttons: Vec<bool> = Vec::new();
        let mut i: usize = 0;
        while i < self.buttons.len()
            invariant
                i <= self.buttons@.len(),
                buttons@ =~= self.buttons@.subrange(0, i as int),
            decreases self.buttons@.len() - i,
        {
            buttons.push(self.buttons[i]);
            i = i + 1;
        }
        let mut axis: Vec<i16> = Vec::new();
        let mut j: usize = 0;
        while j < self.axis.len()
            invariant
                j <= self.axis@.len(),
                axis@ =~= self.axis@.subrange(0, j as int),
            decreases self.axis@.len() - j,
        {
            axis.push(self.axis[j]);
            j = j + 1;
        }
        proof {
            assert(buttons@ =~= self.buttons@);
            assert(axis@ =~= self.axis@);
        }
        GamepadState { id: self.id, name: clone_string(&self.name), buttons, axis }
    }
}

/// The clamp applied by [`GamepadState::set_axis`].
pub open spec fn clamp_axis(value: i16) -> i16 {
    if value < -32767 {
        -32767i16
    } else if value > 32766 {
        32766i16
    } else {
        value
    }
}

/// Normalizes a raw axis reading to thousandths, truncating toward zero.
pub fn norm_milli(raw: i16) -> (r: i32)
    ensures
        r == spec_norm_milli(raw),
        -1000 <= r <= 1000,
{
    if raw == 0i16 {
        return 0i32;
    }
    let wide: i32 = raw as i32;
    if wide >= 0i32 {
        (wide * 1000) / 32767
    } else {
        -(((-wide) * 1000) / 32767)
    }
}

/// A value-equal copy of a string.
pub fn clone_string(s: &String) -> (r: String)
    ensures
        r@ == s@,
{
    s.clone()
}

} // verus!
