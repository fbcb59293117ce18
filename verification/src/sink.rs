//! Normalized output commands for the virtual input sink.
//!
//! The executor never injects input itself: each tick it emits a list of
//! these commands, and an unverified shell forwards them to the host's
//! injection primitives.  Key names travel as plain strings; analog
//! quantities are scaled integers.

use vstd::prelude::*;

use crate::mapping::MouseButton;

verus! {

/// The axis a scroll command turns.
#[derive(Clone, Copy, Debug, PartialEq, Eq, Structural)]
pub enum ScrollAxis {
    Vertical,
    Horizontal,
}

/// One instruction to the virtual input sink.  `MouseMove` is relative, in
/// pixels.  `MouseMoveStickAbsolute` carries the stick position in
/// thousandths of full deflection, for the shell to project onto the active
/// monitor.  `Scroll` amounts are whole scroll units.
#[derive(Clone, Debug, PartialEq, Eq)]
pub enum SinkCommand {
    PressKey { key: String },
    ReleaseKey { key: String },
    WriteText { text: String },
    MouseButtonPress { button: MouseButton },
    MouseButtonRelease { button: MouseButton },
    MouseMove { dx: i32, dy: i32 },
    MouseMoveStickAbsolute { x_milli: i32, y_milli: i32 },
    Scroll { amount: i32, axis: ScrollAxis },
    OpenUrl { url: String },
    OpenPath { path: String },
    ToogleVirtualKeyboard,
}

/// The press commands a key-sequence action emits: one press per key, in
/// order.
pub open spec fn spec_press_cmds(keys: Seq<String>) -> Seq<SinkCommand> {
    Seq::new(keys.len(), |i: int| SinkCommand::PressKey { key: keys[i] })
}

/// The release commands that undo a key-sequence action: one release per
/// key, in reverse order.
pub open spec fn spec_release_cmds(keys: Seq<String>) -> Seq<SinkCommand> {
    Seq::new(keys.len(), |i: int| SinkCommand::ReleaseKey { key: keys[keys.len() - 1 - i] })
}

} // verus!
