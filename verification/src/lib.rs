//! A verified input-mapping runtime for a gamepad.
//!
//! The library holds the pure core of a gamepad-to-keyboard/mouse mapper:
//! the device snapshot model, the declarative mapping rules, the condition
//! evaluator, the per-rule activation tracker and the action executor.  The
//! executor is a tick-driven state machine: each tick it evaluates every rule
//! against the latest snapshot and emits a list of [`sink::SinkCommand`]
//! values for an unverified shell to inject into the host.  Device capture,
//! synthetic input injection and configuration storage are collaborators of
//! that shell; the runtime only computes.
//!
//! All analog quantities are fixed-point integers: normalized axis values are
//! thousandths in `-1000..=1000`, scroll and movement accumulators are
//! millionths of one emitted unit.

pub mod axis;
pub mod conditions;
pub mod executor;
pub mod gamepad;
pub mod keys;
pub mod laws;
pub mod mapping;
pub mod screen;
pub mod sink;
pub mod tracker;
