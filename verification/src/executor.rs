//! The mapping runtime: a tick-driven state machine that evaluates every
//! rule against the latest snapshot and emits sink commands.
//!
//! Per-rule lifecycle: a rule activates on the tick its trigger and
//! conditions first hold, stays active while they keep holding (one-shot
//! actions fire only on that first tick, continuous actions fire every
//! tick), and auto-resets — emitting the action's inverse, when it has one —
//! on the tick they stop holding.  A global enable flag gates every rule
//! except those bound to the action that toggles the flag itself.
//!
//! Scroll and movement accumulators are in millionths of one emitted unit:
//! each tick adds `normalized * speed * delta`, the whole part is emitted,
//! and the fraction carries over.  Both accumulator pairs snap to zero when
//! a stick rule reads both axes inside the deadzone.

use vstd::prelude::*;

use crate::axis::{spec_abs, spec_threshold_met, spec_under_deadzone, abs_i32, threshold_met};
use crate::conditions::{evaluate_conditions, spec_eval_conditions};
use crate::gamepad::{
    div_trunc, spec_norm_milli, GamepadAxis, GamepadState,
};
use crate::mapping::{
    Action, AxisStickMapping, AxisTriggerMapping, ButtonMapping, Config, Direction, Mapping,
    MouseMoveMode, StickType,
};
use crate::sink::{spec_press_cmds, spec_release_cmds, ScrollAxis, SinkCommand};
use crate::tracker::{
    flag_map, flags_distinct, get_flag, id_contains, id_insert, id_remove, id_set, ids_distinct,
    set_flag,
};

verus! {

/// One emitted unit, in accumulator ticks.
pub const UNIT_MICRO: i64 = 1_000_000;

/// A magnitude no accumulator exceeds within one tick: a full carried
/// fraction plus one tick's velocity at full deflection, top speed and the
/// largest accepted delta stays well under it.
pub const ACC_LIMIT: i64 = 500_000_000_000_000;

/// The largest tick delta the executor accepts, in milliseconds.
pub const MAX_TICK_MS: u32 = 1_000_000_000;

/// Whether an action fires only on its rule's rising edge, as opposed to
/// every tick the rule stays satisfied.
pub open spec fn spec_is_once(a: Action) -> bool {
    !(a is MouseMoveDirection || a is MouseMoveStick || a is ScrollDirection
        || a is ScrollStick)
}

/// Whether an action is a repeat-fire movement or scroll type, which keeps
/// the runtime ticking even without fresh device events.
pub open spec fn spec_is_continuous(a: Action) -> bool {
    ||| a is MouseMoveDirection
    ||| (a is MouseMoveStick && a->MouseMoveStick_mode is Relative)
    ||| a is ScrollDirection
    ||| a is ScrollStick
}

/// Whether an action defines an inverse for the auto-reset pass.
pub open spec fn spec_has_inverse(a: Action) -> bool {
    a is PressKeys || a is MouseClick
}

/// The inverse commands an auto-reset emits: key releases in reverse press
/// order, or a mouse-button release.  Actions without an inverse emit
/// nothing.
pub open spec fn spec_auto_reset_cmds(a: Action) -> Seq<SinkCommand> {
    match a {
        Action::PressKeys { keys } => spec_release_cmds(keys@),
        Action::MouseClick { button } => seq![SinkCommand::MouseButtonRelease { button }],
        _ => Seq::empty(),
    }
}

/// The abstract state of the runtime: the activation tracker's three
/// id-keyed stores, the four accumulators and the global enable flag.
#[verifier::ext_equal]
pub ghost struct RuntimeModel {
    /// Identifiers of rules currently holding their action.
    pub active: Set<Seq<char>>,
    /// Identifiers of rules whose continuous action may need repeat ticks.
    pub continuous: Set<Seq<char>>,
    /// Last observed edge state per button rule, false when never seen.
    pub pressed: Map<Seq<char>, bool>,
    pub scroll_acc_x: int,
    pub scroll_acc_y: int,
    pub move_acc_x: int,
    pub move_acc_y: int,
    pub mapping_active: bool,
}

/// Per-rule lifecycle bookkeeping shared by a whole executor.
pub struct MappingState {
    pub scroll_speed: i32,
    pub active_actions: Vec<String>,
    pub continuous_actions: Vec<String>,
    pub pressed_buttons: Vec<(String, bool)>,
    pub previous_gamepad_state: Option<GamepadState>,
}

impl MappingState {
    /// Fresh bookkeeping: nothing active, nothing pressed.
    pub fn new() -> (s: Self)
        ensures
            s.scroll_speed == 20i32,
            s.active_actions@.len() == 0,
            s.continuous_actions@.len() == 0,
            s.pressed_buttons@.len() == 0,
            s.previous_gamepad_state is None,
    {
        MappingState {
            scroll_speed: 20,
            active_actions: Vec::new(),
            continuous_actions: Vec::new(),
            pressed_buttons: Vec::new(),
            previous_gamepad_state: None,
        }
    }
}

/// The mapping runtime.  Holds the current configuration, the activation
/// tracker and the fractional accumulators; each call to
/// [`MappingExecutor::process_gamepad_state`] is one tick.
pub struct MappingExecutor {
    pub config: Config,
    pub mapping_state: MappingState,
    pub scroll_accumulator_x: i64,
    pub scroll_accumulator_y: i64,
    pub move_accumulator_x: i64,
    pub move_accumulator_y: i64,
    pub mapping_active: bool,
}

impl MappingExecutor {
    /// The tracker stores are duplicate-free and every accumulator carries
    /// less than one whole unit between ticks.
    pub open spec fn wf(&self) -> bool {
        &&& ids_distinct(self.mapping_state.active_actions@)
        &&& ids_distinct(self.mapping_state.continuous_actions@)
        &&& flags_distinct(self.mapping_state.pressed_buttons@)
        &&& -(UNIT_MICRO as int) < (self.scroll_accumulator_x as int) < (UNIT_MICRO as int)
        &&& -(UNIT_MICRO as int) < (self.scroll_accumulator_y as int) < (UNIT_MICRO as int)
        &&& -(UNIT_MICRO as int) < (self.move_accumulator_x as int) < (UNIT_MICRO as int)
        &&& -(UNIT_MICRO as int) < (self.move_accumulator_y as int) < (UNIT_MICRO as int)
    }

    /// The abstract runtime state this executor denotes.
    pub open spec fn model(&self) -> RuntimeModel {
        RuntimeModel {
            active: id_set(self.mapping_state.active_actions@),
            continuous: id_set(self.mapping_state.continuous_actions@),
            pressed: flag_map(self.mapping_state.pressed_buttons@),
            scroll_acc_x: self.scroll_accumulator_x as int,
            scroll_acc_y: self.scroll_accumulator_y as int,
            move_acc_x: self.move_accumulator_x as int,
            move_acc_y: self.move_accumulator_y as int,
            mapping_active: self.mapping_active,
        }
    }

    /// What a rule step never touches besides the model: the configuration
    /// and the configured scroll speed live outside the per-rule transition.
    pub open spec fn same_frame(&self, other: &Self) -> bool {
        &&& self.config == other.config
        &&& self.mapping_state.scroll_speed == other.mapping_state.scroll_speed
    }

    /// A fresh executor over a configuration: tracker empty, accumulators
    /// zero, the enable flag as the configuration boots it.
    pub fn new(config: Config) -> (e: Self)
        ensures
            e.wf(),
            e.config == config,
            e.model().active =~= Set::<Seq<char>>::empty(),
            e.model().continuous =~= Set::<Seq<char>>::empty(),
            forall|k: Seq<char>| !e.model().pressed[k],
            e.model().scroll_acc_x == 0,
            e.model().scroll_acc_y == 0,
            e.model().move_acc_x == 0,
            e.model().move_acc_y == 0,
            e.model().mapping_active == config.mapping_active_on_boot,
            e.mapping_state.scroll_speed == 20i32,
    {
        let active = config.mapping_active_on_boot;
        MappingExecutor {
            config,
            mapping_state: MappingState::new(),
            scroll_accumulator_x: 0,
            scroll_accumulator_y: 0,
            move_accumulator_x: 0,
            move_accumulator_y: 0,
            mapping_active: active,
        }
    }

    /// Replaces the configuration, as a hot reload between ticks; the
    /// tracker and accumulators carry over.
    pub fn set_config(&mut self, config: Config)
        requires
            old(self).wf(),
        ensures
            final(self).wf(),
            final(self).config == config,
            final(self).model() == old(self).model(),
            final(self).mapping_state.scroll_speed == old(self).mapping_state.scroll_speed,
    {
        self.config = config;
    }

    /// Whether mapping output is globally enabled.
    pub fn get_mapping_active(&self) -> (r: bool)
        ensures
            r == self.model().mapping_active,
    {
        self.mapping_active
    }

    /// Sets the global enable flag.
    pub fn set_mapping_active(&mut self, set: bool)
        requires
            old(self).wf(),
        ensures
            final(self).wf(),
            final(self).model() == (RuntimeModel { mapping_active: set, ..old(self).model() }),
            final(self).same_frame(&*old(self)),
    {
        self.mapping_active = set;
    }

    /// Whether some rule's continuous action may need a timed repeat tick
    /// even without a fresh device event.
    pub fn has_continuous_actions(&self) -> (r: bool)
        ensures
            r == (self.mapping_state.continuous_actions@.len() > 0),
    {
        self.mapping_state.continuous_actions.len() > 0
    }

    /// Whether a rule currently holds its action.
    pub fn is_action_active(&self, action_key: &String) -> (r: bool)
        ensures
            r == self.model().active.contains(action_key@),
    {
        id_contains(&self.mapping_state.active_actions, action_key)
    }

    /// Records that a rule now holds its action.
    pub fn mark_action_active(&mut self, action_key: &String)
        requires
            old(self).wf(),
        ensures
            final(self).wf(),
            final(self).model() == (RuntimeModel {
                active: old(self).model().active.insert(action_key@),
                ..old(self).model()
            }),
            final(self).same_frame(&*old(self)),
            final(self).mapping_state.previous_gamepad_state
                == old(self).mapping_state.previous_gamepad_state,
    {
        id_insert(&mut self.mapping_state.active_actions, action_key);
    }

    /// Forgets that a rule holds its action.
    pub fn stop_action(&mut self, action_key: &String)
        requires
            old(self).wf(),
        ensures
            final(self).wf(),
            final(self).model() == (RuntimeModel {
                active: old(self).model().active.remove(action_key@),
                ..old(self).model()
            }),
            final(self).same_frame(&*old(self)),
            final(self).mapping_state.previous_gamepad_state
                == old(self).mapping_state.previous_gamepad_state,
    {
        id_remove(&mut self.mapping_state.active_actions, action_key);
    }

    /// Whether an action fires only on its rule's rising edge.
    pub fn is_action_once(&self, action: &Action) -> (r: bool)
        ensures
            r == spec_is_once(*action),
    {
        !matches!(
            action,
            Action::MouseMoveDirection { .. } | Action::MouseMoveStick { .. }
                | Action::ScrollDirection { .. } | Action::ScrollStick { .. }
        )
    }

    /// Whether an action is a repeat-fire movement or scroll type.
    pub fn is_action_continuous(&self, action: &Action) -> (r: bool)
        ensures
            r == spec_is_continuous(*action),
    {
        matches!(
            action,
            Action::MouseMoveDirection { .. }
                | Action::MouseMoveStick { mode: MouseMoveMode::Relative, .. }
                | Action::ScrollDirection { .. } | Action::ScrollStick { .. }
        )
    }
}

/// The pixel deltas of a fixed-speed directional cursor move.
pub open spec fn spec_direction_delta(d: Direction, speed: u8) -> (int, int) {
    match d {
        Direction::Up => (0, -(speed as int)),
        Direction::Down => (0, speed as int),
        Direction::Left => (-(speed as int), 0),
        Direction::Right => (speed as int, 0),
    }
}

/// Drains both scroll accumulators from the given raised values, vertical
/// axis first, emitting a scroll for each nonzero whole part.
pub open spec fn spec_scroll_drain(m: RuntimeModel, sx: int, sy: int) -> (RuntimeModel, Seq<
    SinkCommand,
>) {
    let ey = spec_drain(sy).0;
    let ry = spec_drain(sy).1;
    let ex = spec_drain(sx).0;
    let rx = spec_drain(sx).1;
    let cmds_y: Seq<SinkCommand> = if ey != 0 {
        seq![SinkCommand::Scroll { amount: ey as i32, axis: ScrollAxis::Vertical }]
    } else {
        Seq::empty()
    };
    let cmds_x: Seq<SinkCommand> = if ex != 0 {
        seq![SinkCommand::Scroll { amount: ex as i32, axis: ScrollAxis::Horizontal }]
    } else {
        Seq::empty()
    };
    (RuntimeModel { scroll_acc_x: rx, scroll_acc_y: ry, ..m }, cmds_y + cmds_x)
}

/// One scroll-direction tick: the direction's axis gains `speed` hundredths
/// of a unit, then both axes drain.
pub open spec fn spec_scroll_direction_step(m: RuntimeModel, d: Direction, speed: u8) -> (
    RuntimeModel,
    Seq<SinkCommand>,
) {
    let sx = m.scroll_acc_x + (match d {
        Direction::Left => -(speed as int) * 10_000,
        Direction::Right => (speed as int) * 10_000,
        _ => 0,
    });
    let sy = m.scroll_acc_y + (match d {
        Direction::Up => -(speed as int) * 10_000,
        Direction::Down => (speed as int) * 10_000,
        _ => 0,
    });
    spec_scroll_drain(m, sx, sy)
}

/// What executing an action does: the commands it emits and how it moves
/// the runtime state.  With mapping globally disabled, every action but the
/// flag's own toggle is swallowed.  Stick-driven and sensitivity actions do
/// nothing here: the stick path executes the former, and the latter is
/// reserved.
pub open spec fn spec_perform_action(m: RuntimeModel, a: Action) -> (RuntimeModel, Seq<
    SinkCommand,
>) {
    if !m.mapping_active && !(a is ToogleMappingActive) {
        (m, Seq::empty())
    } else {
        match a {
            Action::PressKeys { keys } => (m, spec_press_cmds(keys@)),
            Action::WriteText { text } => (m, seq![SinkCommand::WriteText { text }]),
            Action::MouseClick { button } => (m, seq![SinkCommand::MouseButtonPress { button }]),
            Action::MouseMoveDirection { direction, speed } => (
                m,
                seq![
                    SinkCommand::MouseMove {
                        dx: spec_direction_delta(direction, speed).0 as i32,
                        dy: spec_direction_delta(direction, speed).1 as i32,
                    }
                ],
            ),
            Action::ScrollDirection { direction, speed } => spec_scroll_direction_step(
                m,
                direction,
                speed,
            ),
            Action::OpenWebsite { url } => (m, seq![SinkCommand::OpenUrl { url }]),
            Action::OpenFile { path } => (m, seq![SinkCommand::OpenPath { path }]),
            Action::ToogleMappingActive => (
                RuntimeModel { mapping_active: !m.mapping_active, ..m },
                Seq::empty(),
            ),
            Action::ToogleVirtualKeyboard => (m, seq![SinkCommand::ToogleVirtualKeyboard]),
            Action::MouseMoveStick { .. } => (m, Seq::empty()),
            Action::ScrollStick { .. } => (m, Seq::empty()),
            Action::SetMouseSensitivity { .. } => (m, Seq::empty()),
        }
    }
}

impl MappingExecutor {
    /// Emits the inverse of an action for the auto-reset pass: key releases
    /// in reverse press order, or a mouse-button release.
    pub fn execute_auto_reset_action(&self, original_action: &Action, cmds: &mut Vec<SinkCommand>)
        ensures
            final(cmds)@ == old(cmds)@ + spec_auto_reset_cmds(*original_action),
    {
        match original_action {
            Action::MouseClick { button } => {
                cmds.push(SinkCommand::MouseButtonRelease { button: *button });
                proof {
                    assert(cmds@ =~= old(cmds)@ + spec_auto_reset_cmds(*original_action));
                }
            },
            Action::PressKeys { keys } => {
                let n = keys.len();
                let mut i: usize = 0;
                while i < n
                    invariant
                        n == keys@.len(),
                        i <= n,
                        cmds@ =~= old(cmds)@ + spec_release_cmds(keys@).subrange(0, i as int),
                    decreases n - i,
                {
                    cmds.push(SinkCommand::ReleaseKey { key: keys[n - 1 - i].clone() });
                    proof {
                        assert(cmds@ =~= old(cmds)@ + spec_release_cmds(keys@).subrange(
                            0,
                            i + 1 as int,
                        ));
                    }
                    i = i + 1;
                }
                proof {
                    assert(spec_release_cmds(keys@).subrange(0, n as int) =~= spec_release_cmds(
                        keys@,
                    ));
                    assert(cmds@ =~= old(cmds)@ + spec_auto_reset_cmds(*original_action));
                }
            },
            _ => {
                proof {
                    assert(cmds@ =~= old(cmds)@ + spec_auto_reset_cmds(*original_action));
                }
            },
        }
    }

    /// Emits one fixed-speed directional cursor move.
    pub fn execute_mouse_move_direction(
        &self,
        direction: &Direction,
        speed: u8,
        cmds: &mut Vec<SinkCommand>,
    )
        ensures
            final(cmds)@ == old(cmds)@ + seq![
                SinkCommand::MouseMove {
                    dx: spec_direction_delta(*direction, speed).0 as i32,
                    dy: spec_direction_delta(*direction, speed).1 as i32,
                }
            ],
    {
        let s: i32 = speed as i32;
        let dx: i32 = match direction {
            Direction::Up => 0,
            Direction::Down => 0,
            Direction::Left => -s,
            Direction::Right => s,
        };
        let dy: i32 = match direction {
            Direction::Up => -s,
            Direction::Down => s,
            Direction::Left => 0,
            Direction::Right => 0,
        };
        cmds.push(SinkCommand::MouseMove { dx, dy });
        proof {
            assert(cmds@ =~= old(cmds)@ + seq![
                SinkCommand::MouseMove {
                    dx: spec_direction_delta(*direction, speed).0 as i32,
                    dy: spec_direction_delta(*direction, speed).1 as i32,
                }
            ]);
        }
    }

    /// Drains both scroll accumulators, vertical first, emitting whole
    /// scroll units and keeping the fractions.
    fn drain_scrolls(&mut self, cmds: &mut Vec<SinkCommand>)
        requires
            -ACC_LIMIT <= old(self).scroll_accumulator_x <= ACC_LIMIT,
            -ACC_LIMIT <= old(self).scroll_accumulator_y <= ACC_LIMIT,
        ensures
            final(self).model() == spec_scroll_drain(
                old(self).model(),
                old(self).scroll_accumulator_x as int,
                old(self).scroll_accumulator_y as int,
            ).0,
            final(cmds)@ == old(cmds)@ + spec_scroll_drain(
                old(self).model(),
                old(self).scroll_accumulator_x as int,
                old(self).scroll_accumulator_y as int,
            ).1,
            -(UNIT_MICRO as int) < (final(self).scroll_accumulator_x as int) < (UNIT_MICRO as int),
            -(UNIT_MICRO as int) < (final(self).scroll_accumulator_y as int) < (UNIT_MICRO as int),
            final(self).mapping_state == old(self).mapping_state,
            final(self).config == old(self).config,
            final(self).move_accumulator_x == old(self).move_accumulator_x,
            final(self).move_accumulator_y == old(self).move_accumulator_y,
            final(self).mapping_active == old(self).mapping_active,
    {
        let ghost pre = self.model();
        let ghost sx = self.scroll_accumulator_x as int;
        let ghost sy = self.scroll_accumulator_y as int;
        let drained_y = drain_accumulator(self.scroll_accumulator_y);
        self.scroll_accumulator_y = drained_y.1;
        if drained_y.0 != 0i32 {
            cmds.push(SinkCommand::Scroll { amount: drained_y.0, axis: ScrollAxis::Vertical });
        }
        let drained_x = drain_accumulator(self.scroll_accumulator_x);
        self.scroll_accumulator_x = drained_x.1;
        if drained_x.0 != 0i32 {
            cmds.push(SinkCommand::Scroll { amount: drained_x.0, axis: ScrollAxis::Horizontal });
        }
        proof {
            assert(cmds@ =~= old(cmds)@ + spec_scroll_drain(pre, sx, sy).1);
        }
    }

    /// One scroll-direction tick: raises the direction's axis by `speed`
    /// hundredths of a unit, then drains both axes.
    pub fn execute_scroll_direction(
        &mut self,
        direction: &Direction,
        speed: u8,
        cmds: &mut Vec<SinkCommand>,
    )
        requires
            old(self).wf(),
        ensures
            final(self).wf(),
            final(self).model() == spec_scroll_direction_step(
                old(self).model(),
                *direction,
                speed,
            ).0,
            final(cmds)@ == old(cmds)@ + spec_scroll_direction_step(
                old(self).model(),
                *direction,
                speed,
            ).1,
            final(self).same_frame(&*old(self)),
            final(self).mapping_state == old(self).mapping_state,
    {
        let delta: i64 = (speed as i64) * 10_000;
        match direction {
            Direction::Up => {
                self.scroll_accumulator_y = self.scroll_accumulator_y - delta;
            },
            Direction::Down => {
                self.scroll_accumulator_y = self.scroll_accumulator_y + delta;
            },
            Direction::Left => {
                self.scroll_accumulator_x = self.scroll_accumulator_x - delta;
            },
            Direction::Right => {
                self.scroll_accumulator_x = self.scroll_accumulator_x + delta;
            },
        }
        self.drain_scrolls(cmds);
    }

    /// Executes one action against the sink: appends its commands and
    /// applies its state effect, gated by the global enable flag.
    pub fn perform_action(&mut self, action: &Action, cmds: &mut Vec<SinkCommand>)
        requires
            old(self).wf(),
        ensures
            final(self).wf(),
            final(self).model() == spec_perform_action(old(self).model(), *action).0,
            final(cmds)@ == old(cmds)@ + spec_perform_action(old(self).model(), *action).1,
            final(self).same_frame(&*old(self)),
            final(self).mapping_state.previous_gamepad_state
                == old(self).mapping_state.previous_gamepad_state,
    {
        if !self.mapping_active && !matches!(action, Action::ToogleMappingActive) {
            proof {
                assert(cmds@ =~= cmds@ + Seq::<SinkCommand>::empty());
            }
            return;
        }
        match action {
            Action::PressKeys { keys } => {
                let n = keys.len();
                let mut i: usize = 0;
                while i < n
                    invariant
                        n == keys@.len(),
                        i <= n,
                        cmds@ =~= old(cmds)@ + spec_press_cmds(keys@).subrange(0, i as int),
                    decreases n - i,
                {
                    cmds.push(SinkCommand::PressKey { key: keys[i].clone() });
                    proof {
                        assert(cmds@ =~= old(cmds)@ + spec_press_cmds(keys@).subrange(
                            0,
                            i + 1 as int,
                        ));
                    }
                    i = i + 1;
                }
                proof {
                    assert(spec_press_cmds(keys@).subrange(0, n as int) =~= spec_press_cmds(keys@));
                    assert(cmds@ =~= old(cmds)@ + spec_press_cmds(keys@));
                }
            },
            Action::WriteText { text } => {
                cmds.push(SinkCommand::WriteText { text: text.clone() });
                proof {
                    assert(cmds@ =~= old(cmds)@ + spec_perform_action(
                        old(self).model(),
                        *action,
                    ).1);
                }
            },
            Action::MouseClick { button } => {
                cmds.push(SinkCommand::MouseButtonPress { button: *button });
                proof {
                    assert(cmds@ =~= old(cmds)@ + spec_perform_action(
                        old(self).model(),
                        *action,
                    ).1);
                }
            },
            Action::MouseMoveDirection { direction, speed } => {
                self.execute_mouse_move_direction(direction, *speed, cmds);
            },
            Action::ScrollDirection { direction, speed } => {
                self.execute_scroll_direction(direction, *speed, cmds);
            },
            Action::OpenWebsite { url } => {
                cmds.push(SinkCommand::OpenUrl { url: url.clone() });
                proof {
                    assert(cmds@ =~= old(cmds)@ + spec_perform_action(
                        old(self).model(),
                        *action,
                    ).1);
                }
            },
            Action::OpenFile { path } => {
                cmds.push(SinkCommand::OpenPath { path: path.clone() });
                proof {
                    assert(cmds@ =~= old(cmds)@ + spec_perform_action(
                        old(self).model(),
                        *action,
                    ).1);
                }
            },
            Action::ToogleMappingActive => {
                self.mapping_active = !self.mapping_active;
                proof {
                    assert(cmds@ =~= cmds@ + Seq::<SinkCommand>::empty());
                }
            },
            Action::ToogleVirtualKeyboard => {
                cmds.push(SinkCommand::ToogleVirtualKeyboard);
                proof {
                    assert(cmds@ =~= old(cmds)@ + spec_perform_action(
                        old(self).model(),
                        *action,
                    ).1);
                }
            },
            Action::MouseMoveStick { .. } => {
                proof {
                    assert(cmds@ =~= cmds@ + Seq::<SinkCommand>::empty());
                }
            },
            Action::ScrollStick { .. } => {
                proof {
                    assert(cmds@ =~= cmds@ + Seq::<SinkCommand>::empty());
                }
            },
            Action::SetMouseSensitivity { .. } => {
                proof {
                    assert(cmds@ =~= cmds@ + Seq::<SinkCommand>::empty());
                }
            },
        }
    }
}

/// One tick of a button rule.  On the rising edge of "pressed and
/// conditions hold" the action fires and the rule becomes active; while
/// held, one-shot actions stay quiet and continuous actions refire; on the
/// falling edge an active rule emits its action's inverse and goes idle.
pub open spec fn spec_button_step(m: RuntimeModel, g: GamepadState, bm: ButtonMapping) -> (
    RuntimeModel,
    Seq<SinkCommand>,
) {
    let id = bm.id@;
    let satisfied = g.spec_button(bm.button) && spec_eval_conditions(g, bm.conditions@);
    if satisfied {
        let just_pressed = !m.pressed[id];
        let m1 = if just_pressed {
            RuntimeModel { pressed: m.pressed.insert(id, true), ..m }
        } else {
            m
        };
        let should = if spec_is_once(bm.action) {
            !m1.active.contains(id) && just_pressed
        } else {
            true
        };
        if should {
            let m2 = spec_perform_action(m1, bm.action).0;
            (
                RuntimeModel { active: m2.active.insert(id), ..m2 },
                spec_perform_action(m1, bm.action).1,
            )
        } else {
            (RuntimeModel { continuous: m1.continuous.remove(id), ..m1 }, Seq::empty())
        }
    } else {
        let cs: Seq<SinkCommand> = if m.active.contains(id) {
            spec_auto_reset_cmds(bm.action)
        } else {
            Seq::empty()
        };
        (
            RuntimeModel {
                continuous: m.continuous.remove(id),
                active: m.active.remove(id),
                pressed: m.pressed.insert(id, false),
                ..m
            },
            cs,
        )
    }
}

/// One tick of an axis-trigger rule.  The rule is satisfied while the axis
/// magnitude meets the inclusive threshold and the conditions hold; it
/// fires on the rising edge, refires every tick only for continuous
/// actions, and auto-resets on the falling edge.
pub open spec fn spec_axis_trigger_step(m: RuntimeModel, g: GamepadState, am: AxisTriggerMapping) -> (
    RuntimeModel,
    Seq<SinkCommand>,
) {
    let id = am.id@;
    let satisfied = spec_threshold_met(g.spec_axis(am.axis), am.threshold)
        && spec_eval_conditions(g, am.conditions@);
    if satisfied {
        if !m.active.contains(id) || !spec_is_once(am.action) {
            let m2 = spec_perform_action(m, am.action).0;
            (
                RuntimeModel { active: m2.active.insert(id), ..m2 },
                spec_perform_action(m, am.action).1,
            )
        } else {
            (m, Seq::empty())
        }
    } else {
        let cs: Seq<SinkCommand> = if m.active.contains(id) {
            spec_auto_reset_cmds(am.action)
        } else {
            Seq::empty()
        };
        (
            RuntimeModel { continuous: m.continuous.remove(id), active: m.active.remove(id), ..m },
            cs,
        )
    }
}

/// The paired X and Y axes a stick reads.
pub open spec fn spec_stick_axes(stick: StickType) -> (GamepadAxis, GamepadAxis) {
    match stick {
        StickType::LeftStick => (GamepadAxis::LeftX, GamepadAxis::LeftY),
        StickType::RightStick => (GamepadAxis::RightX, GamepadAxis::RightY),
    }
}

/// One stick-driven cursor tick.  Relative mode accumulates
/// `normalized * speed * delta` micro-pixels per axis and emits the whole
/// parts as one move; absolute mode hands the normalized position to the
/// shell for projection.
pub open spec fn spec_move_stick_step(
    m: RuntimeModel,
    xn: int,
    yn: int,
    mode: MouseMoveMode,
    speed: u8,
    dt_ms: u32,
) -> (RuntimeModel, Seq<SinkCommand>) {
    if mode is Relative {
        let ax = m.move_acc_x + xn * (speed as int) * (dt_ms as int);
        let ay = m.move_acc_y + yn * (speed as int) * (dt_ms as int);
        let ex = spec_drain(ax).0;
        let ey = spec_drain(ay).0;
        let cs: Seq<SinkCommand> = if ex != 0 || ey != 0 {
            seq![SinkCommand::MouseMove { dx: ex as i32, dy: ey as i32 }]
        } else {
            Seq::empty()
        };
        (RuntimeModel { move_acc_x: spec_drain(ax).1, move_acc_y: spec_drain(ay).1, ..m }, cs)
    } else {
        (m, seq![SinkCommand::MouseMoveStickAbsolute { x_milli: xn as i32, y_milli: yn as i32 }])
    }
}

/// One stick-driven scroll tick: each axis accumulates
/// `normalized * speed * delta` micro-units, then both drain.
pub open spec fn spec_scroll_stick_step(
    m: RuntimeModel,
    xn: int,
    yn: int,
    speed: u8,
    dt_ms: u32,
) -> (RuntimeModel, Seq<SinkCommand>) {
    spec_scroll_drain(
        m,
        m.scroll_acc_x + xn * (speed as int) * (dt_ms as int),
        m.scroll_acc_y + yn * (speed as int) * (dt_ms as int),
    )
}

/// One tick of an axis-stick rule.  When both normalized magnitudes rest
/// inside the deadzone, every accumulator snaps to zero so no drift
/// survives.  The rule executes while its conditions hold and the stick is
/// out of the deadzone — absolute cursor mode ignores the deadzone.
pub open spec fn spec_stick_step(
    m: RuntimeModel,
    g: GamepadState,
    sm: AxisStickMapping,
    deadzone: u16,
    dt_ms: u32,
) -> (RuntimeModel, Seq<SinkCommand>) {
    let id = sm.id@;
    let xn = spec_norm_milli(g.spec_axis(spec_stick_axes(sm.stick).0));
    let yn = spec_norm_milli(g.spec_axis(spec_stick_axes(sm.stick).1));
    let m0 = if spec_under_deadzone(xn, yn, deadzone) {
        RuntimeModel { scroll_acc_x: 0, scroll_acc_y: 0, move_acc_x: 0, move_acc_y: 0, ..m }
    } else {
        m
    };
    let ignore = sm.action is MouseMoveStick && sm.action->MouseMoveStick_mode is Absolute;
    let over = ignore || spec_abs(xn) > deadzone as int || spec_abs(yn) > deadzone as int;
    if !spec_eval_conditions(g, sm.conditions@) || !over {
        (RuntimeModel { continuous: m0.continuous.remove(id), ..m0 }, Seq::empty())
    } else {
        match sm.action {
            Action::MouseMoveStick { mode, speed } => spec_move_stick_step(
                m0,
                xn,
                yn,
                mode,
                speed,
                dt_ms,
            ),
            Action::ScrollStick { speed } => spec_scroll_stick_step(m0, xn, yn, speed, dt_ms),
            _ => (m0, Seq::empty()),
        }
    }
}

/// One tick's velocity stays far inside the accumulator limit: normalized
/// values are at most a thousand, speeds at most 255, deltas at most a
/// billion milliseconds.
proof fn lemma_velocity_bound(x: int, s: int, d: int)
    requires
        -1000 <= x <= 1000,
        0 <= s <= 255,
        0 <= d <= MAX_TICK_MS as int,
    ensures
        -255_000 <= x * s <= 255_000,
        -255_000_000_000_000 <= x * s * d <= 255_000_000_000_000,
{
    assert(-255_000 <= x * s <= 255_000 && -255_000_000_000_000 <= x * s * d
        <= 255_000_000_000_000) by (nonlinear_arith)
        requires
            -1000 <= x <= 1000,
            0 <= s <= 255,
            0 <= d <= 1_000_000_000,
    ;
}

impl MappingExecutor {
    /// One tick of a button rule; see [`spec_button_step`].
    pub fn process_button_mapping(
        &mut self,
        gamepad: &GamepadState,
        mapping: &ButtonMapping,
        cmds: &mut Vec<SinkCommand>,
    )
        requires
            old(self).wf(),
            gamepad.wf(),
        ensures
            final(self).wf(),
            final(self).model() == spec_button_step(old(self).model(), *gamepad, *mapping).0,
            final(cmds)@ == old(cmds)@ + spec_button_step(old(self).model(), *gamepad, *mapping).1,
            final(self).same_frame(&*old(self)),
            final(self).mapping_state.previous_gamepad_state
                == old(self).mapping_state.previous_gamepad_state,
    {
        let is_pressed = gamepad.is_button_pressed(&mapping.button);
        let satisfied = is_pressed && evaluate_conditions(gamepad, &mapping.conditions);
        if satisfied {
            let was_pressed = get_flag(&self.mapping_state.pressed_buttons, &mapping.id);
            let just_pressed = !was_pressed;
            if just_pressed {
                set_flag(&mut self.mapping_state.pressed_buttons, &mapping.id, true);
            }
            let once = self.is_action_once(&mapping.action);
            let should_execute: bool = if once {
                !self.is_action_active(&mapping.id) && just_pressed
            } else {
                true
            };
            if should_execute {
                self.perform_action(&mapping.action, cmds);
                self.mark_action_active(&mapping.id);
            } else {
                id_remove(&mut self.mapping_state.continuous_actions, &mapping.id);
                proof {
                    assert(cmds@ =~= cmds@ + Seq::<SinkCommand>::empty());
                }
            }
        } else {
            id_remove(&mut self.mapping_state.continuous_actions, &mapping.id);
            if self.is_action_active(&mapping.id) {
                self.execute_auto_reset_action(&mapping.action, cmds);
            } else {
                proof {
                    assert(cmds@ =~= cmds@ + Seq::<SinkCommand>::empty());
                }
            }
            self.stop_action(&mapping.id);
            set_flag(&mut self.mapping_state.pressed_buttons, &mapping.id, false);
        }
    }

    /// One tick of an axis-trigger rule; see [`spec_axis_trigger_step`].
    pub fn process_axis_trigger_mapping(
        &mut self,
        gamepad: &GamepadState,
        mapping: &AxisTriggerMapping,
        cmds: &mut Vec<SinkCommand>,
    )
        requires
            old(self).wf(),
            gamepad.wf(),
        ensures
            final(self).wf(),
            final(self).model() == spec_axis_trigger_step(
                old(self).model(),
                *gamepad,
                *mapping,
            ).0,
            final(cmds)@ == old(cmds)@ + spec_axis_trigger_step(
                old(self).model(),
                *gamepad,
                *mapping,
            ).1,
            final(self).same_frame(&*old(self)),
            final(self).mapping_state.previous_gamepad_state
                == old(self).mapping_state.previous_gamepad_state,
    {
        let axis_value = gamepad.axis_value(&mapping.axis);
        let t_met = threshold_met(axis_value, mapping.threshold);
        let condition_met = evaluate_conditions(gamepad, &mapping.conditions);
        if t_met && condition_met {
            let already_active = self.is_action_active(&mapping.id);
            let once = self.is_action_once(&mapping.action);
            if !already_active || !once {
                self.perform_action(&mapping.action, cmds);
                self.mark_action_active(&mapping.id);
            } else {
                proof {
                    assert(cmds@ =~= cmds@ + Seq::<SinkCommand>::empty());
                }
            }
        } else {
            id_remove(&mut self.mapping_state.continuous_actions, &mapping.id);
            if self.is_action_active(&mapping.id) {
                self.execute_auto_reset_action(&mapping.action, cmds);
            } else {
                proof {
                    assert(cmds@ =~= cmds@ + Seq::<SinkCommand>::empty());
                }
            }
            self.stop_action(&mapping.id);
        }
    }

    /// One stick-driven cursor tick; see [`spec_move_stick_step`].
    pub fn execute_mouse_move_stick(
        &mut self,
        x_value: i32,
        y_value: i32,
        mode: &MouseMoveMode,
        speed: u8,
        dt_ms: u32,
        cmds: &mut Vec<SinkCommand>,
    )
        requires
            old(self).wf(),
            -1000 <= x_value <= 1000,
            -1000 <= y_value <= 1000,
            dt_ms <= MAX_TICK_MS,
        ensures
            final(self).wf(),
            final(self).model() == spec_move_stick_step(
                old(self).model(),
                x_value as int,
                y_value as int,
                *mode,
                speed,
                dt_ms,
            ).0,
            final(cmds)@ == old(cmds)@ + spec_move_stick_step(
                old(self).model(),
                x_value as int,
                y_value as int,
                *mode,
                speed,
                dt_ms,
            ).1,
            final(self).same_frame(&*old(self)),
            final(self).mapping_state == old(self).mapping_state,
            final(self).mapping_active == old(self).mapping_active,
    {
        match mode {
            MouseMoveMode::Relative => {
                proof {
                    lemma_velocity_bound(x_value as int, speed as int, dt_ms as int);
                    lemma_velocity_bound(y_value as int, speed as int, dt_ms as int);
                }
                let vx: i64 = (x_value as i64) * (speed as i64) * (dt_ms as i64);
                let vy: i64 = (y_value as i64) * (speed as i64) * (dt_ms as i64);
                self.move_accumulator_x = self.move_accumulator_x + vx;
                self.move_accumulator_y = self.move_accumulator_y + vy;
                let drained_x = drain_accumulator(self.move_accumulator_x);
                self.move_accumulator_x = drained_x.1;
                let drained_y = drain_accumulator(self.move_accumulator_y);
                self.move_accumulator_y = drained_y.1;
                if drained_x.0 != 0i32 || drained_y.0 != 0i32 {
                    cmds.push(SinkCommand::MouseMove { dx: drained_x.0, dy: drained_y.0 });
                    proof {
                        assert(cmds@ =~= old(cmds)@ + spec_move_stick_step(
                            old(self).model(),
                            x_value as int,
                            y_value as int,
                            *mode,
                            speed,
                            dt_ms,
                        ).1);
                    }
                } else {
                    proof {
                        assert(cmds@ =~= cmds@ + Seq::<SinkCommand>::empty());
                    }
                }
            },
            MouseMoveMode::Absolute => {
                cmds.push(
                    SinkCommand::MouseMoveStickAbsolute { x_milli: x_value, y_milli: y_value },
                );
                proof {
                    assert(cmds@ =~= old(cmds)@ + spec_move_stick_step(
                        old(self).model(),
                        x_value as int,
                        y_value as int,
                        *mode,
                        speed,
                        dt_ms,
                    ).1);
                }
            },
        }
    }

    /// One stick-driven scroll tick; see [`spec_scroll_stick_step`].
    pub fn execute_scroll_stick(
        &mut self,
        x_value: i32,
        y_value: i32,
        speed: u8,
        dt_ms: u32,
        cmds: &mut Vec<SinkCommand>,
    )
        requires
            old(self).wf(),
            -1000 <= x_value <= 1000,
            -1000 <= y_value <= 1000,
            dt_ms <= MAX_TICK_MS,
        ensures
            final(self).wf(),
            final(self).model() == spec_scroll_stick_step(
                old(self).model(),
                x_value as int,
                y_value as int,
                speed,
                dt_ms,
            ).0,
            final(cmds)@ == old(cmds)@ + spec_scroll_stick_step(
                old(self).model(),
                x_value as int,
                y_value as int,
                speed,
                dt_ms,
            ).1,
            final(self).same_frame(&*old(self)),
            final(self).mapping_state == old(self).mapping_state,
            final(self).mapping_active == old(self).mapping_active,
    {
        proof {
            lemma_velocity_bound(x_value as int, speed as int, dt_ms as int);
            lemma_velocity_bound(y_value as int, speed as int, dt_ms as int);
        }
        let vx: i64 = (x_value as i64) * (speed as i64) * (dt_ms as i64);
        let vy: i64 = (y_value as i64) * (speed as i64) * (dt_ms as i64);
        self.scroll_accumulator_x = self.scroll_accumulator_x + vx;
        self.scroll_accumulator_y = self.scroll_accumulator_y + vy;
        self.drain_scrolls(cmds);
    }

    /// One tick of an axis-stick rule; see [`spec_stick_step`].
    pub fn process_axis_stick_mapping(
        &mut self,
        gamepad: &GamepadState,
        mapping: &AxisStickMapping,
        dt_ms: u32,
        cmds: &mut Vec<SinkCommand>,
    )
        requires
            old(self).wf(),
            gamepad.wf(),
            dt_ms <= MAX_TICK_MS,
        ensures
            final(self).wf(),
            final(self).model() == spec_stick_step(
                old(self).model(),
                *gamepad,
                *mapping,
                old(self).config.deadzone,
                dt_ms,
            ).0,
            final(cmds)@ == old(cmds)@ + spec_stick_step(
                old(self).model(),
                *gamepad,
                *mapping,
                old(self).config.deadzone,
                dt_ms,
            ).1,
            final(self).same_frame(&*old(self)),
            final(self).mapping_state.previous_gamepad_state
                == old(self).mapping_state.previous_gamepad_state,
    {
        let axes = match mapping.stick {
            StickType::LeftStick => (GamepadAxis::LeftX, GamepadAxis::LeftY),
            StickType::RightStick => (GamepadAxis::RightX, GamepadAxis::RightY),
        };
        let x_value = gamepad.get_normalized_axis_value(&axes.0);
        let y_value = gamepad.get_normalized_axis_value(&axes.1);
        let dz: i32 = self.config.deadzone as i32;
        if abs_i32(x_value) < dz && abs_i32(y_value) < dz {
            self.scroll_accumulator_x = 0;
            self.scroll_accumulator_y = 0;
            self.move_accumulator_x = 0;
            self.move_accumulator_y = 0;
        }
        let ignore_deadzone = matches!(
            &mapping.action,
            Action::MouseMoveStick { mode: MouseMoveMode::Absolute, .. }
        );
        let is_over_deadzone = ignore_deadzone || abs_i32(x_value) > dz || abs_i32(y_value) > dz;
        if !evaluate_conditions(gamepad, &mapping.conditions) || !is_over_deadzone {
            id_remove(&mut self.mapping_state.continuous_actions, &mapping.id);
            proof {
                assert(cmds@ =~= cmds@ + Seq::<SinkCommand>::empty());
            }
            return;
        }
        match &mapping.action {
            Action::MouseMoveStick { mode, speed } => {
                let mode_copy = *mode;
                let speed_copy = *speed;
                self.execute_mouse_move_stick(x_value, y_value, &mode_copy, speed_copy, dt_ms, cmds);
            },
            Action::ScrollStick { speed } => {
                let speed_copy = *speed;
                self.execute_scroll_stick(x_value, y_value, speed_copy, dt_ms, cmds);
            },
            _ => {
                proof {
                    assert(cmds@ =~= cmds@ + Seq::<SinkCommand>::empty());
                }
            },
        }
    }
}

/// One tick of one rule.  With mapping globally disabled, every rule except
/// those bound to the enable flag's own toggle is skipped whole, so the user
/// can always re-enable mapping.  A rule with a continuous action is noted
/// before its step so the runtime keeps ticking for it.
pub open spec fn spec_step_rule(
    m: RuntimeModel,
    g: GamepadState,
    rule: Mapping,
    deadzone: u16,
    dt_ms: u32,
) -> (RuntimeModel, Seq<SinkCommand>) {
    if !m.mapping_active && !(rule.spec_action() is ToogleMappingActive) {
        (m, Seq::empty())
    } else {
        let m0 = if spec_is_continuous(rule.spec_action()) {
            RuntimeModel { continuous: m.continuous.insert(rule.spec_id()), ..m }
        } else {
            m
        };
        match rule {
            Mapping::ButtonPressed(bm) => spec_button_step(m0, g, bm),
            Mapping::AxisTrigger(am) => spec_axis_trigger_step(m0, g, am),
            Mapping::AxisStick(sm) => spec_stick_step(m0, g, sm, deadzone, dt_ms),
        }
    }
}

/// One whole tick: every rule steps in list order, each over the state the
/// previous rule left, and the emitted commands concatenate in that order.
pub open spec fn spec_run_rules(
    m: RuntimeModel,
    g: GamepadState,
    rules: Seq<Mapping>,
    deadzone: u16,
    dt_ms: u32,
) -> (RuntimeModel, Seq<SinkCommand>)
    decreases rules.len(),
{
    if rules.len() == 0 {
        (m, Seq::empty())
    } else {
        let first = spec_step_rule(m, g, rules[0], deadzone, dt_ms);
        let rest = spec_run_rules(first.0, g, rules.drop_first(), deadzone, dt_ms);
        (rest.0, first.1 + rest.1)
    }
}

impl MappingExecutor {
    /// One tick of one rule; see [`spec_step_rule`].
    pub fn process_mapping(
        &mut self,
        gamepad: &GamepadState,
        mapping: &Mapping,
        dt_ms: u32,
        cmds: &mut Vec<SinkCommand>,
    )
        requires
            old(self).wf(),
            gamepad.wf(),
            dt_ms <= MAX_TICK_MS,
        ensures
            final(self).wf(),
            final(self).model() == spec_step_rule(
                old(self).model(),
                *gamepad,
                *mapping,
                old(self).config.deadzone,
                dt_ms,
            ).0,
            final(cmds)@ == old(cmds)@ + spec_step_rule(
                old(self).model(),
                *gamepad,
                *mapping,
                old(self).config.deadzone,
                dt_ms,
            ).1,
            final(self).same_frame(&*old(self)),
            final(self).mapping_state.previous_gamepad_state
                == old(self).mapping_state.previous_gamepad_state,
    {
        if !self.get_mapping_active() && !matches!(mapping.action(), Action::ToogleMappingActive) {
            proof {
                assert(cmds@ =~= cmds@ + Seq::<SinkCommand>::empty());
            }
            return;
        }
        if self.is_action_continuous(mapping.action()) {
            id_insert(&mut self.mapping_state.continuous_actions, mapping.id());
        }
        match mapping {
            Mapping::ButtonPressed(bm) => self.process_button_mapping(gamepad, bm, cmds),
            Mapping::AxisTrigger(am) => self.process_axis_trigger_mapping(gamepad, am, cmds),
            Mapping::AxisStick(sm) => self.process_axis_stick_mapping(gamepad, sm, dt_ms, cmds),
        }
    }

    /// One tick over one device: every configured rule steps in order
    /// against the snapshot, and the commands to inject come back in
    /// emission order.  The snapshot is remembered as the previous reading.
    pub fn process_gamepad_state(&mut self, gamepad: &GamepadState, dt_ms: u32) -> (cmds: Vec<
        SinkCommand,
    >)
        requires
            old(self).wf(),
            gamepad.wf(),
            dt_ms <= MAX_TICK_MS,
        ensures
            final(self).wf(),
            final(self).model() == spec_run_rules(
                old(self).model(),
                *gamepad,
                old(self).config.mappings@,
                old(self).config.deadzone,
                dt_ms,
            ).0,
            cmds@ == spec_run_rules(
                old(self).model(),
                *gamepad,
                old(self).config.mappings@,
                old(self).config.deadzone,
                dt_ms,
            ).1,
            final(self).config == old(self).config,
            final(self).mapping_state.scroll_speed == old(self).mapping_state.scroll_speed,
            final(self).mapping_state.previous_gamepad_state is Some,
    {
        let ghost m0 = old(self).model();
        let ghost rules = old(self).config.mappings@;
        let ghost dz = old(self).config.deadzone;
        let mut cmds: Vec<SinkCommand> = Vec::new();
        let mut mappings: Vec<Mapping> = Vec::new();
        core::mem::swap(&mut mappings, &mut self.config.mappings);
        let n = mappings.len();
        let mut i: usize = 0;
        proof {
            assert(rules.skip(0) =~= rules);
            assert(cmds@ + spec_run_rules(m0, *gamepad, rules, dz, dt_ms).1 =~= spec_run_rules(
                m0,
                *gamepad,
                rules,
                dz,
                dt_ms,
            ).1);
        }
        while i < n
            invariant
                self.wf(),
                gamepad.wf(),
                dt_ms <= MAX_TICK_MS,
                n == mappings@.len(),
                mappings@ == rules,
                i <= n,
                self.config.deadzone == dz,
                self.config.mappings@.len() == 0,
                self.config.mapping_active_on_boot == old(self).config.mapping_active_on_boot,
                self.config.keyboard_layout == old(self).config.keyboard_layout,
                self.mapping_state.scroll_speed == old(self).mapping_state.scroll_speed,
                spec_run_rules(m0, *gamepad, rules, dz, dt_ms).0 == spec_run_rules(
                    self.model(),
                    *gamepad,
                    rules.skip(i as int),
                    dz,
                    dt_ms,
                ).0,
                spec_run_rules(m0, *gamepad, rules, dz, dt_ms).1 == cmds@ + spec_run_rules(
                    self.model(),
                    *gamepad,
                    rules.skip(i as int),
                    dz,
                    dt_ms,
                ).1,
            decreases n - i,
        {
            let ghost pre = self.model();
            let ghost pre_cmds = cmds@;
            self.process_mapping(gamepad, &mappings[i], dt_ms, &mut cmds);
            proof {
                assert(rules.skip(i as int)[0] == rules[i as int]);
                assert(rules.skip(i as int).drop_first() =~= rules.skip(i as int + 1));
                let first = spec_step_rule(pre, *gamepad, rules[i as int], dz, dt_ms);
                let rest = spec_run_rules(
                    self.model(),
                    *gamepad,
                    rules.skip(i as int + 1),
                    dz,
                    dt_ms,
                );
                assert(pre_cmds + (first.1 + rest.1) =~= (pre_cmds + first.1) + rest.1);
            }
            i = i + 1;
        }
        core::mem::swap(&mut mappings, &mut self.config.mappings);
        self.mapping_state.previous_gamepad_state = Some(gamepad.duplicate());
        proof {
            assert(rules.skip(n as int) =~= Seq::<Mapping>::empty());
            assert(cmds@ + Seq::<SinkCommand>::empty() =~= cmds@);
        }
        cmds
    }
}

/// The shutdown release pass: every configured rule still holding its
/// action emits the action's inverse and goes idle, in rule-list order.
pub open spec fn spec_release_pass(m: RuntimeModel, rules: Seq<Mapping>) -> (RuntimeModel, Seq<
    SinkCommand,
>)
    decreases rules.len(),
{
    if rules.len() == 0 {
        (m, Seq::empty())
    } else {
        let id = rules[0].spec_id();
        let first: Seq<SinkCommand> = if m.active.contains(id) {
            spec_auto_reset_cmds(rules[0].spec_action())
        } else {
            Seq::empty()
        };
        let m1 = RuntimeModel { active: m.active.remove(id), ..m };
        let rest = spec_release_pass(m1, rules.drop_first());
        (rest.0, first + rest.1)
    }
}

/// After a release pass, no configured rule holds its action.
pub proof fn lemma_release_pass_clears_active(m: RuntimeModel, rules: Seq<Mapping>)
    ensures
        forall|i: int|
            0 <= i < rules.len() ==> !spec_release_pass(m, rules).0.active.contains(
                rules[i].spec_id(),
            ),
    decreases rules.len(),
{
    if rules.len() > 0 {
        let id = rules[0].spec_id();
        let m1 = RuntimeModel { active: m.active.remove(id), ..m };
        lemma_release_pass_clears_active(m1, rules.drop_first());
        lemma_release_pass_keeps_removed(m1, rules.drop_first(), id);
        assert forall|i: int|
            0 <= i < rules.len() implies !spec_release_pass(m, rules).0.active.contains(
            rules[i].spec_id(),
        ) by {
            if i > 0 {
                assert(rules.drop_first()[i - 1] == rules[i]);
            }
        }
    }
}

/// A release pass never re-adds an identifier it does not hold.
proof fn lemma_release_pass_keeps_removed(m: RuntimeModel, rules: Seq<Mapping>, id: Seq<char>)
    requires
        !m.active.contains(id),
    ensures
        !spec_release_pass(m, rules).0.active.contains(id),
    decreases rules.len(),
{
    if rules.len() > 0 {
        let m1 = RuntimeModel { active: m.active.remove(rules[0].spec_id()), ..m };
        lemma_release_pass_keeps_removed(m1, rules.drop_first(), id);
    }
}

impl MappingExecutor {
    /// Forces the release pass that must run before the process exits:
    /// every rule still holding its action emits its inverse — key
    /// releases, mouse-button releases — and the tracker forgets it, so
    /// the host is never left with input held by a dead process.
    pub fn release_active_actions(&mut self) -> (cmds: Vec<SinkCommand>)
        requires
            old(self).wf(),
        ensures
            final(self).wf(),
            final(self).model() == spec_release_pass(
                old(self).model(),
                old(self).config.mappings@,
            ).0,
            cmds@ == spec_release_pass(old(self).model(), old(self).config.mappings@).1,
            final(self).config == old(self).config,
            final(self).same_frame(&*old(self)),
    {
        let ghost m0 = self.model();
        let ghost rules = self.config.mappings@;
        let mut cmds: Vec<SinkCommand> = Vec::new();
        let mut mappings: Vec<Mapping> = Vec::new();
        core::mem::swap(&mut mappings, &mut self.config.mappings);
        let n = mappings.len();
        let mut i: usize = 0;
        proof {
            assert(rules.skip(0) =~= rules);
            assert(cmds@ + spec_release_pass(m0, rules).1 =~= spec_release_pass(m0, rules).1);
        }
        while i < n
            invariant
                self.wf(),
                n == mappings@.len(),
                mappings@ == rules,
                i <= n,
                self.config.mappings@.len() == 0,
                self.config.deadzone == old(self).config.deadzone,
                self.config.mapping_active_on_boot == old(self).config.mapping_active_on_boot,
                self.config.keyboard_layout == old(self).config.keyboard_layout,
                self.mapping_state.scroll_speed == old(self).mapping_state.scroll_speed,
                spec_release_pass(m0, rules).0 == spec_release_pass(
                    self.model(),
                    rules.skip(i as int),
                ).0,
                spec_release_pass(m0, rules).1 == cmds@ + spec_release_pass(
                    self.model(),
                    rules.skip(i as int),
                ).1,
            decreases n - i,
        {
            let ghost pre = self.model();
            let ghost pre_cmds = cmds@;
            let mapping = &mappings[i];
            if self.is_action_active(mapping.id()) {
                self.execute_auto_reset_action(mapping.action(), &mut cmds);
            } else {
                proof {
                    assert(cmds@ =~= cmds@ + Seq::<SinkCommand>::empty());
                }
            }
            self.stop_action(mapping.id());
            proof {
                assert(rules.skip(i as int)[0] == rules[i as int]);
                assert(rules.skip(i as int).drop_first() =~= rules.skip(i as int + 1));
                let id = rules[i as int].spec_id();
                let first: Seq<SinkCommand> = if pre.active.contains(id) {
                    spec_auto_reset_cmds(rules[i as int].spec_action())
                } else {
                    Seq::empty()
                };
                let rest = spec_release_pass(self.model(), rules.skip(i as int + 1));
                assert(pre_cmds + (first + rest.1) =~= (pre_cmds + first) + rest.1);
            }
            i = i + 1;
        }
        core::mem::swap(&mut mappings, &mut self.config.mappings);
        proof {
            assert(rules.skip(n as int) =~= Seq::<Mapping>::empty());
            assert(cmds@ + Seq::<SinkCommand>::empty() =~= cmds@);
        }
        cmds
    }
}

/// Splits an accumulator into the whole units to emit now and the fraction
/// that carries to the next tick.
pub open spec fn spec_drain(acc: int) -> (int, int) {
    let emitted = div_trunc(acc, UNIT_MICRO as int);
    (emitted, acc - emitted * (UNIT_MICRO as int))
}

/// Drains an accumulator, truncating toward zero.
pub fn drain_accumulator(acc: i64) -> (r: (i32, i64))
    requires
        -ACC_LIMIT <= acc <= ACC_LIMIT,
    ensures
        r.0 as int == spec_drain(acc as int).0,
        r.1 as int == spec_drain(acc as int).1,
        -(UNIT_MICRO as int) < (r.1 as int) < (UNIT_MICRO as int),
{
    let emitted: i64 = if acc >= 0 {
        acc / UNIT_MICRO
    } else {
        -((-acc) / UNIT_MICRO)
    };
    let rem: i64 = acc - emitted * UNIT_MICRO;
    (emitted as i32, rem)
}

} // verus!
