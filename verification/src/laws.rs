//! The runtime's standing guarantees, proved over the tick transition.
//!
//! The central one: for a rule whose action has an inverse, activations and
//! auto-resets strictly alternate over any run, so a pressed key or mouse
//! button is never pressed twice without its release in between, and never
//! left without one owed.

use vstd::prelude::*;

use crate::axis::{spec_threshold_met, spec_under_deadzone};
use crate::conditions::spec_eval_conditions;
use crate::executor::{
    spec_auto_reset_cmds, spec_has_inverse, spec_is_once, spec_perform_action, spec_run_rules,
    spec_step_rule, spec_stick_axes, spec_stick_step, RuntimeModel,
};
use crate::gamepad::{spec_norm_milli, GamepadState};
use crate::mapping::{AxisStickMapping, Mapping};
use crate::sink::SinkCommand;

verus! {

/// Whether one rule step is an activation: the rule was idle and now holds
/// its action.
pub open spec fn spec_activates(
    m: RuntimeModel,
    g: GamepadState,
    rule: Mapping,
    deadzone: u16,
    dt_ms: u32,
) -> bool {
    &&& !m.active.contains(rule.spec_id())
    &&& spec_step_rule(m, g, rule, deadzone, dt_ms).0.active.contains(rule.spec_id())
}

/// Whether one rule step is an auto-reset: the rule held its action and now
/// is idle again.
pub open spec fn spec_auto_resets(
    m: RuntimeModel,
    g: GamepadState,
    rule: Mapping,
    deadzone: u16,
    dt_ms: u32,
) -> bool {
    &&& m.active.contains(rule.spec_id())
    &&& !spec_step_rule(m, g, rule, deadzone, dt_ms).0.active.contains(rule.spec_id())
}

/// The state after stepping one rule over a whole run of snapshots.
pub open spec fn spec_run_states(
    m: RuntimeModel,
    snaps: Seq<GamepadState>,
    rule: Mapping,
    deadzone: u16,
    dt_ms: u32,
) -> RuntimeModel
    decreases snaps.len(),
{
    if snaps.len() == 0 {
        m
    } else {
        spec_run_states(
            spec_step_rule(m, snaps[0], rule, deadzone, dt_ms).0,
            snaps.drop_first(),
            rule,
            deadzone,
            dt_ms,
        )
    }
}

/// How many steps of a run are activations.
pub open spec fn spec_count_activations(
    m: RuntimeModel,
    snaps: Seq<GamepadState>,
    rule: Mapping,
    deadzone: u16,
    dt_ms: u32,
) -> int
    decreases snaps.len(),
{
    if snaps.len() == 0 {
        0
    } else {
        (if spec_activates(m, snaps[0], rule, deadzone, dt_ms) {
            1int
        } else {
            0int
        }) + spec_count_activations(
            spec_step_rule(m, snaps[0], rule, deadzone, dt_ms).0,
            snaps.drop_first(),
            rule,
            deadzone,
            dt_ms,
        )
    }
}

/// How many steps of a run are auto-resets.
pub open spec fn spec_count_resets(
    m: RuntimeModel,
    snaps: Seq<GamepadState>,
    rule: Mapping,
    deadzone: u16,
    dt_ms: u32,
) -> int
    decreases snaps.len(),
{
    if snaps.len() == 0 {
        0
    } else {
        (if spec_auto_resets(m, snaps[0], rule, deadzone, dt_ms) {
            1int
        } else {
            0int
        }) + spec_count_resets(
            spec_step_rule(m, snaps[0], rule, deadzone, dt_ms).0,
            snaps.drop_first(),
            rule,
            deadzone,
            dt_ms,
        )
    }
}

/// Activations and resets balance over any run: the surplus of activations
/// over resets is exactly the change in whether the rule holds its action.
pub proof fn lemma_activation_conservation(
    m: RuntimeModel,
    snaps: Seq<GamepadState>,
    rule: Mapping,
    deadzone: u16,
    dt_ms: u32,
)
    ensures
        spec_count_activations(m, snaps, rule, deadzone, dt_ms) + (if m.active.contains(
            rule.spec_id(),
        ) {
            1int
        } else {
            0int
        }) == spec_count_resets(m, snaps, rule, deadzone, dt_ms) + (if spec_run_states(
            m,
            snaps,
            rule,
            deadzone,
            dt_ms,
        ).active.contains(rule.spec_id()) {
            1int
        } else {
            0int
        }),
    decreases snaps.len(),
{
    if snaps.len() > 0 {
        lemma_activation_conservation(
            spec_step_rule(m, snaps[0], rule, deadzone, dt_ms).0,
            snaps.drop_first(),
            rule,
            deadzone,
            dt_ms,
        );
    }
}

/// For a rule starting idle, over any input run — and so over every prefix
/// of it — auto-resets never outnumber activations, activations never lead
/// by more than one, and the rule still holds its action exactly when one
/// activation is unmatched.  With every step being at most one of the two,
/// activations and auto-resets strictly alternate, activation first: no
/// double press, no missing release.
pub proof fn lemma_press_release_alternation(
    m: RuntimeModel,
    snaps: Seq<GamepadState>,
    rule: Mapping,
    deadzone: u16,
    dt_ms: u32,
)
    requires
        !m.active.contains(rule.spec_id()),
    ensures
        spec_count_resets(m, snaps, rule, deadzone, dt_ms) <= spec_count_activations(
            m,
            snaps,
            rule,
            deadzone,
            dt_ms,
        ) <= spec_count_resets(m, snaps, rule, deadzone, dt_ms) + 1,
        spec_count_activations(m, snaps, rule, deadzone, dt_ms) - spec_count_resets(
            m,
            snaps,
            rule,
            deadzone,
            dt_ms,
        ) == (if spec_run_states(m, snaps, rule, deadzone, dt_ms).active.contains(rule.spec_id()) {
            1int
        } else {
            0int
        }),
{
    lemma_activation_conservation(m, snaps, rule, deadzone, dt_ms);
}

/// For a button rule, the tracker's edge flag and held flag agree; the
/// transition preserves this, so it holds of every reachable state.
pub open spec fn spec_button_rule_consistent(m: RuntimeModel, rule: Mapping) -> bool {
    rule is ButtonPressed ==> m.pressed[rule.spec_id()] == m.active.contains(rule.spec_id())
}

/// Stepping a rule preserves [`spec_button_rule_consistent`] for it.
pub proof fn lemma_consistency_preserved(
    m: RuntimeModel,
    g: GamepadState,
    rule: Mapping,
    deadzone: u16,
    dt_ms: u32,
)
    requires
        spec_button_rule_consistent(m, rule),
        spec_is_once(rule.spec_action()),
    ensures
        spec_button_rule_consistent(spec_step_rule(m, g, rule, deadzone, dt_ms).0, rule),
{
}

/// What one rule step emits, for a one-shot rule whose action has an
/// inverse: an activation emits exactly the action's commands, an
/// auto-reset emits exactly one inverse, and a step that is neither emits
/// nothing.  A step is never both.
pub proof fn lemma_transition_commands(
    m: RuntimeModel,
    g: GamepadState,
    rule: Mapping,
    deadzone: u16,
    dt_ms: u32,
)
    requires
        spec_is_once(rule.spec_action()),
        spec_has_inverse(rule.spec_action()),
        spec_button_rule_consistent(m, rule),
    ensures
        !(spec_activates(m, g, rule, deadzone, dt_ms) && spec_auto_resets(
            m,
            g,
            rule,
            deadzone,
            dt_ms,
        )),
        spec_activates(m, g, rule, deadzone, dt_ms) ==> spec_step_rule(
            m,
            g,
            rule,
            deadzone,
            dt_ms,
        ).1 == spec_perform_action(
            RuntimeModel { mapping_active: true, ..m },
            rule.spec_action(),
        ).1,
        spec_auto_resets(m, g, rule, deadzone, dt_ms) ==> spec_step_rule(
            m,
            g,
            rule,
            deadzone,
            dt_ms,
        ).1 == spec_auto_reset_cmds(rule.spec_action()),
        !spec_activates(m, g, rule, deadzone, dt_ms) && !spec_auto_resets(m, g, rule, deadzone, dt_ms)
            ==> spec_step_rule(m, g, rule, deadzone, dt_ms).1 == Seq::<SinkCommand>::empty(),
{
}

/// On a tick where a stick rule reads both normalized magnitudes strictly
/// inside the deadzone, every scroll and movement accumulator is forced to
/// exactly zero, whatever it held before.
pub proof fn lemma_deadzone_zeroes_accumulators(
    m: RuntimeModel,
    g: GamepadState,
    sm: AxisStickMapping,
    deadzone: u16,
    dt_ms: u32,
)
    requires
        spec_under_deadzone(
            spec_norm_milli(g.spec_axis(spec_stick_axes(sm.stick).0)),
            spec_norm_milli(g.spec_axis(spec_stick_axes(sm.stick).1)),
            deadzone,
        ),
    ensures
        spec_stick_step(m, g, sm, deadzone, dt_ms).0.scroll_acc_x == 0,
        spec_stick_step(m, g, sm, deadzone, dt_ms).0.scroll_acc_y == 0,
        spec_stick_step(m, g, sm, deadzone, dt_ms).0.move_acc_x == 0,
        spec_stick_step(m, g, sm, deadzone, dt_ms).0.move_acc_y == 0,
{
}

/// Stepping a one-shot rule twice on one unchanged snapshot adds nothing:
/// the second step emits no commands and leaves the state as the first step
/// left it.  Continuous actions are the stated exception: they repeat by
/// design.
pub proof fn lemma_step_rule_idempotent(
    m: RuntimeModel,
    g: GamepadState,
    rule: Mapping,
    deadzone: u16,
    dt_ms: u32,
)
    requires
        spec_is_once(rule.spec_action()),
        !m.continuous.contains(rule.spec_id()),
    ensures
        ({
            let first = spec_step_rule(m, g, rule, deadzone, dt_ms);
            let second = spec_step_rule(first.0, g, rule, deadzone, dt_ms);
            &&& second.0 =~= first.0
            &&& second.1 == Seq::<SinkCommand>::empty()
        }),
{
    let first = spec_step_rule(m, g, rule, deadzone, dt_ms);
    let second = spec_step_rule(first.0, g, rule, deadzone, dt_ms);
    assert(second.0 =~= first.0 && second.1 == Seq::<SinkCommand>::empty());
}

/// Per-rule tracking is isolated: stepping one rule never changes whether a
/// rule with a different identifier holds its action, is noted as
/// continuous, or has its edge flag set.  Activations and auto-resets of
/// one rule therefore alternate exactly as
/// [`lemma_press_release_alternation`] states even when whole rule lists
/// run between its steps, as long as identifiers are unique.
pub proof fn lemma_step_frames_other_ids(
    m: RuntimeModel,
    g: GamepadState,
    stepped: Mapping,
    id: Seq<char>,
    deadzone: u16,
    dt_ms: u32,
)
    requires
        stepped.spec_id() != id,
    ensures
        spec_step_rule(m, g, stepped, deadzone, dt_ms).0.active.contains(id) == m.active.contains(
            id,
        ),
        spec_step_rule(m, g, stepped, deadzone, dt_ms).0.continuous.contains(id)
            == m.continuous.contains(id),
        m.pressed.dom().contains(id) ==> spec_step_rule(
            m,
            g,
            stepped,
            deadzone,
            dt_ms,
        ).0.pressed[id] == m.pressed[id],
{
}

/// A rule's step is a no-op from this state: mapping is globally disabled, or the
/// rule's bookkeeping already reflects the snapshot — a satisfied button
/// rule has its edge consumed, a satisfied trigger already holds its
/// action, an unsatisfied rule holds nothing, and a resting stick has
/// nothing left to drain.
pub open spec fn spec_rule_settled(
    m: RuntimeModel,
    g: GamepadState,
    rule: Mapping,
    deadzone: u16,
) -> bool {
    !m.mapping_active || (match rule {
        Mapping::ButtonPressed(bm) => {
            if g.spec_button(bm.button) && spec_eval_conditions(g, bm.conditions@) {
                m.pressed[bm.id@]
            } else {
                !m.active.contains(bm.id@) && m.pressed.dom().contains(bm.id@)
                    && !m.pressed[bm.id@]
            }
        },
        Mapping::AxisTrigger(am) => {
            (spec_threshold_met(g.spec_axis(am.axis), am.threshold) && spec_eval_conditions(
                g,
                am.conditions@,
            )) == m.active.contains(am.id@)
        },
        Mapping::AxisStick(sm) => {
            spec_under_deadzone(
                spec_norm_milli(g.spec_axis(spec_stick_axes(sm.stick).0)),
                spec_norm_milli(g.spec_axis(spec_stick_axes(sm.stick).1)),
                deadzone,
            ) ==> m.scroll_acc_x == 0 && m.scroll_acc_y == 0 && m.move_acc_x == 0 && m.move_acc_y
                == 0
        },
    })
}

/// From a settled state, a one-shot, non-toggle rule's step changes nothing
/// and emits nothing.
pub proof fn lemma_settled_step_is_noop(
    m: RuntimeModel,
    g: GamepadState,
    rule: Mapping,
    deadzone: u16,
    dt_ms: u32,
)
    requires
        spec_is_once(rule.spec_action()),
        !(rule.spec_action() is ToogleMappingActive),
        !m.continuous.contains(rule.spec_id()),
        spec_rule_settled(m, g, rule, deadzone),
    ensures
        spec_step_rule(m, g, rule, deadzone, dt_ms).0 == m,
        spec_step_rule(m, g, rule, deadzone, dt_ms).1 == Seq::<SinkCommand>::empty(),
{
    let s = spec_step_rule(m, g, rule, deadzone, dt_ms);
    assert(s.0.active =~= m.active);
    assert(s.0.continuous =~= m.continuous);
    assert(s.0.pressed =~= m.pressed);
    assert(s.0 =~= m);
}

/// One step of a one-shot, non-toggle rule leaves the rule settled for the
/// snapshot it just saw.
pub proof fn lemma_step_settles(
    m: RuntimeModel,
    g: GamepadState,
    rule: Mapping,
    deadzone: u16,
    dt_ms: u32,
)
    requires
        spec_is_once(rule.spec_action()),
        !(rule.spec_action() is ToogleMappingActive),
    ensures
        spec_rule_settled(spec_step_rule(m, g, rule, deadzone, dt_ms).0, g, rule, deadzone),
{
}

/// Stepping one rule neither unsettles another rule with a different
/// identifier nor notes it as continuous.
pub proof fn lemma_step_preserves_other(
    m: RuntimeModel,
    g: GamepadState,
    stepped: Mapping,
    other: Mapping,
    deadzone: u16,
    dt_ms: u32,
)
    requires
        spec_is_once(stepped.spec_action()),
        !(stepped.spec_action() is ToogleMappingActive),
        stepped.spec_id() != other.spec_id(),
        spec_rule_settled(m, g, other, deadzone),
        !m.continuous.contains(other.spec_id()),
    ensures
        spec_rule_settled(spec_step_rule(m, g, stepped, deadzone, dt_ms).0, g, other, deadzone),
        !spec_step_rule(m, g, stepped, deadzone, dt_ms).0.continuous.contains(other.spec_id()),
{
}

/// Stepping a one-shot rule never notes any other identifier as
/// continuous.
proof fn lemma_step_keeps_uncontinuous(
    m: RuntimeModel,
    g: GamepadState,
    stepped: Mapping,
    id: Seq<char>,
    deadzone: u16,
    dt_ms: u32,
)
    requires
        spec_is_once(stepped.spec_action()),
        !m.continuous.contains(id),
    ensures
        !spec_step_rule(m, g, stepped, deadzone, dt_ms).0.continuous.contains(id),
{
}

/// Running a list of one-shot, non-toggle rules with other identifiers
/// keeps a settled rule settled.
proof fn lemma_run_preserves_settled(
    m: RuntimeModel,
    g: GamepadState,
    rules: Seq<Mapping>,
    other: Mapping,
    deadzone: u16,
    dt_ms: u32,
)
    requires
        forall|i: int| 0 <= i < rules.len() ==> spec_is_once(#[trigger] rules[i].spec_action()),
        forall|i: int|
            0 <= i < rules.len() ==> !(#[trigger] rules[i].spec_action() is ToogleMappingActive),
        forall|i: int| 0 <= i < rules.len() ==> #[trigger] rules[i].spec_id() != other.spec_id(),
        spec_rule_settled(m, g, other, deadzone),
        !m.continuous.contains(other.spec_id()),
    ensures
        spec_rule_settled(spec_run_rules(m, g, rules, deadzone, dt_ms).0, g, other, deadzone),
        !spec_run_rules(m, g, rules, deadzone, dt_ms).0.continuous.contains(other.spec_id()),
    decreases rules.len(),
{
    if rules.len() > 0 {
        lemma_step_preserves_other(m, g, rules[0], other, deadzone, dt_ms);
        lemma_run_preserves_settled(
            spec_step_rule(m, g, rules[0], deadzone, dt_ms).0,
            g,
            rules.drop_first(),
            other,
            deadzone,
            dt_ms,
        );
    }
}

/// After one whole tick over one-shot, non-toggle rules with pairwise
/// distinct identifiers, every rule is settled and none is noted as
/// continuous.
proof fn lemma_run_settles_all(
    m: RuntimeModel,
    g: GamepadState,
    rules: Seq<Mapping>,
    deadzone: u16,
    dt_ms: u32,
)
    requires
        forall|i: int| 0 <= i < rules.len() ==> spec_is_once(#[trigger] rules[i].spec_action()),
        forall|i: int|
            0 <= i < rules.len() ==> !(#[trigger] rules[i].spec_action() is ToogleMappingActive),
        forall|i: int, j: int|
            0 <= i < j < rules.len() ==> rules[i].spec_id() != rules[j].spec_id(),
        forall|i: int| 0 <= i < rules.len() ==> !m.continuous.contains(#[trigger] rules[i].spec_id()),
    ensures
        forall|i: int|
            0 <= i < rules.len() ==> spec_rule_settled(
                spec_run_rules(m, g, rules, deadzone, dt_ms).0,
                g,
                rules[i],
                deadzone,
            ),
        forall|i: int|
            0 <= i < rules.len() ==> !spec_run_rules(m, g, rules, deadzone, dt_ms).0.continuous.contains(
                #[trigger] rules[i].spec_id(),
            ),
    decreases rules.len(),
{
    if rules.len() > 0 {
        let m1 = spec_step_rule(m, g, rules[0], deadzone, dt_ms).0;
        let rest = rules.drop_first();
        assert(forall|i: int| 0 <= i < rest.len() ==> rest[i] == rules[i + 1]);
        lemma_step_settles(m, g, rules[0], deadzone, dt_ms);
        assert forall|i: int|
            0 <= i < rest.len() implies !m1.continuous.contains(#[trigger] rest[i].spec_id()) by {
            lemma_step_keeps_uncontinuous(m, g, rules[0], rest[i].spec_id(), deadzone, dt_ms);
        }
        lemma_step_keeps_uncontinuous(m, g, rules[0], rules[0].spec_id(), deadzone, dt_ms);
        lemma_run_settles_all(m1, g, rest, deadzone, dt_ms);
        assert(!m1.continuous.contains(rules[0].spec_id()));
        lemma_run_preserves_settled(m1, g, rest, rules[0], deadzone, dt_ms);
        assert forall|i: int|
            0 <= i < rules.len() implies spec_rule_settled(
            spec_run_rules(m, g, rules, deadzone, dt_ms).0,
            g,
            rules[i],
            deadzone,
        ) by {
            if i > 0 {
                assert(rest[i - 1] == rules[i]);
            }
        }
        assert forall|i: int|
            0 <= i < rules.len() implies !spec_run_rules(
            m,
            g,
            rules,
            deadzone,
            dt_ms,
        ).0.continuous.contains(#[trigger] rules[i].spec_id()) by {
            if i > 0 {
                assert(rest[i - 1] == rules[i]);
            }
        }
    }
}

/// A whole tick over settled one-shot, non-toggle rules changes nothing and
/// emits nothing.
proof fn lemma_settled_run_is_noop(
    m: RuntimeModel,
    g: GamepadState,
    rules: Seq<Mapping>,
    deadzone: u16,
    dt_ms: u32,
)
    requires
        forall|i: int| 0 <= i < rules.len() ==> spec_is_once(#[trigger] rules[i].spec_action()),
        forall|i: int|
            0 <= i < rules.len() ==> !(#[trigger] rules[i].spec_action() is ToogleMappingActive),
        forall|i: int| 0 <= i < rules.len() ==> !m.continuous.contains(#[trigger] rules[i].spec_id()),
        forall|i: int|
            0 <= i < rules.len() ==> spec_rule_settled(m, g, #[trigger] rules[i], deadzone),
    ensures
        spec_run_rules(m, g, rules, deadzone, dt_ms).0 == m,
        spec_run_rules(m, g, rules, deadzone, dt_ms).1 == Seq::<SinkCommand>::empty(),
    decreases rules.len(),
{
    if rules.len() > 0 {
        lemma_settled_step_is_noop(m, g, rules[0], deadzone, dt_ms);
        let rest = rules.drop_first();
        assert(forall|i: int| 0 <= i < rest.len() ==> rest[i] == rules[i + 1]);
        lemma_settled_run_is_noop(m, g, rest, deadzone, dt_ms);
        assert(spec_run_rules(m, g, rules, deadzone, dt_ms).1 =~= Seq::<SinkCommand>::empty());
    }
}

/// Running a whole tick twice on one unchanged snapshot and unchanged rule
/// set adds nothing: the second tick emits no commands and leaves the state
/// exactly where the first tick left it.  This is stated for rule sets of
/// one-shot actions none of which toggles the global enable flag: continuous
/// actions repeat by design, and a toggle rule that flips the enable flag mid-tick
/// deliberately lets a previously gated rule fire on the next tick.
pub proof fn lemma_tick_idempotent(
    m: RuntimeModel,
    g: GamepadState,
    rules: Seq<Mapping>,
    deadzone: u16,
    dt_ms: u32,
)
    requires
        forall|i: int| 0 <= i < rules.len() ==> spec_is_once(#[trigger] rules[i].spec_action()),
        forall|i: int|
            0 <= i < rules.len() ==> !(#[trigger] rules[i].spec_action() is ToogleMappingActive),
        forall|i: int, j: int|
            0 <= i < j < rules.len() ==> rules[i].spec_id() != rules[j].spec_id(),
        forall|i: int| 0 <= i < rules.len() ==> !m.continuous.contains(#[trigger] rules[i].spec_id()),
    ensures
        ({
            let first = spec_run_rules(m, g, rules, deadzone, dt_ms);
            &&& spec_run_rules(first.0, g, rules, deadzone, dt_ms).0 == first.0
            &&& spec_run_rules(first.0, g, rules, deadzone, dt_ms).1 == Seq::<SinkCommand>::empty()
        }),
{
    lemma_run_settles_all(m, g, rules, deadzone, dt_ms);
    lemma_settled_run_is_noop(
        spec_run_rules(m, g, rules, deadzone, dt_ms).0,
        g,
        rules,
        deadzone,
        dt_ms,
    );
}

} // verus!
