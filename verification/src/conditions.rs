//! The condition evaluator: a pure function from a snapshot and a condition
//! list to an outcome.
//!
//! An empty list is unconditionally true.  Otherwise the `Or`-tagged leaves
//! are disjoined, the `And`-tagged leaves conjoined (an empty `And` group
//! counts as false, as does an empty `Or` group), and the rule passes when
//! either group does.

use vstd::prelude::*;

use crate::gamepad::GamepadState;
use crate::mapping::{Condition, ConditionType};

verus! {

/// The outcome of one leaf condition on one snapshot.
pub open spec fn spec_eval_condition(g: GamepadState, c: Condition) -> bool {
    match c {
        Condition::ButtonPressed { button } => g.spec_button(button),
        Condition::ButtonNotPressed { button } => !g.spec_button(button),
    }
}

/// Whether some `Or`-tagged leaf of the list holds.
pub open spec fn spec_or_group(g: GamepadState, cs: Seq<ConditionType>) -> bool {
    exists|i: int|
        0 <= i < cs.len() && cs[i] is Or && spec_eval_condition(g, cs[i]->Or_0)
}

/// Whether the list has an `And`-tagged entry and every such leaf holds.
pub open spec fn spec_and_group(g: GamepadState, cs: Seq<ConditionType>) -> bool {
    &&& exists|i: int| 0 <= i < cs.len() && cs[i] is And
    &&& forall|i: int|
        0 <= i < cs.len() && cs[i] is And ==> spec_eval_condition(g, cs[i]->And_0)
}

/// The outcome of a whole condition list: empty lists pass, otherwise the
/// `Or` group's disjunction or the `And` group's conjunction must hold.
pub open spec fn spec_eval_conditions(g: GamepadState, cs: Seq<ConditionType>) -> bool {
    if cs.len() == 0 {
        true
    } else {
        spec_or_group(g, cs) || spec_and_group(g, cs)
    }
}

/// Evaluates one leaf condition against a snapshot.
pub fn evaluate_condition(gamepad: &GamepadState, condition: &Condition) -> (r: bool)
    requires
        gamepad.wf(),
    ensures
        r == spec_eval_condition(*gamepad, *condition),
{
    match condition {
        Condition::ButtonPressed { button } => gamepad.is_button_pressed(button),
        Condition::ButtonNotPressed { button } => !gamepad.is_button_pressed(button),
    }
}

/// Evaluates a whole condition list against a snapshot.  Pure and total:
/// the outcome is exactly [`spec_eval_conditions`].
pub fn evaluate_conditions(gamepad: &GamepadState, conditions: &Vec<ConditionType>) -> (r: bool)
    requires
        gamepad.wf(),
    ensures
        r == spec_eval_conditions(*gamepad, conditions@),
{
    if conditions.len() == 0 {
        return true;
    }
    let mut any_or = false;
    let mut has_and = false;
    let mut all_and = true;
    let mut i: usize = 0;
    while i < conditions.len()
        invariant
            gamepad.wf(),
            i <= conditions@.len(),
            any_or == exists|k: int|
                0 <= k < i && conditions@[k] is Or
                    && spec_eval_condition(*gamepad, conditions@[k]->Or_0),
            has_and == exists|k: int| 0 <= k < i && conditions@[k] is And,
            all_and == forall|k: int|
                0 <= k < i && conditions@[k] is And
                    ==> spec_eval_condition(*gamepad, conditions@[k]->And_0),
        decreases conditions@.len() - i,
    {
        match &conditions[i] {
            ConditionType::Or(c) => {
                if evaluate_condition(gamepad, c) {
                    any_or = true;
                }
            },
            ConditionType::And(c) => {
                has_and = true;
                if !evaluate_condition(gamepad, c) {
                    all_and = false;
                }
            },
        }
        i = i + 1;
    }
    any_or || (has_and && all_and)
}

/// A `ButtonPressed` condition holds exactly when the snapshot's button is
/// pressed, and `ButtonNotPressed` is its exact complement.
pub proof fn lemma_button_condition_complement(g: GamepadState, b: crate::gamepad::GamepadButton)
    ensures
        spec_eval_condition(g, Condition::ButtonPressed { button: b }) == g.spec_button(b),
        spec_eval_condition(g, Condition::ButtonNotPressed { button: b }) == !g.spec_button(b),
        spec_eval_condition(g, Condition::ButtonNotPressed { button: b }) == !spec_eval_condition(
            g,
            Condition::ButtonPressed { button: b },
        ),
{
}

/// On a non-empty list of only `Or`-tagged entries, the outcome is the
/// logical disjunction over the leaves.
pub proof fn lemma_or_only_is_disjunction(g: GamepadState, cs: Seq<ConditionType>)
    requires
        cs.len() > 0,
        forall|i: int| 0 <= i < cs.len() ==> cs[i] is Or,
    ensures
        spec_eval_conditions(g, cs) == exists|i: int|
            0 <= i < cs.len() && spec_eval_condition(g, cs[i]->Or_0),
{
    assert(!spec_and_group(g, cs));
    if spec_or_group(g, cs) {
        let i = choose|i: int|
            0 <= i < cs.len() && cs[i] is Or && spec_eval_condition(g, cs[i]->Or_0);
        assert(0 <= i < cs.len() && spec_eval_condition(g, cs[i]->Or_0));
    }
    if exists|i: int| 0 <= i < cs.len() && spec_eval_condition(g, cs[i]->Or_0) {
        let i = choose|i: int| 0 <= i < cs.len() && spec_eval_condition(g, cs[i]->Or_0);
        assert(cs[i] is Or && spec_eval_condition(g, cs[i]->Or_0));
    }
}

/// On a non-empty list of only `And`-tagged entries, the outcome is the
/// logical conjunction over the leaves.
pub proof fn lemma_and_only_is_conjunction(g: GamepadState, cs: Seq<ConditionType>)
    requires
        cs.len() > 0,
        forall|i: int| 0 <= i < cs.len() ==> cs[i] is And,
    ensures
        spec_eval_conditions(g, cs) == forall|i: int|
            0 <= i < cs.len() ==> spec_eval_condition(g, cs[i]->And_0),
{
    assert(!spec_or_group(g, cs));
    assert(cs[0] is And);
}

/// On any non-empty list, the outcome is the `Or` group's disjunction,
/// disjoined with the `And` group's conjunction.
pub proof fn lemma_mixed_composition(g: GamepadState, cs: Seq<ConditionType>)
    requires
        cs.len() > 0,
    ensures
        spec_eval_conditions(g, cs) == (spec_or_group(g, cs) || spec_and_group(g, cs)),
{
}

} // verus!
