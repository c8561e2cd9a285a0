//! Stateless boolean gates over a fixed number of inputs.

use vstd::prelude::*;

verus! {

/// True when every signal of `inputs` is high; true for no inputs at all.
pub open spec fn all_high(inputs: Seq<bool>) -> bool {
    forall|i: int| 0 <= i < inputs.len() ==> inputs[i]
}

/// True when at least one signal of `inputs` is high.
pub open spec fn any_high(inputs: Seq<bool>) -> bool {
    exists|i: int| 0 <= i < inputs.len() && inputs[i]
}

/// Inverter.
pub fn not(input: &bool) -> (out: bool)
    ensures
        out == !*input,
{
    !*input
}

/// AND gate with `N` inputs: high exactly when all inputs are high.
pub fn and<const N: usize>(inputs: &[bool; N]) -> (out: bool)
    ensures
        out == all_high(inputs@),
{
    let mut i: usize = 0;
    while i < N
        invariant
            i <= N,
            forall|k: int| 0 <= k < i ==> inputs@[k],
        decreases N - i,
    {
        if !inputs[i] {
            return false;
        }
        i += 1;
    }
    true
}

/// OR gate with `N` inputs: high exactly when some input is high.
pub fn or<const N: usize>(inputs: &[bool; N]) -> (out: bool)
    ensures
        out == any_high(inputs@),
{
    let mut i: usize = 0;
    while i < N
        invariant
            i <= N,
            forall|k: int| 0 <= k < i ==> !inputs@[k],
        decreases N - i,
    {
        if inputs[i] {
            return true;
        }
        i += 1;
    }
    false
}

/// A two-input AND gate is the conjunction of its inputs.
pub proof fn lemma_and2(a: bool, b: bool)
    ensures
        all_high(seq![a, b]) == (a && b),
{
    let s = seq![a, b];
    if a && b {
        assert forall|i: int| 0 <= i < s.len() implies s[i] by {}
    } else if !a {
        assert(!s[0]);
    } else {
        assert(!s[1]);
    }
}

/// A two-input OR gate is the disjunction of its inputs.
pub proof fn lemma_or2(a: bool, b: bool)
    ensures
        any_high(seq![a, b]) == (a || b),
{
    let s = seq![a, b];
    if a {
        assert(0 <= 0 < s.len() && s[0]);
    } else if b {
        assert(0 <= 1 < s.len() && s[1]);
    }
}

} // verus!
