//! Level-sensitive one-bit memory elements, wired from gates.
//!
//! A latch stores one bit, its output Q. The complemented output Qn is taken
//! from Q through an inverter, so the two can never agree.

use vstd::prelude::*;
use crate::gate::{and, not, or, lemma_and2, lemma_or2};

verus! {

/// The bit a D latch stores after its inputs are applied: `data` while the
/// latch is enabled, the bit it already held otherwise.
pub open spec fn d_latch_step(q: bool, enable: bool, data: bool) -> bool {
    if enable {
        data
    } else {
        q
    }
}

/// The bit a gated SR latch stores after its inputs are applied.
///
/// Disabled, the latch holds. Enabled, `s` alone sets it, `r` alone resets it
/// and neither holds it. Driving `s` and `r` high together is a misuse of the
/// latch: its gates then let `r` win, which keeps Q and Qn complementary, but
/// no circuit should lean on that.
pub open spec fn sr_latch_step(q: bool, s: bool, enable: bool, r: bool) -> bool {
    if !enable {
        q
    } else if r {
        false
    } else if s {
        true
    } else {
        q
    }
}

/// Transparent D latch.
#[derive(Clone, Copy, Debug)]
pub struct DLatch {
    q: bool,
}

impl View for DLatch {
    type V = bool;

    /// The stored bit, which is the output Q.
    closed spec fn view(&self) -> bool {
        self.q
    }
}

impl DLatch {
    /// A latch in the reset state: Q low, Qn high.
    pub fn new() -> (latch: Self)
        ensures
            latch@ == false,
    {
        DLatch { q: false }
    }

    /// Applies the enable and data inputs: Q follows `data` while `enable` is
    /// high and keeps its value while `enable` is low.
    pub fn set(&mut self, enable: bool, data: bool)
        ensures
            final(self)@ == d_latch_step(old(self)@, enable, data),
    {
        let pass = and(&[enable, data]);
        let hold = and(&[not(&enable), self.q]);
        proof {
            lemma_and2(enable, data);
            lemma_and2(!enable, self.q);
            lemma_or2(pass, hold);
        }
        self.q = or(&[pass, hold]);
    }

    /// Forces Q low, whatever the inputs last were.
    pub fn clear(&mut self)
        ensures
            final(self)@ == false,
    {
        self.q = false;
    }

    /// The output Q.
    pub fn q(&self) -> (out: bool)
        ensures
            out == self@,
    {
        self.q
    }

    /// The complemented output Qn.
    pub fn qn(&self) -> (out: bool)
        ensures
            out == !self@,
    {
        not(&self.q)
    }
}

impl Default for DLatch {
    fn default() -> (latch: Self)
        ensures
            latch@ == false,
    {
        Self::new()
    }
}

/// Set/reset latch whose inputs pass through an enable gate.
#[derive(Clone, Copy, Debug)]
pub struct GatedSRLatch {
    q: bool,
}

impl View for GatedSRLatch {
    type V = bool;

    /// The stored bit, which is the output Q.
    closed spec fn view(&self) -> bool {
        self.q
    }
}

impl GatedSRLatch {
    /// A latch in the reset state: Q low, Qn high.
    pub fn new() -> (latch: Self)
        ensures
            latch@ == false,
    {
        GatedSRLatch { q: false }
    }

    /// Applies the set, enable and reset inputs.
    pub fn set(&mut self, s: bool, enable: bool, r: bool)
        ensures
            final(self)@ == sr_latch_step(old(self)@, s, enable, r),
    {
        let set = and(&[s, enable]);
        let reset = and(&[r, enable]);
        let raised = or(&[set, self.q]);
        proof {
            lemma_and2(s, enable);
            lemma_and2(r, enable);
            lemma_or2(set, self.q);
            lemma_and2(!reset, raised);
        }
        self.q = and(&[not(&reset), raised]);
    }

    /// Forces Q low, whatever the inputs last were.
    pub fn clear(&mut self)
        ensures
            final(self)@ == false,
    {
        self.q = false;
    }

    /// The output Q.
    pub fn q(&self) -> (out: bool)
        ensures
            out == self@,
    {
        self.q
    }

    /// The complemented output Qn.
    pub fn qn(&self) -> (out: bool)
        ensures
            out == !self@,
    {
        not(&self.q)
    }
}

impl Default for GatedSRLatch {
    fn default() -> (latch: Self)
        ensures
            latch@ == false,
    {
        Self::new()
    }
}

} // verus!
