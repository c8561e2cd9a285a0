//! Rising-edge flip-flops, each a master latch feeding a slave latch.
//!
//! The master is enabled while the clock is low and the slave while it is
//! high, so the two are never transparent together: the master samples the
//! inputs during the low phase and the slave publishes the sample when the
//! clock rises.

use vstd::prelude::*;
use crate::gate::{and, not, lemma_and2};
use crate::latch::{d_latch_step, sr_latch_step, DLatch, GatedSRLatch};

verus! {

/// What a master/slave flip-flop remembers: the bit held by each latch.
/// The slave's bit is the flip-flop's output Q.
pub struct EdgeState {
    pub master: bool,
    pub slave: bool,
}

impl EdgeState {
    /// The state every flip-flop is created in and cleared to.
    pub open spec fn reset() -> EdgeState {
        EdgeState { master: false, slave: false }
    }

    /// The master holds nothing that the output does not already show. This
    /// is so after a reset and after every update with the clock high.
    pub open spec fn settled(self) -> bool {
        self.master == self.slave
    }
}

/// One update of a D flip-flop with clock level `clk` and data `d`.
pub open spec fn d_flipflop_step(v: EdgeState, clk: bool, d: bool) -> EdgeState {
    let master = d_latch_step(v.master, !clk, d);
    EdgeState { master, slave: d_latch_step(v.slave, clk, master) }
}

/// One update of an SR flip-flop with clock level `clk` and inputs `s`, `r`.
/// The slave is set from the master's Q and reset from the master's Qn.
pub open spec fn sr_flipflop_step(v: EdgeState, clk: bool, s: bool, r: bool) -> EdgeState {
    let master = sr_latch_step(v.master, s, !clk, r);
    EdgeState { master, slave: sr_latch_step(v.slave, master, clk, !master) }
}

/// One update of a JK flip-flop: an SR update whose set input is `j` gated by
/// the current Qn and whose reset input is `k` gated by the current Q.
pub open spec fn jk_flipflop_step(v: EdgeState, clk: bool, j: bool, k: bool) -> EdgeState {
    sr_flipflop_step(v, clk, j && !v.slave, k && v.slave)
}

/// One full clock pulse of a JK flip-flop with `j` and `k` held: an update
/// with the clock low, then one with the clock high.
pub open spec fn jk_pulse(v: EdgeState, j: bool, k: bool) -> EdgeState {
    jk_flipflop_step(jk_flipflop_step(v, false, j, k), true, j, k)
}

/// `n` clock pulses of a JK flip-flop in a row with `j` and `k` held.
pub open spec fn jk_pulses(v: EdgeState, j: bool, k: bool, n: nat) -> EdgeState
    decreases n,
{
    if n == 0 {
        v
    } else {
        jk_pulse(jk_pulses(v, j, k, (n - 1) as nat), j, k)
    }
}

/// Rising-edge-triggered D flip-flop.
#[derive(Clone, Copy, Debug)]
pub struct DFlipflop {
    master: DLatch,
    slave: DLatch,
}

impl View for DFlipflop {
    type V = EdgeState;

    closed spec fn view(&self) -> EdgeState {
        EdgeState { master: self.master@, slave: self.slave@ }
    }
}

impl DFlipflop {
    /// A flip-flop in the reset state, settled with the clock low.
    pub fn new() -> (flipflop: Self)
        ensures
            flipflop@ == EdgeState::reset(),
    {
        let mut flipflop = DFlipflop { master: DLatch::new(), slave: DLatch::new() };
        flipflop.update(false, false);
        flipflop
    }

    /// Applies the clock level `clk` and the data input `d`.
    ///
    /// While the clock is low the master tracks `d`; the output takes the
    /// master's sample once the clock is high.
    pub fn update(&mut self, clk: bool, d: bool)
        ensures
            final(self)@ == d_flipflop_step(old(self)@, clk, d),
    {
        self.master.set(not(&clk), d);
        let sample = self.master.q();
        self.slave.set(clk, sample);
    }

    /// Forces both latches low, then settles with the clock low.
    pub fn clear(&mut self)
        ensures
            final(self)@ == EdgeState::reset(),
    {
        self.master.clear();
        self.slave.clear();
        self.update(false, false);
    }

    /// The output Q.
    pub fn q(&self) -> (out: bool)
        ensures
            out == self@.slave,
    {
        self.slave.q()
    }

    /// The complemented output Qn.
    pub fn qn(&self) -> (out: bool)
        ensures
            out == !self@.slave,
    {
        self.slave.qn()
    }
}

impl Default for DFlipflop {
    fn default() -> (flipflop: Self)
        ensures
            flipflop@ == EdgeState::reset(),
    {
        Self::new()
    }
}

/// Rising-edge-triggered SR flip-flop.
#[derive(Clone, Copy, Debug)]
pub struct SRFlipflop {
    master: GatedSRLatch,
    slave: GatedSRLatch,
}

impl View for SRFlipflop {
    type V = EdgeState;

    closed spec fn view(&self) -> EdgeState {
        EdgeState { master: self.master@, slave: self.slave@ }
    }
}

impl SRFlipflop {
    /// A flip-flop in the reset state, settled with the clock low.
    pub fn new() -> (flipflop: Self)
        ensures
            flipflop@ == EdgeState::reset(),
    {
        let mut flipflop = SRFlipflop { master: GatedSRLatch::new(), slave: GatedSRLatch::new() };
        flipflop.update(false, false, false);
        flipflop
    }

    /// Applies the clock level `clk` and the set and reset inputs.
    ///
    /// Driving `s` and `r` high together while the clock is low is outside
    /// the intended use; see [`sr_latch_step`] for what the master then does.
    pub fn update(&mut self, clk: bool, s: bool, r: bool)
        ensures
            final(self)@ == sr_flipflop_step(old(self)@, clk, s, r),
    {
        self.master.set(s, not(&clk), r);
        let set = self.master.q();
        let reset = self.master.qn();
        self.slave.set(set, clk, reset);
    }

    /// Forces both latches low, then settles with the clock low.
    pub fn clear(&mut self)
        ensures
            final(self)@ == EdgeState::reset(),
    {
        self.master.clear();
        self.slave.clear();
        self.update(false, false, false);
    }

    /// The output Q.
    pub fn q(&self) -> (out: bool)
        ensures
            out == self@.slave,
    {
        self.slave.q()
    }

    /// The complemented output Qn.
    pub fn qn(&self) -> (out: bool)
        ensures
            out == !self@.slave,
    {
        self.slave.qn()
    }
}

impl Default for SRFlipflop {
    fn default() -> (flipflop: Self)
        ensures
            flipflop@ == EdgeState::reset(),
    {
        Self::new()
    }
}

/// Rising-edge-triggered JK flip-flop: an SR flip-flop whose own outputs gate
/// its inputs, so that set and reset are never requested together.
#[derive(Clone, Copy, Debug)]
pub struct JKFlipflop {
    sr_flipflop: SRFlipflop,
}

impl View for JKFlipflop {
    type V = EdgeState;

    closed spec fn view(&self) -> EdgeState {
        self.sr_flipflop@
    }
}

impl JKFlipflop {
    /// A flip-flop in the reset state, settled with the clock low.
    pub fn new() -> (flipflop: Self)
        ensures
            flipflop@ == EdgeState::reset(),
    {
        JKFlipflop { sr_flipflop: SRFlipflop::new() }
    }

    /// Applies the clock level `clk` and the inputs `j` and `k`.
    pub fn update(&mut self, clk: bool, j: bool, k: bool)
        ensures
            final(self)@ == jk_flipflop_step(old(self)@, clk, j, k),
    {
        let qn = self.sr_flipflop.qn();
        let q = self.sr_flipflop.q();
        let s = and(&[j, qn]);
        let r = and(&[k, q]);
        proof {
            lemma_and2(j, qn);
            lemma_and2(k, q);
        }
        self.sr_flipflop.update(clk, s, r);
    }

    /// Returns the flip-flop to the reset state.
    pub fn clear(&mut self)
        ensures
            final(self)@ == EdgeState::reset(),
    {
        self.sr_flipflop.clear();
    }

    /// The output Q.
    pub fn q(&self) -> (out: bool)
        ensures
            out == self@.slave,
    {
        self.sr_flipflop.q()
    }

    /// The complemented output Qn.
    pub fn qn(&self) -> (out: bool)
        ensures
            out == !self@.slave,
    {
        self.sr_flipflop.qn()
    }
}

impl Default for JKFlipflop {
    fn default() -> (flipflop: Self)
        ensures
            flipflop@ == EdgeState::reset(),
    {
        Self::new()
    }
}

/// Across two updates in a row, the output of a D flip-flop moves in the
/// second only if the clock was low in the first and is high in the second,
/// and on every such rising edge the output becomes the data that the first
/// update supplied. This holds from any state.
pub proof fn lemma_d_edge_triggered(v: EdgeState, clk1: bool, d1: bool, clk2: bool, d2: bool)
    ensures
        ({
            let before = d_flipflop_step(v, clk1, d1);
            let after = d_flipflop_step(before, clk2, d2);
            &&& after.slave != before.slave ==> !clk1 && clk2
            &&& !clk1 && clk2 ==> after.slave == d1
        }),
{
}

/// An update with the clock low never moves the output of a D flip-flop, and
/// neither does the first update after a reset, whatever its inputs.
pub proof fn lemma_d_holds_without_edge(v: EdgeState, clk: bool, d: bool)
    ensures
        !clk ==> d_flipflop_step(v, clk, d).slave == v.slave,
        d_flipflop_step(EdgeState::reset(), clk, d).slave == false,
        clk ==> d_flipflop_step(v, clk, d).settled(),
{
}

/// Across two updates in a row, the output of an SR flip-flop moves in the
/// second only on a rising edge of the clock. On a rising edge the output is
/// high if the first update asked for a set alone, low if it asked for a
/// reset alone, and what the master already held if it asked for neither.
pub proof fn lemma_sr_edge_triggered(
    v: EdgeState,
    clk1: bool,
    s1: bool,
    r1: bool,
    clk2: bool,
    s2: bool,
    r2: bool,
)
    ensures
        ({
            let before = sr_flipflop_step(v, clk1, s1, r1);
            let after = sr_flipflop_step(before, clk2, s2, r2);
            &&& after.slave != before.slave ==> !clk1 && clk2
            &&& !clk1 && clk2 && s1 && !r1 ==> after.slave
            &&& !clk1 && clk2 && r1 && !s1 ==> !after.slave
            &&& !clk1 && clk2 && !s1 && !r1 ==> after.slave == v.master
        }),
{
}

/// The gated inputs that a JK flip-flop hands to its SR stage are never both
/// high, so the SR stage is never driven into its unspecified combination.
pub proof fn lemma_jk_never_sets_and_resets(v: EdgeState, j: bool, k: bool)
    ensures
        !((j && !v.slave) && (k && v.slave)),
{
}

/// One clock pulse of a settled JK flip-flop follows the characteristic
/// table: `j` and `k` both low hold the output, `j` alone sets it, `k` alone
/// resets it, and both high toggle it. The flip-flop is settled again
/// afterwards.
pub proof fn lemma_jk_pulse_table(v: EdgeState, j: bool, k: bool)
    requires
        v.settled(),
    ensures
        jk_pulse(v, j, k).settled(),
        jk_pulse(v, j, k).slave == if j && k {
            !v.slave
        } else if j {
            true
        } else if k {
            false
        } else {
            v.slave
        },
{
}

/// With `j` and `k` held high the output of a JK flip-flop flips on every
/// rising edge: after `n` pulses it differs from where it started exactly
/// when `n` is odd. This holds from any state.
pub proof fn lemma_jk_toggles(v: EdgeState, n: nat)
    ensures
        jk_pulses(v, true, true, n).slave == (v.slave != (n % 2 == 1)),
        n > 0 ==> jk_pulses(v, true, true, n).settled(),
    decreases n,
{
    if n > 0 {
        lemma_jk_toggles(v, (n - 1) as nat);
    }
}

/// With `j` and `k` held low a settled JK flip-flop keeps its output across
/// any number of rising edges.
pub proof fn lemma_jk_holds(v: EdgeState, n: nat)
    requires
        v.settled(),
    ensures
        jk_pulses(v, false, false, n) == v,
    decreases n,
{
    if n > 0 {
        lemma_jk_holds(v, (n - 1) as nat);
    }
}

} // verus!
