//! Ripple counter: a chain of toggle-wired D flip-flops, least significant
//! bit first, in which every stage after the first is clocked by the
//! complemented output of the stage before it.

use vstd::prelude::*;
use vstd::arithmetic::power2::{lemma2_to64, lemma_pow2_pos, lemma_pow2_unfold, pow2};
use vstd::arithmetic::div_mod::{
    lemma_add_mod_noop, lemma_fundamental_div_mod_converse, lemma_mod_twice, lemma_small_mod,
};
use vstd::bits::{lemma_u64_pow2_no_overflow, lemma_u64_shl_is_mul};
use vstd::std_specs::convert::TryFromSpec;
use crate::gate::all_high;
use crate::flipflop::{DFlipflop, EdgeState};

verus! {

/// What a ripple counter shows to the outside: the output Q of every stage,
/// least significant first, and the level last applied to its clock input.
pub struct CounterState {
    pub bits: Seq<bool>,
    pub clock: bool,
}

/// The number that a row of bits stands for, bit `i` weighing `2^i`.
pub open spec fn bits_value(bits: Seq<bool>) -> nat
    decreases bits.len(),
{
    if bits.len() == 0 {
        0
    } else {
        bits_value(bits.drop_last()) + if bits.last() {
            pow2((bits.len() - 1) as nat)
        } else {
            0
        }
    }
}

/// The bits after one count: a stage flips exactly when every stage below it
/// was high, which is when the carry ripples all the way up to it.
pub open spec fn ripple_increment(bits: Seq<bool>) -> Seq<bool> {
    Seq::new(bits.len(), |i: int| bits[i] != all_high(bits.take(i)))
}

impl CounterState {
    /// A counter of `width` stages that reads zero, with its clock low.
    pub open spec fn zero(width: nat) -> CounterState {
        CounterState { bits: Seq::new(width, |i: int| false), clock: false }
    }

    /// The number of stages.
    pub open spec fn width(self) -> nat {
        self.bits.len()
    }

    /// The count that the outputs stand for.
    pub open spec fn value(self) -> nat {
        bits_value(self.bits)
    }
}

/// One update of the counter with clock level `clk`: a rising edge counts
/// once, anything else leaves the outputs alone. A counter without stages has
/// nowhere to keep the clock level and never changes.
pub open spec fn counter_step(v: CounterState, clk: bool) -> CounterState {
    if v.bits.len() == 0 {
        v
    } else {
        CounterState {
            bits: if !v.clock && clk {
                ripple_increment(v.bits)
            } else {
                v.bits
            },
            clock: clk,
        }
    }
}

/// One complete clock pulse: an update with the clock high, then one with the
/// clock low.
pub open spec fn counter_pulse(v: CounterState) -> CounterState {
    counter_step(counter_step(v, true), false)
}

/// `t` complete clock pulses in a row.
pub open spec fn counter_pulses(v: CounterState, t: nat) -> CounterState
    decreases t,
{
    if t == 0 {
        v
    } else {
        counter_pulse(counter_pulses(v, (t - 1) as nat))
    }
}

/// The outputs of a chain of flip-flops, first stage first.
spec fn outputs(stages: Seq<DFlipflop>) -> Seq<bool> {
    Seq::new(stages.len(), |i: int| stages[i]@.slave)
}

/// Every stage after the first has last been updated with the complemented
/// output of the stage before it as its clock and its own complemented output
/// as its data: with that clock high its master agrees with its output, with
/// that clock low its master holds the complement, ready for the next edge.
spec fn chained(stages: Seq<DFlipflop>) -> bool {
    forall|i: int|
        1 <= i < stages.len() ==> (#[trigger] stages[i])@.master == (stages[i]@.slave
            != stages[i - 1]@.slave)
}

/// Asynchronous counter of `N` bits.
pub struct RippleCounter<const N: usize> {
    flipflops: [DFlipflop; N],
}

impl<const N: usize> View for RippleCounter<N> {
    type V = CounterState;

    /// The first stage is settled exactly when it was last updated with its
    /// clock high, so it is the first stage that remembers the clock level.
    closed spec fn view(&self) -> CounterState {
        CounterState {
            bits: outputs(self.flipflops@),
            clock: N > 0 && self.flipflops@[0]@.settled(),
        }
    }
}

impl<const N: usize> RippleCounter<N> {
    /// The stages are wired into a chain and have only ever been updated as
    /// one.
    #[verifier::type_invariant]
    spec fn wired(&self) -> bool {
        chained(self.flipflops@)
    }

    /// A counter that reads zero, with its clock input low.
    pub fn new() -> (counter: Self)
        ensures
            counter@ == CounterState::zero(N as nat),
            counter@.value() == 0,
    {
        let mut counter = RippleCounter { flipflops: [DFlipflop::new(); N] };
        counter.init();
        proof {
            assert(counter@.bits =~= CounterState::zero(N as nat).bits);
            lemma_zero_value(N as nat);
        }
        counter
    }

    /// Settles the chain with the clock low, so that the first high level
    /// applied afterwards is seen as a rising edge.
    fn init(&mut self)
        ensures
            final(self)@ == counter_step(old(self)@, false),
    {
        self.update(false);
    }

    /// Applies the clock level `clk`.
    ///
    /// The first stage is clocked by `clk` itself, every later stage by the
    /// complemented output that the stage before it shows after its own
    /// update, so that a carry travels through the whole chain in one call.
    pub fn update(&mut self, clk: bool)
        ensures
            final(self)@ == counter_step(old(self)@, clk),
            final(self)@.value() == if !old(self)@.clock && clk {
                (old(self)@.value() + 1) % pow2(N as nat)
            } else {
                old(self)@.value()
            },
    {
        proof {
            use_type_invariant(&*self);
            lemma_step_value(self@, clk);
        }
        if N == 0 {
            return;
        }
        let ghost before = self.flipflops@;
        let ghost bits = outputs(before);
        let ghost rising = !before[0]@.settled() && clk;
        let mut flipflops = self.flipflops;
        let feedback = flipflops[0].qn();
        flipflops[0].update(clk, feedback);
        proof {
            assert(bits.take(0) =~= Seq::<bool>::empty());
        }
        let mut i: usize = 1;
        while i < N
            invariant
                1 <= i <= N,
                before.len() == N,
                bits == outputs(before),
                chained(before),
                rising == (!before[0]@.settled() && clk),
                forall|k: int| i <= k < N ==> flipflops@[k] == before[k],
                flipflops@[0]@.master == (flipflops@[0]@.slave == clk),
                forall|k: int|
                    1 <= k < i ==> (#[trigger] flipflops@[k])@.master == (flipflops@[k]@.slave
                        != flipflops@[k - 1]@.slave),
                forall|k: int|
                    0 <= k < i ==> (#[trigger] flipflops@[k])@.slave == (before[k]@.slave != (rising
                        && all_high(bits.take(k)))),
            decreases N - i,
        {
            let clock = flipflops[i - 1].qn();
            let feedback = flipflops[i].qn();
            proof {
                lemma_all_high_extend(bits, i - 1);
            }
            flipflops[i].update(clock, feedback);
            i += 1;
        }
        self.flipflops = flipflops;
        proof {
            assert(self@.bits =~= counter_step(old(self)@, clk).bits);
        }
    }

    /// Reset the counter to zero.
    pub fn clear(&mut self)
        ensures
            final(self)@ == CounterState::zero(N as nat),
            final(self)@.value() == 0,
    {
        let mut flipflops = self.flipflops;
        let mut i: usize = 0;
        while i < N
            invariant
                i <= N,
                forall|k: int| 0 <= k < i ==> (#[trigger] flipflops@[k])@ == EdgeState::reset(),
            decreases N - i,
        {
            flipflops[i].clear();
            i += 1;
        }
        self.flipflops = flipflops;
        self.init();
        proof {
            assert(self@.bits =~= CounterState::zero(N as nat).bits);
            lemma_zero_value(N as nat);
        }
    }

    /// The count as a `u64`.
    fn accumulate(&self) -> (val: u64)
        requires
            N <= 64,
        ensures
            val == self@.value(),
    {
        let ghost bits = self@.bits;
        let mut val: u64 = 0;
        let mut i: usize = 0;
        while i < N
            invariant
                i <= N <= 64,
                bits == self@.bits,
                bits.len() == N,
                val == bits_value(bits.take(i as int)),
            decreases N - i,
        {
            let weight = 1u64 << i;
            proof {
                let low = bits.take(i as int);
                let more = bits.take(i + 1);
                assert(more.drop_last() =~= low);
                lemma_bits_value_bound(low);
                lemma_u64_pow2_no_overflow(i as nat);
                lemma_u64_shl_is_mul(1, i as u64);
                assert(val < weight ==> (val | weight) == val + weight) by (bit_vector)
                    requires
                        weight == 1u64 << i,
                        i < 64,
                ;
            }
            if self.flipflops[i].q() {
                val = val | weight;
            }
            i += 1;
        }
        proof {
            assert(bits.take(N as int) =~= bits);
        }
        val
    }

    /// The count, `Q_0 + 2 Q_1 + 4 Q_2 + ...`, converted to the integer type
    /// `T`; the conversion's error when `T` cannot hold the count.
    pub fn value<T: TryFrom<u64>>(&self) -> (result: Result<T, T::Error>)
        requires
            N <= 64,
        ensures
            call_ensures(T::try_from, (self@.value() as u64,), result),
            T::obeys_try_from_spec() ==> result == T::try_from_spec(self@.value() as u64),
    {
        let val = self.accumulate();
        T::try_from(val)
    }
}

impl<const N: usize> Default for RippleCounter<N> {
    fn default() -> (counter: Self)
        ensures
            counter@ == CounterState::zero(N as nat),
    {
        Self::new()
    }
}

/// Whether every stage of `bits` below `upto` is high decides, together with
/// stage `upto` itself, whether every stage up to and including it is.
proof fn lemma_all_high_extend(bits: Seq<bool>, upto: int)
    requires
        0 <= upto < bits.len(),
    ensures
        all_high(bits.take(upto + 1)) == (all_high(bits.take(upto)) && bits[upto]),
{
    let low = bits.take(upto);
    let more = bits.take(upto + 1);
    if all_high(low) && bits[upto] {
        assert forall|i: int| 0 <= i < more.len() implies more[i] by {
            if i < upto {
                assert(low[i]);
            }
        }
    } else if !bits[upto] {
        assert(!more[upto]);
    } else {
        let i = choose|i: int| 0 <= i < low.len() && !low[i];
        assert(!more[i]);
    }
}

/// A row of `n` bits stands for a number below `2^n`.
pub proof fn lemma_bits_value_bound(bits: Seq<bool>)
    ensures
        bits_value(bits) < pow2(bits.len()),
    decreases bits.len(),
{
    if bits.len() == 0 {
        lemma_pow2_pos(0);
    } else {
        lemma_bits_value_bound(bits.drop_last());
        lemma_pow2_unfold(bits.len());
    }
}

/// A row of low bits stands for zero.
pub proof fn lemma_zero_value(width: nat)
    ensures
        CounterState::zero(width).value() == 0,
    decreases width,
{
    if width > 0 {
        lemma_zero_value((width - 1) as nat);
        assert(CounterState::zero(width).bits.drop_last() =~= CounterState::zero(
            (width - 1) as nat,
        ).bits);
    }
}

/// Counting adds one, short of the carry that leaves at the top when every
/// stage was high.
proof fn lemma_increment_carry(bits: Seq<bool>)
    ensures
        bits_value(ripple_increment(bits)) + (if all_high(bits) {
            pow2(bits.len())
        } else {
            0
        }) == bits_value(bits) + 1,
    decreases bits.len(),
{
    let n = bits.len();
    if n == 0 {
        lemma_pow2_pos(0);
        assert(pow2(0) == 1) by {
            lemma2_to64();
        }
    } else {
        let low = bits.drop_last();
        lemma_increment_carry(low);
        lemma_all_high_extend(bits, n - 1);
        lemma_pow2_unfold(n);
        assert(bits.take(n - 1) =~= low);
        assert(bits.take(n as int) =~= bits);
        assert(ripple_increment(bits).drop_last() =~= ripple_increment(low)) by {
            assert forall|i: int| 0 <= i < n - 1 implies bits.take(i) == low.take(i) by {
                assert(bits.take(i) =~= low.take(i));
            }
        }
    }
}

/// Counting is addition of one modulo `2^n`, `n` being the number of stages:
/// a counter that shows all ones wraps to zero.
pub proof fn lemma_increment_value(bits: Seq<bool>)
    ensures
        bits_value(ripple_increment(bits)) == (bits_value(bits) + 1) % pow2(bits.len()),
{
    let m = pow2(bits.len());
    let next = bits_value(ripple_increment(bits));
    lemma_increment_carry(bits);
    lemma_bits_value_bound(bits);
    lemma_bits_value_bound(ripple_increment(bits));
    if all_high(bits) {
        lemma_fundamental_div_mod_converse((bits_value(bits) + 1) as int, m as int, 1, next as int);
    } else {
        lemma_small_mod(bits_value(bits) + 1, m);
    }
}

/// What one update does to the count: a rising edge of the clock adds one
/// modulo `2^n`, any other update leaves the count as it is. The number of
/// stages never changes.
pub proof fn lemma_step_value(v: CounterState, clk: bool)
    ensures
        counter_step(v, clk).width() == v.width(),
        counter_step(v, clk).value() == if !v.clock && clk {
            (v.value() + 1) % pow2(v.width())
        } else {
            v.value()
        },
{
    lemma_increment_value(v.bits);
    if v.bits.len() == 0 {
        assert(pow2(0) == 1) by {
            lemma2_to64();
        }
    }
}

/// From a state with the clock low, `t` complete pulses add `t` to the count
/// modulo `2^n` and leave the clock low again.
pub proof fn lemma_pulses_add(v: CounterState, t: nat)
    requires
        !v.clock,
    ensures
        counter_pulses(v, t).width() == v.width(),
        !counter_pulses(v, t).clock,
        counter_pulses(v, t).value() == (v.value() + t) % pow2(v.width()),
    decreases t,
{
    let m = pow2(v.width()) as int;
    lemma_pow2_pos(v.width());
    lemma_bits_value_bound(v.bits);
    if t == 0 {
        lemma_small_mod(v.value(), m as nat);
    } else {
        let before = counter_pulses(v, (t - 1) as nat);
        lemma_pulses_add(v, (t - 1) as nat);
        let high = counter_step(before, true);
        lemma_step_value(before, true);
        lemma_step_value(high, false);
        let sum = v.value() + t - 1;
        assert((sum % m + 1) % m == (sum + 1) % m) by {
            lemma_add_mod_noop(sum, 1, m);
            lemma_mod_twice(sum, m);
            lemma_add_mod_noop(sum % m, 1, m);
        }
    }
}

/// A counter of `width` stages that starts at zero reads `t mod 2^width`
/// after `t` complete clock pulses.
pub proof fn lemma_counts_pulses(width: nat, t: nat)
    ensures
        counter_pulses(CounterState::zero(width), t).value() == t % pow2(width),
{
    lemma_zero_value(width);
    lemma_pulses_add(CounterState::zero(width), t);
}

} // verus!
