//! The meaning of a run of counter operations.
//!
//! Each operation on an `AtomicCounter` takes effect at one instant, and all
//! threads agree on the order of those instants. A run of a counter is
//! therefore a single sequence of operations, whatever threads issued them.
//! This module says what each operation does to the value and what it
//! returns, and proves the laws that hold of every such sequence.
use vstd::prelude::*;

verus! {

/// One operation on a counter, at the instant it takes effect.
pub enum CounterOp {
    Get,
    Increase,
    Add(usize),
    Reset,
}

/// `a + b` wrapped at the width of `usize`.
pub open spec fn wrapping_sum(a: usize, b: usize) -> usize {
    if a + b <= usize::MAX {
        (a + b) as usize
    } else {
        (a + b - usize::MAX - 1) as usize
    }
}

/// The value a counter holds once `op` has taken effect on the value `v`.
pub open spec fn effect(v: usize, op: CounterOp) -> usize {
    match op {
        CounterOp::Get => v,
        CounterOp::Increase => wrapping_sum(v, 1),
        CounterOp::Add(n) => wrapping_sum(v, n),
        CounterOp::Reset => 0,
    }
}

/// The value of a counter that started at `init` once every operation of
/// `run` has taken effect, in order.
pub open spec fn value_after(init: usize, run: Seq<CounterOp>) -> usize
    decreases run.len(),
{
    if run.len() == 0 {
        init
    } else {
        effect(value_after(init, run.drop_last()), run.last())
    }
}

/// What the operation at position `i` of `run` returns. Every operation
/// returns the value held just before its own effect.
pub open spec fn returned_at(init: usize, run: Seq<CounterOp>, i: int) -> usize {
    value_after(init, run.take(i))
}

/// How much `op` asks to add.
pub open spec fn added_by(op: CounterOp) -> nat {
    match op {
        CounterOp::Increase => 1,
        CounterOp::Add(n) => n as nat,
        _ => 0,
    }
}

/// The sum of what the operations of `run` ask to add.
pub open spec fn total_added(run: Seq<CounterOp>) -> nat
    decreases run.len(),
{
    if run.len() == 0 {
        0
    } else {
        total_added(run.drop_last()) + added_by(run.last())
    }
}

/// The number of `Increase` operations in `run`.
pub open spec fn increases(run: Seq<CounterOp>) -> nat
    decreases run.len(),
{
    if run.len() == 0 {
        0
    } else {
        increases(run.drop_last()) + if run.last() is Increase {
            1nat
        } else {
            0nat
        }
    }
}

/// The sum of the values that the `Reset` operations of `run` returned.
pub open spec fn total_drained(init: usize, run: Seq<CounterOp>) -> nat
    decreases run.len(),
{
    if run.len() == 0 {
        0
    } else {
        total_drained(init, run.drop_last()) + if run.last() is Reset {
            value_after(init, run.drop_last()) as nat
        } else {
            0nat
        }
    }
}

/// Drain conservation: what every reset drained, plus what the counter still
/// holds, is exactly what it started with plus everything added, so no unit
/// is lost or counted twice, however adds and resets interleave. This holds
/// as long as no sum wraps.
pub proof fn drain_conservation(init: usize, run: Seq<CounterOp>)
    requires
        init + total_added(run) <= usize::MAX,
    ensures
        total_drained(init, run) + value_after(init, run) == init + total_added(run),
    decreases run.len(),
{
    if run.len() > 0 {
        drain_conservation(init, run.drop_last());
    }
}

/// A run of increases and reads only adds one per increase.
proof fn increases_only(init: usize, run: Seq<CounterOp>)
    requires
        forall|i: int| 0 <= i < run.len() ==> (run[i] is Increase || run[i] is Get),
        init + increases(run) <= usize::MAX,
    ensures
        value_after(init, run) == init + increases(run),
    decreases run.len(),
{
    if run.len() > 0 {
        increases_only(init, run.drop_last());
    }
}

/// Exact sum under concurrent increments: when `threads` threads each
/// increase a counter that starts at zero `per_thread` times, with no reset
/// and no add among them, whatever reads they interleave, the final value is
/// `threads * per_thread`, as long as that fits in a `usize`.
pub proof fn concurrent_increase_sum(run: Seq<CounterOp>, threads: nat, per_thread: nat)
    requires
        forall|i: int| 0 <= i < run.len() ==> (run[i] is Increase || run[i] is Get),
        increases(run) == threads * per_thread,
        threads * per_thread <= usize::MAX,
    ensures
        value_after(0, run) == threads * per_thread,
{
    increases_only(0, run);
}

/// Reading is pure: a `Get` leaves the value as it was, so two reads in a
/// row return the same value.
pub proof fn get_is_pure(init: usize, run: Seq<CounterOp>, i: int)
    requires
        0 <= i,
        i + 1 < run.len(),
        run[i] is Get,
        run[i + 1] is Get,
    ensures
        value_after(init, run.take(i + 1)) == value_after(init, run.take(i)),
        returned_at(init, run, i + 1) == returned_at(init, run, i),
{
    assert(run.take(i + 1).drop_last() =~= run.take(i));
}

/// Adding zero is a no-op: `Add(0)` returns the current value and leaves
/// the counter unchanged.
pub proof fn add_zero_is_noop(init: usize, run: Seq<CounterOp>, i: int)
    requires
        0 <= i < run.len(),
        run[i] == CounterOp::Add(0),
    ensures
        returned_at(init, run, i) == value_after(init, run.take(i)),
        value_after(init, run.take(i + 1)) == value_after(init, run.take(i)),
{
    assert(run.take(i + 1).drop_last() =~= run.take(i));
}

} // verus!
