use std::sync::atomic::{AtomicUsize, Ordering};
use std::sync::Arc;
use vstd::prelude::*;

verus! {

/// The operations of a counter that many threads may update at once.
///
/// Every operation takes effect atomically, at one instant between its call
/// and its return, in a single order that all threads agree on. `increase`,
/// `add` and `reset` return the value held just before their own effect.
pub trait AtomicCounter: Send + Sync {
    type PrimitiveType;

    /// The current value.
    fn get(&self) -> Self::PrimitiveType;

    /// Adds one; returns the value before.
    fn increase(&self) -> Self::PrimitiveType;

    /// Adds `count`; returns the value before.
    fn add(&self, count: Self::PrimitiveType) -> Self::PrimitiveType;

    /// Sets the value to zero; returns the value before (what was drained).
    fn reset(&self) -> Self::PrimitiveType;

    /// Consumes the counter and returns its final value.
    fn into_inner(self) -> Self::PrimitiveType;
}

/// Relies on `AtomicUsize::into_inner`: consumes the cell and returns what it
/// holds. Nothing is said of that value: while the cell was shared, other
/// threads may have changed it in ways that this crate's proofs do not follow.
#[verifier::external_body]
fn take_word(cell: AtomicUsize) -> usize {
    cell.into_inner()
}

/// A counter over one atomically accessed machine word, every access
/// sequentially consistent. Sums wrap at `usize::MAX`.
#[derive(Default, Debug)]
pub struct ConsistentCounter(AtomicUsize);

impl ConsistentCounter {
    /// A counter that starts at `init_num`.
    pub fn new(init_num: usize) -> ConsistentCounter {
        ConsistentCounter(AtomicUsize::new(init_num))
    }
}

// Other threads change the word behind `&self` at any time, and Verus follows
// no change made through a shared reference, so these operations promise
// nothing of the values they return. What each does at the instant it takes
// effect is `history::effect`, and the laws of `history` hold of every run.
impl AtomicCounter for ConsistentCounter {
    type PrimitiveType = usize;

    fn get(&self) -> usize {
        self.0.load(Ordering::SeqCst)
    }

    fn increase(&self) -> usize {
        self.add(1)
    }

    fn add(&self, count: usize) -> usize {
        self.0.fetch_add(count, Ordering::SeqCst)
    }

    fn reset(&self) -> usize {
        self.0.swap(0, Ordering::SeqCst)
    }

    fn into_inner(self) -> usize {
        take_word(self.0)
    }
}

/// Returned by `try_into_inner` when other handles to the counter are still
/// alive. It gives the caller's handle back untouched, so the counter stays
/// usable by every handle.
#[derive(Debug)]
pub struct OwnershipViolation {
    pub handle: Arc<ConsistentCounter>,
}

/// Relies on `Arc::try_unwrap`: yields the inner value when this is the only
/// strong handle, else hands the same handle back.
#[verifier::external_body]
fn unwrap_unique(handle: Arc<ConsistentCounter>) -> (r: Result<ConsistentCounter, Arc<ConsistentCounter>>)
    ensures
        match r {
            Ok(c) => c == *handle,
            Err(h) => h == handle,
        },
{
    Arc::try_unwrap(handle)
}

/// Consumes a shared counter and returns its final value, provided `handle`
/// is the only handle left. Otherwise nothing is consumed: the error carries
/// `handle` back, and the counter goes on as before.
pub fn try_into_inner(handle: Arc<ConsistentCounter>) -> (r: Result<usize, OwnershipViolation>)
    ensures
        r matches Err(e) ==> e.handle == handle,
{
    match unwrap_unique(handle) {
        Ok(counter) => Ok(counter.into_inner()),
        Err(handle) => Err(OwnershipViolation { handle }),
    }
}

} // verus!
