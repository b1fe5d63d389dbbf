//! The shared block: the value and the atomic counter of its claims.

use core::sync::atomic::AtomicUsize;
use core::sync::atomic::Ordering;
use vstd::prelude::*;

verus! {

/// `AtomicUsize::fetch_sub` with release ordering: takes one from the counter
/// and returns what it showed before. The result depends on what other threads
/// did, so nothing is claimed of it. It does not unwind.
#[verifier::external_body]
fn fetch_sub_release(count: &AtomicUsize) -> (prior: usize)
    opens_invariants none
    no_unwind
{
    count.fetch_sub(1, Ordering::Release)
}

/// `core::sync::atomic::fence` with acquire ordering. It returns nothing and
/// does not unwind.
#[verifier::external_body]
fn acquire_fence()
    opens_invariants none
    no_unwind
{
    core::sync::atomic::fence(Ordering::Acquire)
}

/// The value together with the atomic count of the claims on it. A claim is
/// one thread's tree of handles, or one package.
pub struct MlspInner<T> {
    atomic_count: AtomicUsize,
    data: T,
}

impl<T> MlspInner<T> {
    /// The value that the block holds.
    pub closed spec fn value(&self) -> T {
        self.data
    }

    /// A block for `data` with one claim on it.
    pub fn new(data: T) -> (block: Self)
        ensures
            block.value() == data,
    {
        MlspInner { atomic_count: AtomicUsize::new(1), data }
    }

    /// Adds one claim: a release-ordered add, then an acquire fence. Returns
    /// the count seen just before the add. The caller owes one `decrement`.
    pub fn increment(&self) -> (prior: usize) {
        let prior: usize = self.atomic_count.fetch_add(1, Ordering::Release);
        acquire_fence();
        prior
    }

    /// Gives up one claim: a release-ordered subtract, then an acquire fence.
    /// Returns the count seen just before the subtract; at one, the caller
    /// held the last claim and nobody else can reach the block any more.
    pub fn decrement(&self) -> (prior: usize)
        opens_invariants none
        no_unwind
    {
        let prior: usize = fetch_sub_release(&self.atomic_count);
        acquire_fence();
        prior
    }

    /// The number of claims at this moment.
    pub fn count(&self) -> (count: usize) {
        self.atomic_count.load(Ordering::Acquire)
    }

    /// The value, for reading.
    pub fn borrow(&self) -> (value: &T)
        ensures
            *value == self.value(),
    {
        &self.data
    }
}

} // verus!
