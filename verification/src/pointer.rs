//! The two pointer types: the handle that stays on its thread, and the package
//! that crosses threads.
//!
//! `Rc` and `Arc` serve as the pointers to the local counter and to the block,
//! and keep their storage alive; they also decide which types may cross
//! threads. The counters of the protocol are kept beside them, and every
//! change of a counter is made by a transition of `crate::protocol`: the
//! handle that brings its local counter to zero gives up the thread's claim
//! on the block. The counters can be read at any time.

use crate::counter::cell_get;
use crate::counter::cell_new;
use crate::counter::cell_set;
use crate::counter::count_after_decrement;
use crate::counter::last_holder;
use crate::counter::LocalCounter;
use crate::payload::MlspInner;
use crate::protocol::claim_given_up;
use crate::protocol::handle_cloned;
use crate::protocol::handle_released;
use crate::protocol::lineage_started;
use crate::protocol::ClaimRelease;
use core::cell::Cell;
use std::rc::Rc;
use std::sync::Arc;
use vstd::prelude::*;

verus! {

/// One thread's share in a block: the counter of the thread's handles, and the
/// block, on which all of them hold one claim together.
struct Lineage<T> {
    local_count: Cell<LocalCounter>,
    inner_ptr: Arc<MlspInner<T>>,
}

/// A handle on a shared value that is cheap to clone within its thread.
///
/// Cloning and dropping a handle changes the thread's own counter only. The
/// handle that brings that counter to zero gives up the thread's claim on the
/// block. A handle cannot be sent to another thread: send a package.
pub struct Mlsp<T> {
    lineage: Rc<Lineage<T>>,
}

/// One claim on a shared value, with no thread of its own yet. It can be sent
/// to another thread and shared between threads where the value can, and is
/// turned into a handle on arrival.
pub struct MlspPackage<T> {
    inner_ptr: Arc<MlspInner<T>>,
    /// Set when the package has become a handle, which holds the claim from
    /// then on: the package has none left to give up.
    claim_passed: bool,
}

/// What the end of a handle came to: what its local counter showed before and
/// after, and, where the handle was the last of its counter, what came of the
/// claim that was given up.
struct HandleRelease {
    prior: usize,
    now: usize,
    claim: Option<ClaimRelease>,
}

/// Gives up one claim on `block`, and says what the block's counter showed
/// just before and whether the claim was the last.
fn give_up<T>(block: &MlspInner<T>) -> (release: ClaimRelease)
    ensures
        release.last == last_holder(release.prior as nat),
    opens_invariants none
    no_unwind
{
    let prior: usize = block.decrement();
    claim_given_up(prior)
}

impl<T> MlspPackage<T> {
    /// The block that the package has a claim on.
    pub closed spec fn block(&self) -> MlspInner<T> {
        *self.inner_ptr
    }

    /// Whether the package still holds its claim. Every package that `package`
    /// or `clone` hands out does.
    pub closed spec fn holds_claim(&self) -> bool {
        !self.claim_passed
    }

    /// Turns the package into the first handle of a new local counter, which
    /// starts at one. The package's claim passes to the handle: the block's
    /// counter is not touched.
    pub fn unpackage(self) -> (handle: Mlsp<T>)
        ensures
            handle.block() == self.block(),
            handle@ == self@,
    {
        let mut package = self;
        package.claim_passed = true;
        let inner_ptr = Arc::clone(&package.inner_ptr);
        let local_count = cell_new(lineage_started());
        Mlsp { lineage: Rc::new(Lineage { local_count, inner_ptr }) }
    }

    /// The number of claims on the block at this moment.
    pub fn global_count(&self) -> (count: usize) {
        self.inner_ptr.count()
    }

    /// Gives the claim up, unless it has passed to a handle, and says what
    /// came of that.
    fn release(&self) -> (release: Option<ClaimRelease>)
        ensures
            release is Some <==> self.holds_claim(),
            release matches Some(r) ==> r.last == last_holder(r.prior as nat),
        opens_invariants none
        no_unwind
    {
        if self.claim_passed {
            None
        } else {
            Some(give_up(&self.inner_ptr))
        }
    }
}

impl<T> View for MlspPackage<T> {
    type V = T;

    /// The value that the package carries a claim on.
    open spec fn view(&self) -> T {
        self.block().value()
    }
}

impl<T> Clone for MlspPackage<T> {
    /// A second package with a claim of its own on the same block. This adds
    /// one to the block's counter.
    fn clone(&self) -> (package: Self)
        ensures
            package.block() == self.block(),
            package@ == self@,
            package.holds_claim(),
    {
        let _prior: usize = self.inner_ptr.increment();
        MlspPackage { inner_ptr: Arc::clone(&self.inner_ptr), claim_passed: false }
    }
}

impl<T> Drop for MlspPackage<T> {
    /// Gives the package's claim up: one is taken from the block's counter.
    /// A package that has become a handle has no claim left to give up.
    fn drop(&mut self)
        ensures
            *final(self) == *old(self),
        opens_invariants none
        no_unwind
    {
        let _release = self.release();
    }
}

impl<T> Mlsp<T> {
    /// The block that the handle reads from.
    pub closed spec fn block(&self) -> MlspInner<T> {
        *self.lineage.inner_ptr
    }

    /// The cell of the local counter that the handle is counted in.
    pub closed spec fn counter(&self) -> Cell<LocalCounter> {
        self.lineage.local_count
    }

    /// A handle on a new block for `data`: one claim on the block, and one
    /// handle in a new local counter.
    pub fn new(data: T) -> (handle: Self)
        ensures
            handle@ == data,
    {
        let inner_ptr = Arc::new(MlspInner::new(data));
        let local_count = cell_new(lineage_started());
        Mlsp { lineage: Rc::new(Lineage { local_count, inner_ptr }) }
    }

    /// A package with a claim of its own on the handle's block. This adds one
    /// to the block's counter; the handle and its local counter stay as they
    /// were.
    pub fn package(&self) -> (package: MlspPackage<T>)
        ensures
            package.block() == self.block(),
            package@ == self@,
            package.holds_claim(),
    {
        let _prior: usize = self.lineage.inner_ptr.increment();
        MlspPackage { inner_ptr: Arc::clone(&self.lineage.inner_ptr), claim_passed: false }
    }

    /// The value, for reading.
    pub fn borrow(&self) -> (value: &T)
        ensures
            *value == self@,
    {
        MlspInner::borrow(&self.lineage.inner_ptr)
    }

    /// The value, for reading.
    pub fn as_ref(&self) -> (value: &T)
        ensures
            *value == self@,
    {
        MlspInner::borrow(&self.lineage.inner_ptr)
    }

    /// The number of live handles in this handle's local counter at this
    /// moment.
    pub fn local_count(&self) -> (count: usize) {
        let counter = cell_get(&self.lineage.local_count);
        counter.get()
    }

    /// The number of claims on the block at this moment.
    pub fn global_count(&self) -> (count: usize) {
        self.lineage.inner_ptr.count()
    }

    /// Takes the handle out of its local counter. If other handles of the
    /// thread remain, that is all. If it was the last, the thread's claim on
    /// the block is given up. The result says what the local counter showed
    /// before and after, and what came of the claim.
    fn release(&self) -> (release: HandleRelease)
        ensures
            release.prior >= 1 ==> release.now == count_after_decrement(release.prior as nat),
            release.prior == 0 ==> release.now == usize::MAX,
            release.claim is Some <==> release.now == 0,
            release.claim matches Some(c) ==> c.last == last_holder(c.prior as nat),
        opens_invariants none
        no_unwind
    {
        let mut counter = cell_get(&self.lineage.local_count);
        let prior: usize = counter.get();
        let claim_given_up = handle_released(&mut counter);
        let now: usize = counter.get();
        cell_set(&self.lineage.local_count, counter);
        let claim = if claim_given_up {
            Some(give_up(&self.lineage.inner_ptr))
        } else {
            None
        };
        HandleRelease { prior, now, claim }
    }
}

impl<T> View for Mlsp<T> {
    type V = T;

    /// The value that the handle gives access to.
    open spec fn view(&self) -> T {
        self.block().value()
    }
}

impl<T> Clone for Mlsp<T> {
    /// A second handle in the same local counter and on the same block. This
    /// adds one to the local counter and leaves the block's counter alone.
    fn clone(&self) -> (handle: Self)
        ensures
            handle.counter() == self.counter(),
            handle.block() == self.block(),
            handle@ == self@,
    {
        let mut counter = cell_get(&self.lineage.local_count);
        handle_cloned(&mut counter);
        cell_set(&self.lineage.local_count, counter);
        Mlsp { lineage: Rc::clone(&self.lineage) }
    }
}

impl<T> Drop for Mlsp<T> {
    /// Takes one from the local counter. The handle that brings it to zero is
    /// the last of its thread, and gives up the thread's claim on the block.
    fn drop(&mut self)
        ensures
            *final(self) == *old(self),
        opens_invariants none
        no_unwind
    {
        let _release = self.release();
    }
}

impl<T> core::borrow::Borrow<T> for Mlsp<T> {
    fn borrow(&self) -> (value: &T)
        ensures
            *value == self@,
    {
        MlspInner::borrow(&self.lineage.inner_ptr)
    }
}

impl<T> core::convert::AsRef<T> for Mlsp<T> {
    fn as_ref(&self) -> (value: &T)
        ensures
            *value == self@,
    {
        MlspInner::borrow(&self.lineage.inner_ptr)
    }
}

/// A handle, a package made from it and the handle that the package turns
/// into all stand on one block, so the handle that comes back reads the value
/// that the first one reads.
pub proof fn law_round_trip_value<T>(handle: Mlsp<T>, package: MlspPackage<T>, back: Mlsp<T>)
    requires
        package.block() == handle.block(),
        back.block() == package.block(),
    ensures
        back.block() == handle.block(),
        back@ == handle@,
{
}

} // verus!
