//! The arithmetic of both counters, on plain numbers, and the thread-confined
//! counter that the handles of one thread share in a cell.

use core::cell::Cell;
use vstd::prelude::*;

verus! {

/// What a counter holds once one more holder has joined `count` of them.
pub open spec fn count_after_increment(count: nat) -> nat {
    count + 1
}

/// What a counter holds once one of its `count` holders has left.
pub open spec fn count_after_decrement(count: nat) -> nat
    recommends
        count >= 1,
{
    (count - 1) as nat
}

/// Whether the holder that left a counter showing `prior` was the last one.
pub open spec fn last_holder(prior: nat) -> bool {
    prior == 1
}

/// Adds one holder to `count`. At the top of the machine's range the counter
/// wraps to zero, as the machine's unsigned arithmetic does.
pub fn incremented(count: usize) -> (next: usize)
    ensures
        count < usize::MAX ==> next == count_after_increment(count as nat),
        count == usize::MAX ==> next == 0,
    opens_invariants none
    no_unwind
{
    if count == usize::MAX {
        0
    } else {
        count + 1
    }
}

/// Takes one holder from `count`. Below zero the counter wraps to the top of
/// the machine's range.
pub fn decremented(count: usize) -> (remaining: usize)
    ensures
        count >= 1 ==> remaining == count_after_decrement(count as nat),
        count == 0 ==> remaining == usize::MAX,
    opens_invariants none
    no_unwind
{
    if count == 0 {
        usize::MAX
    } else {
        count - 1
    }
}

/// Decides from the count seen just before a decrement whether that decrement
/// released the last holder.
pub fn is_last_holder(prior: usize) -> (last: bool)
    ensures
        last == last_holder(prior as nat),
    opens_invariants none
    no_unwind
{
    prior == 1
}

/// `core::cell::Cell`, as a type whose contents the proofs do not see.
#[verifier::external_type_specification]
#[verifier::external_body]
#[verifier::reject_recursive_types(T)]
pub struct ExCell<T: ?Sized>(core::cell::Cell<T>);

/// `Cell::new`: a cell holding `value`. What a cell holds is state behind a
/// shared reference, so nothing is claimed of it.
#[verifier::external_body]
pub(crate) fn cell_new(value: LocalCounter) -> (cell: Cell<LocalCounter>) {
    Cell::new(value)
}

/// `Cell::get`: a copy of the counter that the cell holds now. It does not
/// unwind.
#[verifier::external_body]
pub(crate) fn cell_get(cell: &Cell<LocalCounter>) -> (value: LocalCounter)
    opens_invariants none
    no_unwind
{
    cell.get()
}

/// `Cell::set`: stores `value` in the cell. It does not unwind.
#[verifier::external_body]
pub(crate) fn cell_set(cell: &Cell<LocalCounter>, value: LocalCounter)
    opens_invariants none
    no_unwind
{
    cell.set(value)
}

/// The counter of one thread's handles: a plain number, with no
/// synchronisation. It counts the live handles of its thread. The handles
/// share it in a cell; every change is made on a copy taken out of the cell
/// and stored back.
#[derive(Clone, Copy)]
pub struct LocalCounter {
    count: usize,
}

/// One change of a counter: what it showed before and what it shows after.
#[derive(Clone, Copy, Debug, PartialEq, Eq)]
pub struct CountChange {
    pub prior: usize,
    pub now: usize,
}

impl View for LocalCounter {
    type V = nat;

    /// The number of handles counted.
    closed spec fn view(&self) -> nat {
        self.count as nat
    }
}

impl LocalCounter {
    /// The number of handles counted.
    pub fn get(&self) -> (count: usize)
        ensures
            count == self@,
        opens_invariants none
        no_unwind
    {
        self.count
    }

    /// Counts one more handle, and reports the change. At the top of the
    /// machine's range the counter wraps to zero.
    pub fn increment(&mut self) -> (change: CountChange)
        ensures
            old(self)@ < usize::MAX ==> final(self)@ == count_after_increment(old(self)@),
            old(self)@ == usize::MAX ==> final(self)@ == 0,
            change.prior == old(self)@,
            change.now == final(self)@,
        opens_invariants none
        no_unwind
    {
        let prior: usize = self.count;
        let now: usize = incremented(prior);
        self.count = now;
        CountChange { prior, now }
    }

    /// Counts one handle less, and reports the change. With `now` at zero the
    /// handle that left was the counter's last. Below zero the counter wraps
    /// to the top of the machine's range.
    pub fn decrement(&mut self) -> (change: CountChange)
        ensures
            old(self)@ >= 1 ==> final(self)@ == count_after_decrement(old(self)@),
            old(self)@ == 0 ==> final(self)@ == usize::MAX,
            change.prior == old(self)@,
            change.now == final(self)@,
        opens_invariants none
        no_unwind
    {
        let prior: usize = self.count;
        let now: usize = decremented(prior);
        self.count = now;
        CountChange { prior, now }
    }
}

/// A fresh counter for the first handle of a thread: it starts at one.
pub fn new_local_counter() -> (counter: LocalCounter)
    ensures
        counter@ == 1,
{
    LocalCounter { count: 1 }
}

} // verus!
