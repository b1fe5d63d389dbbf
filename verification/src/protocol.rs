//! The counting protocol of one value, as a state machine over plain numbers.
//!
//! A `Ledger` is what the counters of one value show at one moment: the atomic
//! counter of the block, the counter of every thread's handles, and the
//! packages under way. An `Event` is one operation of a handle or a package.
//! The laws below say what holds of every ledger that the events can reach.
//!
//! The pointer types make each event through one of the executable
//! transitions at the end of this file. A transition works on the plain count
//! that the handle or package has in hand, and its contract says what `step`
//! makes of any ledger that shows that count.

use crate::counter::count_after_decrement;
use crate::counter::count_after_increment;
use crate::counter::is_last_holder;
use crate::counter::last_holder;
use crate::counter::new_local_counter;
use crate::counter::LocalCounter;
use vstd::prelude::*;

verus! {

/// The counters of one value at one moment.
pub struct Ledger {
    /// What the block's atomic counter shows.
    pub global: nat,
    /// What each local counter shows, in the order in which the counters were
    /// made. A counter at zero has been destroyed.
    pub locals: Seq<nat>,
    /// How many packages are alive.
    pub packages: nat,
    /// How many times the value has been destroyed.
    pub destroyed: nat,
}

/// One operation on a handle or on a package. A handle is named by the place
/// of its counter in `Ledger::locals`.
pub enum Event {
    /// `Mlsp::clone` on a handle of the counter at `lineage`.
    CloneHandle { lineage: int },
    /// `Mlsp::package` on a handle of the counter at `lineage`.
    Package { lineage: int },
    /// The end of a handle of the counter at `lineage`.
    DropHandle { lineage: int },
    /// `MlspPackage::unpackage` on some package.
    Unpackage,
    /// `MlspPackage::clone` on some package.
    ClonePackage,
    /// The end of some package.
    DropPackage,
}

/// The ledger of a value that has just been wrapped: one claim, one handle.
pub open spec fn created() -> Ledger {
    Ledger { global: 1, locals: seq![1nat], packages: 0, destroyed: 0 }
}

/// What one local counter adds to a tally: its count where handles are
/// tallied, and one if it is above zero where counters are.
pub open spec fn weight(count: nat, by_handles: bool) -> nat {
    if by_handles {
        count
    } else if count > 0 {
        1
    } else {
        0
    }
}

/// The sum of what the local counters add to a tally.
pub open spec fn tally(locals: Seq<nat>, by_handles: bool) -> nat
    decreases locals.len(),
{
    if locals.len() == 0 {
        0
    } else {
        tally(locals.drop_last(), by_handles) + weight(locals.last(), by_handles)
    }
}

/// How many local counters are above zero.
pub open spec fn live_lineages(locals: Seq<nat>) -> nat {
    tally(locals, false)
}

/// Whether the counter at place `lineage` still has a handle.
pub open spec fn lineage_live(s: Ledger, lineage: int) -> bool {
    0 <= lineage < s.locals.len() && s.locals[lineage] >= 1
}

/// How many handles the local counters count together.
pub open spec fn live_handles(locals: Seq<nat>) -> nat {
    tally(locals, true)
}

/// How many handles and packages are alive.
pub open spec fn holders(s: Ledger) -> nat {
    live_handles(s.locals) + s.packages
}

/// Whether the event is the end of a handle or of a package.
pub open spec fn is_drop(e: Event) -> bool {
    e is DropHandle || e is DropPackage
}

/// Whether no handle and no package is left.
pub open spec fn all_released(s: Ledger) -> bool {
    s.packages == 0 && forall|i: int| 0 <= i < s.locals.len() ==> s.locals[i] == 0
}

/// Whether there is a handle or a package for the event to act on.
pub open spec fn enabled(s: Ledger, e: Event) -> bool {
    match e {
        Event::CloneHandle { lineage } => lineage_live(s, lineage),
        Event::Package { lineage } => lineage_live(s, lineage),
        Event::DropHandle { lineage } => lineage_live(s, lineage),
        Event::Unpackage => s.packages >= 1,
        Event::ClonePackage => s.packages >= 1,
        Event::DropPackage => s.packages >= 1,
    }
}

/// The ledger after one more claim on the block.
pub open spec fn claim_added(s: Ledger) -> Ledger {
    Ledger { global: count_after_increment(s.global), ..s }
}

/// The ledger after one claim was given up. The one who saw the counter at one
/// destroys the value.
pub open spec fn claim_released(s: Ledger) -> Ledger {
    Ledger {
        global: count_after_decrement(s.global),
        destroyed: if last_holder(s.global) {
            s.destroyed + 1
        } else {
            s.destroyed
        },
        ..s
    }
}

/// The ledger after the event.
pub open spec fn step(s: Ledger, e: Event) -> Ledger {
    match e {
        Event::CloneHandle { lineage } => Ledger {
            locals: s.locals.update(lineage, count_after_increment(s.locals[lineage])),
            ..s
        },
        Event::Package { lineage } => Ledger { packages: s.packages + 1, ..claim_added(s) },
        Event::DropHandle { lineage } => {
            let remaining = count_after_decrement(s.locals[lineage]);
            let local_done = Ledger { locals: s.locals.update(lineage, remaining), ..s };
            if remaining > 0 {
                local_done
            } else {
                claim_released(local_done)
            }
        },
        Event::Unpackage => Ledger {
            packages: (s.packages - 1) as nat,
            locals: s.locals.push(1),
            ..s
        },
        Event::ClonePackage => Ledger { packages: s.packages + 1, ..claim_added(s) },
        Event::DropPackage => Ledger { packages: (s.packages - 1) as nat, ..claim_released(s) },
    }
}

/// The ledger after all the events, in their order.
pub open spec fn run(s: Ledger, events: Seq<Event>) -> Ledger
    decreases events.len(),
{
    if events.len() == 0 {
        s
    } else {
        step(run(s, events.drop_last()), events.last())
    }
}

/// Whether each event finds a handle or a package to act on when its turn
/// comes.
pub open spec fn admissible(s: Ledger, events: Seq<Event>) -> bool
    decreases events.len(),
{
    if events.len() == 0 {
        true
    } else {
        admissible(s, events.drop_last()) && enabled(run(s, events.drop_last()), events.last())
    }
}

/// The atomic counter counts the claims: one for each local counter above
/// zero and one for each package. The value has been destroyed exactly if no
/// claim is left.
pub open spec fn consistent(s: Ledger) -> bool {
    &&& s.global == live_lineages(s.locals) + s.packages
    &&& s.destroyed == if s.global == 0 {
        1nat
    } else {
        0nat
    }
}

proof fn lemma_tally_update(locals: Seq<nat>, i: int, v: nat, by_handles: bool)
    requires
        0 <= i < locals.len(),
    ensures
        tally(locals.update(i, v), by_handles) + weight(locals[i], by_handles) == tally(
            locals,
            by_handles,
        ) + weight(v, by_handles),
    decreases locals.len(),
{
    let updated = locals.update(i, v);
    if i == locals.len() - 1 {
        assert(updated.drop_last() =~= locals.drop_last());
    } else {
        assert(updated.drop_last() =~= locals.drop_last().update(i, v));
        lemma_tally_update(locals.drop_last(), i, v, by_handles);
    }
}

proof fn lemma_tally_push(locals: Seq<nat>, v: nat, by_handles: bool)
    ensures
        tally(locals.push(v), by_handles) == tally(locals, by_handles) + weight(v, by_handles),
{
    assert(locals.push(v).drop_last() =~= locals);
}

proof fn lemma_tally_zero(locals: Seq<nat>, by_handles: bool)
    ensures
        tally(locals, by_handles) == 0 <==> (forall|i: int|
            0 <= i < locals.len() ==> locals[i] == 0),
    decreases locals.len(),
{
    if locals.len() > 0 {
        let front = locals.drop_last();
        lemma_tally_zero(front, by_handles);
        if tally(locals, by_handles) == 0 {
            assert forall|i: int| 0 <= i < locals.len() implies locals[i] == 0 by {
                if i < front.len() {
                    assert(front[i] == locals[i]);
                }
            }
        }
        if forall|i: int| 0 <= i < locals.len() ==> locals[i] == 0 {
            assert forall|i: int| 0 <= i < front.len() implies front[i] == 0 by {
                assert(front[i] == locals[i]);
            }
            assert(locals.last() == locals[locals.len() - 1]);
        }
    }
}

/// An event that finds its handle or package keeps the ledger consistent.
pub proof fn lemma_step_consistent(s: Ledger, e: Event)
    requires
        consistent(s),
        enabled(s, e),
    ensures
        consistent(step(s, e)),
{
    lemma_tally_zero(s.locals, false);
    match e {
        Event::CloneHandle { lineage } => {
            lemma_tally_update(s.locals, lineage, count_after_increment(s.locals[lineage]), false);
        },
        Event::Package { lineage } => {},
        Event::DropHandle { lineage } => {
            lemma_tally_update(s.locals, lineage, count_after_decrement(s.locals[lineage]), false);
        },
        Event::Unpackage => {
            lemma_tally_push(s.locals, 1, false);
        },
        Event::ClonePackage => {},
        Event::DropPackage => {},
    }
}

/// Events that each find their handle or package lead from a consistent
/// ledger to a consistent one.
pub proof fn lemma_run_consistent(s: Ledger, events: Seq<Event>)
    requires
        consistent(s),
        admissible(s, events),
    ensures
        consistent(run(s, events)),
    decreases events.len(),
{
    if events.len() > 0 {
        lemma_run_consistent(s, events.drop_last());
        lemma_step_consistent(run(s, events.drop_last()), events.last());
    }
}

/// Whatever is done with the handles and packages of one value, the value is
/// destroyed at most once, and it has been destroyed exactly when the last
/// handle and the last package are gone. Until then the atomic counter counts
/// the local counters above zero and the packages.
pub proof fn law_single_destruction(events: Seq<Event>)
    requires
        admissible(created(), events),
    ensures
        run(created(), events).destroyed <= 1,
        run(created(), events).destroyed == 1 <==> all_released(run(created(), events)),
        run(created(), events).global == live_lineages(run(created(), events).locals) + run(
            created(),
            events,
        ).packages,
{
    assert(created().locals.drop_last() =~= Seq::<nat>::empty());
    assert(live_lineages(created().locals) == 1) by {
        reveal_with_fuel(tally, 2);
    }
    lemma_run_consistent(created(), events);
    lemma_tally_zero(run(created(), events).locals, false);
}

/// Once the value has been destroyed nothing can act on it: no handle and no
/// package is left for any event.
pub proof fn law_destruction_is_final(s: Ledger, e: Event)
    requires
        consistent(s),
        s.destroyed == 1,
    ensures
        !enabled(s, e),
{
    lemma_tally_zero(s.locals, false);
}

proof fn lemma_run_from_first(s: Ledger, e: Event, rest: Seq<Event>)
    ensures
        run(s, seq![e] + rest) == run(step(s, e), rest),
        admissible(s, seq![e] + rest) == (enabled(s, e) && admissible(step(s, e), rest)),
    decreases rest.len(),
{
    let all = seq![e] + rest;
    let front = all.drop_last();
    assert(all.len() == rest.len() + 1);
    assert(run(s, all) == step(run(s, front), all.last()));
    assert(admissible(s, all) == (admissible(s, front) && enabled(run(s, front), all.last())));
    if rest.len() == 0 {
        assert(front.len() == 0);
        assert(all.last() == e);
        assert(run(s, front) == s);
        assert(admissible(s, front));
    } else {
        assert(front =~= seq![e] + rest.drop_last());
        assert(all.last() == rest.last());
        lemma_run_from_first(s, e, rest.drop_last());
    }
}

proof fn lemma_handles_bound(locals: Seq<nat>, i: int)
    requires
        0 <= i < locals.len(),
    ensures
        locals[i] <= live_handles(locals),
        live_lineages(locals) <= live_handles(locals),
    decreases locals.len(),
{
    let front = locals.drop_last();
    if front.len() > 0 {
        let j = if i < front.len() {
            i
        } else {
            0
        };
        lemma_handles_bound(front, j);
        assert(front[j] == locals[j]);
    } else {
        assert(tally(front, false) == 0);
        assert(tally(front, true) == 0);
    }
}

/// No counter shows more than there are handles and packages. So while fewer
/// than `usize::MAX` of them exist, no counter reaches the top of the
/// machine's range, and the machine's arithmetic is the plain one used here.
pub proof fn law_counters_within_holders(s: Ledger, i: int)
    requires
        consistent(s),
        0 <= i < s.locals.len(),
    ensures
        s.locals[i] <= holders(s),
        s.global <= holders(s),
{
    lemma_handles_bound(s.locals, i);
}

/// The end of a handle or of a package leaves one holder less.
pub proof fn law_drop_releases_one_holder(s: Ledger, e: Event)
    requires
        enabled(s, e),
        is_drop(e),
    ensures
        holders(step(s, e)) + 1 == holders(s),
{
    match e {
        Event::DropHandle { lineage } => {
            lemma_tally_update(s.locals, lineage, count_after_decrement(s.locals[lineage]), true);
        },
        _ => {},
    }
}

/// From every consistent ledger the end is in reach: dropping the holders
/// that are left, one event for each, releases everything and leaves the
/// value destroyed once.
pub proof fn law_exhaustible(s: Ledger)
    requires
        consistent(s),
    ensures
        exists|events: Seq<Event>|
            #[trigger] admissible(s, events) && events.len() == holders(s) && all_released(
                run(s, events),
            ) && run(s, events).destroyed == 1,
    decreases holders(s),
{
    lemma_tally_zero(s.locals, true);
    lemma_tally_zero(s.locals, false);
    if all_released(s) {
        let none = Seq::<Event>::empty();
        assert(admissible(s, none) && none.len() == holders(s) && all_released(run(s, none))
            && run(s, none).destroyed == 1);
    } else {
        let e = if s.packages >= 1 {
            Event::DropPackage
        } else {
            let i = choose|i: int| 0 <= i < s.locals.len() && s.locals[i] != 0;
            Event::DropHandle { lineage: i }
        };
        assert(enabled(s, e) && is_drop(e));
        let after = step(s, e);
        lemma_step_consistent(s, e);
        law_drop_releases_one_holder(s, e);
        law_exhaustible(after);
        let rest = choose|events: Seq<Event>|
            #[trigger] admissible(after, events) && events.len() == holders(after) && all_released(
                run(after, events),
            ) && run(after, events).destroyed == 1;
        let all = seq![e] + rest;
        lemma_run_from_first(s, e, rest);
        assert(admissible(s, all) && all.len() == holders(s) && all_released(run(s, all)) && run(
            s,
            all,
        ).destroyed == 1);
    }
}

/// Cloning a handle changes its own local counter, by one, and nothing else:
/// the atomic counter stays as it is.
pub proof fn law_clone_is_local(s: Ledger, lineage: int)
    requires
        lineage_live(s, lineage),
    ensures
        step(s, Event::CloneHandle { lineage }).global == s.global,
        step(s, Event::CloneHandle { lineage }).packages == s.packages,
        step(s, Event::CloneHandle { lineage }).destroyed == s.destroyed,
        step(s, Event::CloneHandle { lineage }).locals == s.locals.update(
            lineage,
            s.locals[lineage] + 1,
        ),
{
}

/// The atomic counter moves only when a package is made, cloned or dropped, or
/// when the last handle of a local counter is dropped. Unpackaging, and
/// cloning or dropping a handle beside others of its counter, leave it alone.
pub proof fn law_global_moves_with_claims(s: Ledger, e: Event)
    requires
        enabled(s, e),
        step(s, e).global != s.global,
    ensures
        match e {
            Event::Package { lineage } => true,
            Event::ClonePackage => true,
            Event::DropPackage => true,
            Event::DropHandle { lineage } => s.locals[lineage] == 1,
            Event::CloneHandle { lineage } => false,
            Event::Unpackage => false,
        },
{
}

/// Packaging a handle and unpackaging the package adds one local counter at
/// one and one claim for it, and leaves no package behind. Dropping the handle
/// that came out returns the atomic counter to what it showed at the start.
pub proof fn law_round_trip(s: Ledger, lineage: int)
    requires
        consistent(s),
        lineage_live(s, lineage),
    ensures
        enabled(step(s, Event::Package { lineage }), Event::Unpackage),
        round_trip(s, lineage).global == s.global + 1,
        round_trip(s, lineage).packages == s.packages,
        round_trip(s, lineage).locals == s.locals.push(1),
        round_trip(s, lineage).destroyed == s.destroyed,
        enabled(round_trip(s, lineage), Event::DropHandle { lineage: s.locals.len() as int }),
        step(round_trip(s, lineage), Event::DropHandle { lineage: s.locals.len() as int }).global
            == s.global,
        step(
            round_trip(s, lineage),
            Event::DropHandle { lineage: s.locals.len() as int },
        ).destroyed == s.destroyed,
{
    lemma_tally_zero(s.locals, false);
}

/// The ledger after a handle of `lineage` was packaged and the package
/// unpackaged.
pub open spec fn round_trip(s: Ledger, lineage: int) -> Ledger {
    step(step(s, Event::Package { lineage }), Event::Unpackage)
}

/// A value that is wrapped and dropped at once is destroyed once, and both of
/// its counters end at zero.
pub proof fn law_immediate_drop()
    ensures
        enabled(created(), Event::DropHandle { lineage: 0 }),
        step(created(), Event::DropHandle { lineage: 0 }) == (Ledger {
            global: 0,
            locals: seq![0nat],
            packages: 0,
            destroyed: 1,
        }),
{
    assert(created().locals.update(0, 0nat) =~= seq![0nat]);
}

/// What giving up a claim came to: the count that the block showed just
/// before, and whether the claim was the last one, so that the value goes.
#[derive(Clone, Copy, Debug, PartialEq, Eq)]
pub struct ClaimRelease {
    pub prior: usize,
    pub last: bool,
}

/// `Event::CloneHandle`, on the counter of the handle that is cloned: the
/// counter takes one more handle, and no claim is touched.
pub fn handle_cloned(counter: &mut LocalCounter)
    ensures
        old(counter)@ < usize::MAX ==> final(counter)@ == count_after_increment(old(counter)@),
        old(counter)@ == usize::MAX ==> final(counter)@ == 0,
        forall|s: Ledger, lineage: int|
            lineage_live(s, lineage) && s.locals[lineage] == old(counter)@ && old(counter)@
                < usize::MAX ==> #[trigger] step(s, Event::CloneHandle { lineage }) == (Ledger {
                locals: s.locals.update(lineage, final(counter)@),
                ..s
            }),
    opens_invariants none
    no_unwind
{
    let _change = counter.increment();
}

/// `Event::DropHandle`, on the counter of the handle that goes: the counter
/// loses one handle. The result says whether it was the counter's last, so
/// that the thread's claim on the block is to be given up.
pub fn handle_released(counter: &mut LocalCounter) -> (claim_given_up: bool)
    ensures
        old(counter)@ >= 1 ==> final(counter)@ == count_after_decrement(old(counter)@),
        old(counter)@ == 0 ==> final(counter)@ == usize::MAX,
        claim_given_up == (final(counter)@ == 0),
        forall|s: Ledger, lineage: int|
            lineage_live(s, lineage) && s.locals[lineage] == old(counter)@ ==> #[trigger] step(
                s,
                Event::DropHandle { lineage },
            ) == if claim_given_up {
                claim_released(
                    Ledger { locals: s.locals.update(lineage, final(counter)@), ..s },
                )
            } else {
                (Ledger { locals: s.locals.update(lineage, final(counter)@), ..s })
            },
    opens_invariants none
    no_unwind
{
    let change = counter.decrement();
    change.now == 0
}

/// `Event::Unpackage`, for the handle that comes out: its counter is new and
/// starts at one. No claim is touched.
pub fn lineage_started() -> (counter: LocalCounter)
    ensures
        counter@ == 1,
        forall|s: Ledger|
            s.packages >= 1 ==> #[trigger] step(s, Event::Unpackage) == (Ledger {
                packages: (s.packages - 1) as nat,
                locals: s.locals.push(counter@),
                ..s
            }),
{
    new_local_counter()
}

/// The release of one claim, from the count that the block's counter showed
/// just before: the claim that saw one was the last, and the value goes with
/// it. This is the second half of `Event::DropHandle` for the last handle of
/// a counter, and the whole of `Event::DropPackage`.
pub fn claim_given_up(prior: usize) -> (release: ClaimRelease)
    ensures
        release.prior == prior,
        release.last == last_holder(prior as nat),
        forall|s: Ledger|
            s.global == prior ==> #[trigger] claim_released(s) == (Ledger {
                global: count_after_decrement(prior as nat),
                destroyed: if release.last {
                    s.destroyed + 1
                } else {
                    s.destroyed
                },
                ..s
            }),
        forall|s: Ledger|
            s.global == prior && s.packages >= 1 ==> #[trigger] step(s, Event::DropPackage) == (
            Ledger {
                global: count_after_decrement(prior as nat),
                packages: (s.packages - 1) as nat,
                destroyed: if release.last {
                    s.destroyed + 1
                } else {
                    s.destroyed
                },
                ..s
            }),
    opens_invariants none
    no_unwind
{
    ClaimRelease { prior, last: is_last_holder(prior) }
}

} // verus!
