use mlsp::counter::decremented;
use mlsp::counter::incremented;
use mlsp::counter::is_last_holder;
use mlsp::counter::new_local_counter;
use mlsp::counter::CountChange;
use mlsp::protocol::claim_given_up;
use mlsp::protocol::handle_cloned;
use mlsp::protocol::handle_released;
use mlsp::protocol::lineage_started;
use mlsp::protocol::ClaimRelease;
use mlsp::MlspInner;

#[test]
fn incremented_adds_one() {
    assert_eq!(incremented(0), 1);
    assert_eq!(incremented(5), 6);
    assert_eq!(incremented(usize::MAX - 1), usize::MAX);
}

#[test]
fn incremented_wraps_at_the_top() {
    assert_eq!(incremented(usize::MAX), 0);
}

#[test]
fn decremented_takes_one() {
    assert_eq!(decremented(1), 0);
    assert_eq!(decremented(6), 5);
    assert_eq!(decremented(usize::MAX), usize::MAX - 1);
}

#[test]
fn decremented_wraps_below_zero() {
    assert_eq!(decremented(0), usize::MAX);
}

#[test]
fn last_holder_is_the_one_who_saw_one() {
    assert!(is_last_holder(1));
    assert!(!is_last_holder(0));
    assert!(!is_last_holder(2));
    assert!(!is_last_holder(usize::MAX));
}

#[test]
fn local_counter_starts_at_one() {
    let counter = new_local_counter();
    assert_eq!(counter.get(), 1);
}

#[test]
fn local_counter_reports_each_change() {
    let mut counter = new_local_counter();
    assert_eq!(counter.increment(), CountChange { prior: 1, now: 2 });
    assert_eq!(counter.get(), 2);
    assert_eq!(counter.increment(), CountChange { prior: 2, now: 3 });
    assert_eq!(counter.decrement(), CountChange { prior: 3, now: 2 });
    assert_eq!(counter.decrement(), CountChange { prior: 2, now: 1 });
    assert_eq!(counter.decrement(), CountChange { prior: 1, now: 0 });
    assert_eq!(counter.get(), 0);
}

#[test]
fn block_starts_with_one_claim() {
    let block = MlspInner::new(17u32);
    assert_eq!(block.count(), 1);
    assert_eq!(*block.borrow(), 17);
}

#[test]
fn block_increment_returns_prior_count() {
    let block = MlspInner::new(String::from("shared"));
    assert_eq!(block.increment(), 1);
    assert_eq!(block.count(), 2);
    assert_eq!(block.increment(), 2);
    assert_eq!(block.count(), 3);
    assert_eq!(block.borrow().as_str(), "shared");
}

#[test]
fn block_decrement_returns_prior_count() {
    let block = MlspInner::new(3u8);
    block.increment();
    block.increment();
    assert_eq!(block.decrement(), 3);
    assert_eq!(block.count(), 2);
    assert_eq!(block.decrement(), 2);
    assert_eq!(block.count(), 1);
    let prior = block.decrement();
    assert_eq!(prior, 1);
    assert!(is_last_holder(prior));
    assert_eq!(block.count(), 0);
}

#[test]
fn started_lineage_counts_one_handle() {
    let counter = lineage_started();
    assert_eq!(counter.get(), 1);
}

#[test]
fn cloned_handle_is_counted() {
    let mut counter = lineage_started();
    handle_cloned(&mut counter);
    assert_eq!(counter.get(), 2);
    handle_cloned(&mut counter);
    assert_eq!(counter.get(), 3);
}

#[test]
fn released_handle_beside_others_keeps_the_claim() {
    let mut counter = lineage_started();
    handle_cloned(&mut counter);
    handle_cloned(&mut counter);
    assert!(!handle_released(&mut counter));
    assert_eq!(counter.get(), 2);
    assert!(!handle_released(&mut counter));
    assert_eq!(counter.get(), 1);
}

#[test]
fn last_released_handle_gives_the_claim_up() {
    let mut counter = lineage_started();
    assert!(handle_released(&mut counter));
    assert_eq!(counter.get(), 0);
}

#[test]
fn released_handle_of_an_empty_counter_wraps() {
    let mut counter = lineage_started();
    assert!(handle_released(&mut counter));
    assert!(!handle_released(&mut counter));
    assert_eq!(counter.get(), usize::MAX);
}

#[test]
fn claim_that_saw_one_was_the_last() {
    assert_eq!(claim_given_up(1), ClaimRelease { prior: 1, last: true });
    assert_eq!(claim_given_up(2), ClaimRelease { prior: 2, last: false });
    assert_eq!(claim_given_up(0), ClaimRelease { prior: 0, last: false });
    assert_eq!(claim_given_up(usize::MAX), ClaimRelease { prior: usize::MAX, last: false });
}
