use mlsp::Mlsp;
use mlsp::MlspPackage;
use std::borrow::Borrow;
use std::cell::Cell;
use std::rc::Rc;

/// A value that counts how often it is destroyed.
struct Probe {
    label: u32,
    destroyed: Rc<Cell<u32>>,
}

impl Drop for Probe {
    fn drop(&mut self) {
        self.destroyed.set(self.destroyed.get() + 1);
    }
}

fn probe(label: u32) -> (Probe, Rc<Cell<u32>>) {
    let destroyed = Rc::new(Cell::new(0));
    (Probe { label, destroyed: Rc::clone(&destroyed) }, destroyed)
}

fn sendable<T: Send>(_value: &T) -> bool {
    true
}

fn shareable<T: Sync>(_value: &T) -> bool {
    true
}

#[test]
fn local_sharing() {
    let a = Mlsp::new(1u8);
    let b = a.clone();
    let c = b.clone();

    let d = c.package();
    let _d2 = d.unpackage();

    let e = c.package();
    let _e2 = e.unpackage();

    // Convince clippy that we need these values
    drop(c);
    drop(b);
}

#[test]
fn new_handle_has_one_claim_and_one_handle() {
    let a = Mlsp::new(41u64);
    assert_eq!(*a.borrow(), 41);
    assert_eq!(a.local_count(), 1);
    assert_eq!(a.global_count(), 1);
}

#[test]
fn borrow_and_as_ref_read_the_value() {
    let a = Mlsp::new(String::from("payload"));
    let by_method: &String = a.borrow();
    assert_eq!(by_method.as_str(), "payload");
    assert_eq!(a.as_ref().as_str(), "payload");
    let by_borrow: &String = Borrow::borrow(&a);
    assert_eq!(by_borrow.as_str(), "payload");
    let by_as_ref: &String = AsRef::as_ref(&a);
    assert_eq!(by_as_ref.as_str(), "payload");
    assert!(std::ptr::eq(by_method, by_as_ref));
}

#[test]
fn clone_counts_locally_only() {
    let a = Mlsp::new(7u32);
    let before = a.global_count();
    let b = a.clone();
    let c = b.clone();
    assert_eq!(a.global_count(), before);
    assert_eq!(a.local_count(), 3);
    assert_eq!(b.local_count(), 3);
    assert_eq!(c.local_count(), 3);
    assert_eq!(*c.borrow(), 7);
    assert!(std::ptr::eq(a.borrow(), c.borrow()));
    drop(b);
    assert_eq!(a.local_count(), 2);
    assert_eq!(a.global_count(), before);
    drop(c);
    assert_eq!(a.local_count(), 1);
    assert_eq!(a.global_count(), before);
}

#[test]
fn package_adds_a_claim_and_leaves_the_handle() {
    let a = Mlsp::new(9i16);
    let b = a.clone();
    let package = a.package();
    assert_eq!(a.global_count(), 2);
    assert_eq!(package.global_count(), 2);
    assert_eq!(a.local_count(), 2);
    assert_eq!(*a.borrow(), 9);
    drop(package);
    assert_eq!(a.global_count(), 1);
    assert_eq!(b.local_count(), 2);
}

#[test]
fn package_clone_adds_a_claim() {
    let a = Mlsp::new(5u8);
    let first = a.package();
    let second = first.clone();
    let third = second.clone();
    assert_eq!(a.global_count(), 4);
    assert_eq!(a.local_count(), 1);
    drop(first);
    assert_eq!(third.global_count(), 3);
    drop(second);
    drop(third);
    assert_eq!(a.global_count(), 1);
}

#[test]
fn unpackage_starts_a_new_local_counter_without_a_new_claim() {
    let a = Mlsp::new(12u32);
    let _a2 = a.clone();
    let package = a.package();
    let claims = package.global_count();
    let b = package.unpackage();
    assert_eq!(b.global_count(), claims);
    assert_eq!(b.local_count(), 1);
    assert_eq!(a.local_count(), 2);
    let b2 = b.clone();
    assert_eq!(b2.local_count(), 2);
    assert_eq!(a.local_count(), 2);
    assert_eq!(a.global_count(), claims);
}

#[test]
fn round_trip_reads_the_same_value() {
    let a = Mlsp::new(vec![1u8, 2, 3]);
    let before = a.global_count();
    let back = a.package().unpackage();
    assert_eq!(back.borrow(), a.borrow());
    assert!(std::ptr::eq(back.borrow(), a.borrow()));
    assert_eq!(a.global_count(), before + 1);
    drop(back);
    assert_eq!(a.global_count(), before);
}

#[test]
fn last_handle_of_a_counter_gives_the_claim_up() {
    let a = Mlsp::new(3u8);
    let b = a.package().unpackage();
    let b2 = b.clone();
    assert_eq!(a.global_count(), 2);
    drop(b);
    assert_eq!(a.global_count(), 2);
    drop(b2);
    assert_eq!(a.global_count(), 1);
}

#[test]
fn immediate_drop_destroys_once() {
    let (value, destroyed) = probe(1);
    let a = Mlsp::new(value);
    assert_eq!(destroyed.get(), 0);
    drop(a);
    assert_eq!(destroyed.get(), 1);
}

#[test]
fn value_is_destroyed_once_after_the_last_holder() {
    let (value, destroyed) = probe(2);
    let a = Mlsp::new(value);
    let b = a.clone();
    let package = b.package();
    let spare = package.clone();
    let c = package.unpackage();
    let c2 = c.clone();
    assert_eq!(c2.borrow().label, 2);
    drop(a);
    assert_eq!(destroyed.get(), 0);
    drop(c);
    assert_eq!(destroyed.get(), 0);
    drop(b);
    assert_eq!(destroyed.get(), 0);
    assert_eq!(c2.global_count(), 2);
    drop(c2);
    assert_eq!(destroyed.get(), 0);
    assert_eq!(spare.global_count(), 1);
    drop(spare);
    assert_eq!(destroyed.get(), 1);
}

#[test]
fn value_outlives_its_first_handle_in_a_package() {
    let (value, destroyed) = probe(3);
    let package: MlspPackage<Probe> = Mlsp::new(value).package();
    assert_eq!(destroyed.get(), 0);
    assert_eq!(package.global_count(), 1);
    let handle = package.unpackage();
    assert_eq!(handle.borrow().label, 3);
    assert_eq!(destroyed.get(), 0);
    drop(handle);
    assert_eq!(destroyed.get(), 1);
}

#[test]
fn fan_out_to_many_counters_destroys_once() {
    let (value, destroyed) = probe(4);
    let first = Mlsp::new(value);
    let mut packages = Vec::new();
    for _ in 0..50 {
        packages.push(first.package());
    }
    assert_eq!(first.global_count(), 51);
    let mut handles = Vec::new();
    for package in packages {
        let handle = package.unpackage();
        let beside = handle.clone();
        assert_eq!(handle.borrow().label, 4);
        assert_eq!(beside.borrow().label, 4);
        assert_eq!(beside.local_count(), 2);
        handles.push(handle);
    }
    assert_eq!(first.global_count(), 51);
    assert_eq!(first.local_count(), 1);
    drop(first);
    assert_eq!(destroyed.get(), 0);
    while let Some(handle) = handles.pop() {
        assert_eq!(handle.local_count(), 1);
        assert_eq!(handle.global_count(), handles.len() + 1);
        assert_eq!(destroyed.get(), 0);
        drop(handle);
    }
    assert_eq!(destroyed.get(), 1);
}

#[test]
fn package_that_became_a_handle_gives_no_claim_up() {
    let a = Mlsp::new(8u16);
    let package = a.package();
    assert_eq!(a.global_count(), 2);
    let b = package.unpackage();
    assert_eq!(a.global_count(), 2);
    assert_eq!(b.global_count(), 2);
    drop(b);
    assert_eq!(a.global_count(), 1);
    assert_eq!(*a.borrow(), 8);
}

#[test]
fn clone_then_drop_restores_both_counters() {
    let a = Mlsp::new(6u8);
    let _keep = a.package();
    let local = a.local_count();
    let global = a.global_count();
    let c = a.clone();
    drop(c);
    assert_eq!(a.local_count(), local);
    assert_eq!(a.global_count(), global);
    let q = _keep.clone();
    assert_eq!(a.global_count(), global + 1);
    drop(q);
    assert_eq!(a.global_count(), global);
}

#[test]
fn package_may_cross_threads() {
    let a = Mlsp::new(1u8);
    let package = a.package();
    assert!(sendable(&package));
    assert!(shareable(&package));
}
