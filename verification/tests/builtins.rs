//! The built-in implementations: trivial values, borrowed views, optional
//! containers, text buffers, and shared-ownership handles.

use std::sync::Arc;

use fallacy_clone::builtins::WeakRef;
use fallacy_clone::TryClone;

#[test]
fn trivial_values_clone_to_equal_values() {
    assert_eq!(true.try_clone().unwrap(), true);
    assert_eq!(7u8.try_clone().unwrap(), 7u8);
    assert_eq!(7u16.try_clone().unwrap(), 7u16);
    assert_eq!(7u32.try_clone().unwrap(), 7u32);
    assert_eq!(7u64.try_clone().unwrap(), 7u64);
    assert_eq!(7u128.try_clone().unwrap(), 7u128);
    assert_eq!(7usize.try_clone().unwrap(), 7usize);
    assert_eq!((-7i8).try_clone().unwrap(), -7i8);
    assert_eq!((-7i16).try_clone().unwrap(), -7i16);
    assert_eq!((-7i32).try_clone().unwrap(), -7i32);
    assert_eq!((-7i64).try_clone().unwrap(), -7i64);
    assert_eq!((-7i128).try_clone().unwrap(), -7i128);
    assert_eq!((-7isize).try_clone().unwrap(), -7isize);
}

#[test]
fn trivial_value_clone_from_overwrites() {
    let mut dest = 1u64;
    dest.try_clone_from(&42u64).unwrap();
    assert_eq!(dest, 42u64);
}

#[test]
fn borrowed_view_clones_to_the_same_referent() {
    let v = 5i64;
    let r: &i64 = &v;
    let c: &i64 = TryClone::try_clone(&r).unwrap();
    assert!(std::ptr::eq(r, c));
}

#[test]
fn option_clones_both_ways() {
    let none: Option<u32> = None;
    assert_eq!(none.try_clone().unwrap(), None);

    let some = Some(11u32);
    assert_eq!(some.try_clone().unwrap(), Some(11u32));
}

#[test]
fn option_clone_from_reuses_the_present_value() {
    let mut dest = Some(String::with_capacity(32));
    let inner_ptr = dest.as_ref().unwrap().as_ptr();
    let src = Some(String::from("hello"));
    dest.try_clone_from(&src).unwrap();
    assert_eq!(dest.as_deref(), Some("hello"));
    assert_eq!(dest.as_ref().unwrap().as_ptr(), inner_ptr);

    dest.try_clone_from(&None).unwrap();
    assert_eq!(dest, None);
}

#[test]
fn string_clones_to_equal_content() {
    let s = String::from("fallible");
    let c = s.try_clone().unwrap();
    assert_eq!(c, s);
    assert_ne!(c.as_ptr(), s.as_ptr());

    let empty = String::new();
    assert_eq!(empty.try_clone().unwrap(), empty);
}

#[test]
fn string_clone_from_reuses_sufficient_capacity() {
    let mut dest = String::with_capacity(64);
    dest.push_str("old contents that are longer than the source");
    let backing = dest.as_ptr();
    let src = String::from("short");
    dest.try_clone_from(&src).unwrap();
    assert_eq!(dest, "short");
    assert_eq!(dest.as_ptr(), backing);
}

#[test]
fn string_clone_from_grows_when_capacity_lacks() {
    let mut dest = String::new();
    let src = String::from("a source longer than an empty buffer");
    dest.try_clone_from(&src).unwrap();
    assert_eq!(dest, src);
}

#[test]
fn shared_handle_clones_to_the_same_storage() {
    let a: Arc<u64> = Arc::new(99);
    let before = Arc::strong_count(&a);
    let b = a.try_clone().unwrap();
    assert!(Arc::ptr_eq(&a, &b));
    assert_eq!(Arc::strong_count(&a), before + 1);
}

#[test]
fn weak_reference_clones_to_the_same_allocation() {
    let a: Arc<u64> = Arc::new(5);
    let w = WeakRef::downgrade(&a);
    assert_eq!(Arc::weak_count(&a), 1);
    let w2 = w.try_clone().unwrap();
    assert_eq!(Arc::weak_count(&a), 2);
    let up = w2.upgrade().unwrap();
    assert!(Arc::ptr_eq(&a, &up));
    drop(a);
    drop(up);
    assert!(w.upgrade().is_none());
}
