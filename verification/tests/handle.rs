//! The handle type itself: null, wrapping, equality, and hashing.

use std::collections::hash_map::DefaultHasher;
use std::hash::{Hash, Hasher};

use d3d12::{ComError, Device, IUnknown, WeakPtr, E_NOINTERFACE, E_POINTER, S_OK};

fn hash_of<T: Hash>(v: &T) -> u64 {
    let mut h = DefaultHasher::new();
    v.hash(&mut h);
    h.finish()
}

#[test]
fn null_handle_is_null() {
    let h = WeakPtr::<IUnknown>::null();
    assert!(h.is_null());
    assert_eq!(h.as_ptr(), 0);
    assert_eq!(h.as_mut_ptr(), 0);
}

#[test]
fn from_raw_keeps_the_address() {
    let h = WeakPtr::<IUnknown>::from_raw(0x4010);
    assert!(!h.is_null());
    assert_eq!(h.as_ptr(), 0x4010);
    assert_eq!(h.as_mut_ptr(), 0x4010);
}

#[test]
fn equality_is_address_based() {
    let a = WeakPtr::<IUnknown>::from_raw(0x4010);
    let b = WeakPtr::<IUnknown>::from_raw(0x4010);
    let c = WeakPtr::<IUnknown>::from_raw(0x5020);
    assert_eq!(a, b);
    assert_ne!(a, c);
}

#[test]
fn null_equals_null_and_never_a_live_handle() {
    let n1 = WeakPtr::<IUnknown>::null();
    let n2 = WeakPtr::<IUnknown>::null();
    let live = WeakPtr::<IUnknown>::from_raw(0x4010);
    assert_eq!(n1, n2);
    assert_ne!(n1, live);
}

#[test]
fn equal_handles_hash_identically() {
    let a = WeakPtr::<IUnknown>::from_raw(0x4010);
    let b = WeakPtr::<IUnknown>::from_raw(0x4010);
    let c = WeakPtr::<IUnknown>::from_raw(0x5020);
    assert_eq!(hash_of(&a), hash_of(&b));
    assert_eq!(a, b);
    // Distinct addresses are not required to collide, and these do not.
    assert_ne!(hash_of(&a), hash_of(&c));
}

#[test]
fn copying_duplicates_the_address_only() {
    let a = Device::from_raw(0x4010);
    let b = a;
    let c = a.clone();
    assert_eq!(a.as_ptr(), b.as_ptr());
    assert_eq!(a.as_ptr(), c.as_ptr());
}

#[test]
fn as_unknown_is_a_same_address_reinterpretation() {
    let d = Device::from_raw(0x4010);
    let u = d.as_unknown();
    assert_eq!(u.as_ptr(), 0x4010);
}

#[test]
fn query_result_success_wraps_the_address() {
    let r = Device::from_query_result(S_OK, 0x4010);
    let h = r.expect("a successful status must yield a handle");
    assert_eq!(h.as_ptr(), 0x4010);
}

#[test]
fn query_result_failure_carries_the_code() {
    let r = Device::from_query_result(E_NOINTERFACE, 0x4010);
    assert_eq!(r.unwrap_err(), ComError { code: E_NOINTERFACE });
}

#[test]
fn query_result_success_without_an_object_is_an_error() {
    let r = Device::from_query_result(S_OK, 0);
    assert_eq!(r.unwrap_err(), ComError { code: E_POINTER });
}
