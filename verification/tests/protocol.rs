//! The casting and release protocol, run against the model runtime.

use d3d12::{
    CommandQueue, Device, ID3D12CommandQueue, ID3D12Device, ID3D12Resource, Interface, Resource,
    RuntimeModel, WeakPtr, E_NOINTERFACE, E_POINTER,
};

/// A fresh model object implementing the device and resource interfaces,
/// handed back as a device handle.
fn device_object(rt: &mut RuntimeModel) -> Device {
    let addr = rt
        .register(vec![ID3D12Device::iid(), ID3D12Resource::iid()])
        .expect("the model has room");
    WeakPtr::from_raw(addr)
}

#[test]
fn creation_starts_with_one_ownership() {
    let mut rt = RuntimeModel::new();
    let dev = device_object(&mut rt);
    assert!(!dev.is_null());
    assert_eq!(rt.ref_count_of(dev.as_ptr()), Some(1));
}

#[test]
fn self_cast_succeeds_with_a_stable_address() {
    let mut rt = RuntimeModel::new();
    let dev = device_object(&mut rt);
    let first: Device = dev.cast(&mut rt).expect("an object implements its own interface");
    let second: Device = dev.cast(&mut rt).expect("an object implements its own interface");
    assert_eq!(first.as_ptr(), second.as_ptr());
    assert_eq!(rt.ref_count_of(dev.as_ptr()), Some(3));
}

#[test]
fn cast_to_another_implemented_interface_is_a_new_ownership() {
    let mut rt = RuntimeModel::new();
    let dev = device_object(&mut rt);
    let res: Resource = dev.cast(&mut rt).expect("the object also implements the resource interface");
    assert!(!res.is_null());
    assert_ne!(res.as_ptr(), dev.as_ptr());
    assert_eq!(rt.ref_count_of(dev.as_ptr()), Some(2));
    assert_eq!(rt.ref_count_of(res.as_ptr()), Some(2));
}

#[test]
fn missing_capability_is_a_typed_error_not_a_handle() {
    let mut rt = RuntimeModel::new();
    let dev = device_object(&mut rt);
    let r: Result<CommandQueue, _> = dev.cast(&mut rt);
    let e = r.expect_err("the object does not implement the queue interface");
    assert_eq!(e.code, E_NOINTERFACE);
    // The failed query left the reference count untouched.
    assert_eq!(rt.ref_count_of(dev.as_ptr()), Some(1));
}

#[test]
fn ownership_round_trip() {
    let mut rt = RuntimeModel::new();
    // Creation: one ownership.
    let dev = device_object(&mut rt);
    assert_eq!(rt.ref_count_of(dev.as_ptr()), Some(1));
    // Cast to a second interface: the runtime already incremented.
    let res: Resource = dev.cast(&mut rt).expect("capability present");
    assert_eq!(rt.ref_count_of(dev.as_ptr()), Some(2));
    // Release the cast-derived ownership: back to one.
    assert_eq!(res.destroy(&mut rt), Ok(1));
    // Release the original ownership: the object is freed.
    assert_eq!(dev.destroy(&mut rt), Ok(0));
    assert_eq!(rt.ref_count_of(dev.as_ptr()), None);
}

#[test]
fn destroying_one_copy_invalidates_all_copies() {
    let mut rt = RuntimeModel::new();
    let dev = device_object(&mut rt);
    let copy = dev;
    // Copying did not change the count.
    assert_eq!(rt.ref_count_of(copy.as_ptr()), Some(1));
    assert_eq!(dev.destroy(&mut rt), Ok(0));
    // Any use of the surviving copy is misuse; the model detects it.
    assert_eq!(rt.ref_count_of(copy.as_ptr()), None);
    let stale: Result<Device, _> = copy.cast(&mut rt);
    assert_eq!(stale.unwrap_err().code, E_POINTER);
}

#[test]
fn double_release_is_detected() {
    let mut rt = RuntimeModel::new();
    let dev = device_object(&mut rt);
    assert_eq!(dev.destroy(&mut rt), Ok(0));
    let again = dev.destroy(&mut rt);
    assert_eq!(again.unwrap_err().code, E_POINTER);
}

#[test]
fn add_ref_and_release_balance() {
    let mut rt = RuntimeModel::new();
    let dev = device_object(&mut rt);
    assert_eq!(rt.add_ref(dev.as_ptr()), Ok(2));
    assert_eq!(rt.add_ref(dev.as_ptr()), Ok(3));
    assert_eq!(rt.release(dev.as_ptr()), Ok(2));
    assert_eq!(rt.release(dev.as_ptr()), Ok(1));
    assert_eq!(rt.ref_count_of(dev.as_ptr()), Some(1));
}

#[test]
fn distinct_objects_never_share_addresses() {
    let mut rt = RuntimeModel::new();
    let first = device_object(&mut rt);
    let second = device_object(&mut rt);
    assert_ne!(first.as_ptr(), second.as_ptr());
    // Releasing one object leaves the other untouched.
    assert_eq!(first.destroy(&mut rt), Ok(0));
    assert_eq!(rt.ref_count_of(second.as_ptr()), Some(1));
}

#[test]
fn a_full_model_refuses_further_creation() {
    let mut rt = RuntimeModel::new();
    let mut last = 0;
    for _ in 0..65536 {
        last = rt
            .register(vec![ID3D12Device::iid()])
            .expect("the model has room until its object bound");
    }
    assert!(rt.register(vec![ID3D12Device::iid()]).is_none());
    // The objects already created are untouched.
    assert_eq!(rt.ref_count_of(last), Some(1));
}
