//! Non-owning, interface-typed handles to foreign reference-counted objects,
//! and the status codes of the foreign call convention.

use vstd::prelude::*;

verus! {

use core::marker::PhantomData;
use vstd::std_specs::cmp::PartialEqSpec;

use crate::runtime::{addr_obj, RuntimeModel};

/// The status code a foreign call returns: values below `0x8000_0000`
/// denote success, all other values are failure codes.
pub const S_OK: u32 = 0;

/// Failure code: the object does not implement the requested interface.
pub const E_NOINTERFACE: u32 = 0x8000_4002;

/// Failure code: an address that does not reach a live foreign object.
pub const E_POINTER: u32 = 0x8000_4003;

/// Failure code: an unspecified foreign-side failure.
pub const E_FAIL: u32 = 0x8000_4005;

/// Whether a foreign status code denotes success (its sign bit is clear).
pub open spec fn succeeded(hr: u32) -> bool {
    hr < 0x8000_0000
}

/// Runtime test matching [`succeeded`].
pub fn is_success(hr: u32) -> (r: bool)
    ensures
        r == succeeded(hr),
{
    hr < 0x8000_0000
}

/// A failed foreign status code, carried as a typed error so that a failed
/// cast or creation can never be mistaken for a usable handle.
#[derive(Clone, Copy, PartialEq, Eq, Structural, Hash, Debug)]
pub struct ComError {
    pub code: u32,
}

/// A 128-bit interface identifier in the foreign runtime's identifier
/// layout: one 4-byte group, two 2-byte groups, one 8-byte group.
#[derive(Clone, Copy, PartialEq, Eq, Structural, Hash, Debug)]
pub struct Guid {
    pub data1: u32,
    pub data2: u16,
    pub data3: u16,
    pub data4: u64,
}

/// The capability contract every wrapped foreign interface type satisfies:
/// a stable identifier, fixed at compile time, used as the argument of the
/// runtime's identity query.
pub trait Interface {
    /// The interface's registered identifier.
    spec fn iid_spec() -> Guid;

    /// Returns the registered identifier.
    fn iid() -> (g: Guid)
        ensures
            g == Self::iid_spec(),
    ;
}

/// The root interface every foreign object supports; it carries the
/// identity-query and reference-count operations.
#[derive(Clone, Copy, Hash, Debug)]
pub struct IUnknown;

impl Interface for IUnknown {
    open spec fn iid_spec() -> Guid {
        Guid { data1: 0x00000000, data2: 0x0000, data3: 0x0000, data4: 0xC000_0000_0000_0046 }
    }

    fn iid() -> (g: Guid) {
        Guid { data1: 0x00000000, data2: 0x0000, data3: 0x0000, data4: 0xC000_0000_0000_0046 }
    }
}

/// A non-owning reference to a foreign object of interface `T`: a single
/// address plus a compile-time interface tag.  Copying a `WeakPtr`
/// duplicates the address only and never touches the foreign reference
/// count; equality and hashing are address-based.  The address `0` stands
/// for "no object".
#[derive(Hash, Debug)]
pub struct WeakPtr<T> {
    addr: usize,
    _interface: PhantomData<T>,
}

impl<T> Clone for WeakPtr<T> {
    /// Copying a handle duplicates the address only; it performs no
    /// reference-count adjustment on the foreign object.
    fn clone(&self) -> (r: Self)
        ensures
            r@ == self@,
    {
        WeakPtr { addr: self.addr, _interface: PhantomData }
    }
}

impl<T> Copy for WeakPtr<T> {}

impl<T> View for WeakPtr<T> {
    type V = usize;

    /// A handle is, mathematically, just the address it carries.
    closed spec fn view(&self) -> usize {
        self.addr
    }
}

impl<T> WeakPtr<T> {
    /// The handle that refers to no object.
    pub fn null() -> (r: Self)
        ensures
            r@ == 0,
    {
        WeakPtr { addr: 0, _interface: PhantomData }
    }

    /// Wrap an arbitrary address with no validation.  The caller must
    /// guarantee that the address is either null or reaches a live foreign
    /// object implementing `T`; this is the sole trust boundary of the
    /// handle abstraction.
    pub fn from_raw(addr: usize) -> (r: Self)
        ensures
            r@ == addr,
    {
        WeakPtr { addr, _interface: PhantomData }
    }

    /// Whether this handle carries the null address.
    pub fn is_null(&self) -> (r: bool)
        ensures
            r == (self@ == 0),
    {
        self.addr == 0
    }

    /// The raw address, for handing to foreign calls that read the object.
    pub fn as_ptr(&self) -> (r: usize)
        ensures
            r == self@,
    {
        self.addr
    }

    /// The raw address, for handing to foreign calls that mutate the object.
    pub fn as_mut_ptr(&self) -> (r: usize)
        ensures
            r == self@,
    {
        self.addr
    }
}

impl<T: Interface> WeakPtr<T> {
    /// Reinterpret this handle as the root interface at the same address.
    /// This is a reinterpretation, not a cast: it relies on every wrapped
    /// interface being layout-compatible with the root interface, and it
    /// performs no reference-count adjustment.
    pub fn as_unknown(&self) -> (r: WeakPtr<IUnknown>)
        requires
            self@ != 0,
        ensures
            r@ == self@,
    {
        WeakPtr { addr: self.addr, _interface: PhantomData }
    }

    /// Interpret the status code and output address of a foreign identity
    /// query or creation call: success with an object yields a handle on
    /// the returned address, failure yields the status code and no handle.
    /// A success status that wrote no object is itself treated as a
    /// failure, so no null handle can ever be mistaken for a usable one.
    pub fn from_query_result(hr: u32, addr: usize) -> (r: Result<WeakPtr<T>, ComError>)
        ensures
            succeeded(hr) && addr != 0 ==> (r matches Ok(h) && h@ == addr),
            succeeded(hr) && addr == 0 ==> (r matches Err(e) && e.code == E_POINTER),
            !succeeded(hr) ==> (r matches Err(e) && e.code == hr),
    {
        if is_success(hr) {
            if addr == 0 {
                Err(ComError { code: E_POINTER })
            } else {
                Ok(WeakPtr::from_raw(addr))
            }
        } else {
            Err(ComError { code: hr })
        }
    }
}

impl<T: Interface> WeakPtr<T> {
    /// The identity query: ask the foreign object this handle reaches for a
    /// view of itself through interface `U`.  On success the runtime has
    /// already incremented the object's reference count — the new handle is
    /// a fresh logical ownership that must be released on its own — and the
    /// answered address is the stable address of `U` on that object, not
    /// necessarily this handle's own.  On failure no handle is produced and
    /// the count is untouched: `E_NOINTERFACE` when the object lacks the
    /// capability, `E_POINTER` when the handle no longer reaches a live
    /// object.  Casting a null handle is a precondition violation, not a
    /// cast to null.
    pub fn cast<U: Interface>(&self, rt: &mut RuntimeModel) -> (r: Result<WeakPtr<U>, ComError>)
        requires
            self@ != 0,
            old(rt).wf(),
            old(rt).valid_addr(self@ as int) ==> old(rt).count_at(self@ as int) < u64::MAX,
        ensures
            final(rt).wf(),
            old(rt).valid_addr(self@ as int) && old(rt).implements(self@ as int, U::iid_spec())
                ==> (r matches Ok(h) && {
                &&& final(rt).objects_spec() == old(rt).with_count(
                    self@ as int,
                    (old(rt).count_at(self@ as int) + 1) as u64,
                )
                &&& final(rt).valid_addr(h@ as int)
                &&& addr_obj(h@ as int) == addr_obj(self@ as int)
                &&& final(rt).iid_at(h@ as int) == U::iid_spec()
                &&& final(rt).count_at(h@ as int) == old(rt).count_at(self@ as int) + 1
            }),
            old(rt).valid_addr(self@ as int) && !old(rt).implements(self@ as int, U::iid_spec())
                ==> (r matches Err(e) && e.code == E_NOINTERFACE && final(rt).objects_spec()
                == old(rt).objects_spec()),
            !old(rt).valid_addr(self@ as int) ==> (r matches Err(e) && e.code == E_POINTER
                && final(rt).objects_spec() == old(rt).objects_spec()),
    {
        match rt.query_interface(self.as_ptr(), U::iid()) {
            Ok(a) => Ok(WeakPtr::from_raw(a)),
            Err(e) => Err(e),
        }
    }

    /// Terminate one logical ownership: decrement the foreign reference
    /// count through the root-interface view.  Returns the remaining count;
    /// at `0` the runtime deallocates the object and every handle copy
    /// sharing this address — however it was produced — is dangling at
    /// once.  A second release through any of those copies is surfaced by
    /// the model as `E_POINTER`.  Destroying a null handle is a
    /// precondition violation.
    pub fn destroy(&self, rt: &mut RuntimeModel) -> (r: Result<u64, ComError>)
        requires
            self@ != 0,
            old(rt).wf(),
        ensures
            final(rt).wf(),
            old(rt).valid_addr(self@ as int) ==> (r matches Ok(c) && {
                &&& c == old(rt).count_at(self@ as int) - 1
                &&& final(rt).objects_spec() == old(rt).with_count(self@ as int, c)
                &&& (c == 0nat ==> forall|b: int|
                    addr_obj(b) == addr_obj(self@ as int) ==> !final(rt).valid_addr(b))
            }),
            !old(rt).valid_addr(self@ as int) ==> (r matches Err(e) && e.code == E_POINTER
                && final(rt).objects_spec() == old(rt).objects_spec()),
    {
        let unknown = self.as_unknown();
        rt.release(unknown.as_ptr())
    }
}

/// A live object always offers the capability its own handle carries:
/// casting a valid handle to the interface it already has cannot fail for
/// want of the capability.
pub proof fn lemma_self_cast_capability(m: RuntimeModel, a: int)
    requires
        m.wf(),
        m.valid_addr(a),
    ensures
        m.implements(a, m.iid_at(a)),
{
    assert(0 <= crate::runtime::addr_iface(a)
        < m.objects_spec()[addr_obj(a)].iids@.len() && m.objects_spec()[addr_obj(
        a,
    )].iids@[crate::runtime::addr_iface(a)] == m.iid_at(a));
}

impl<T> PartialEq for WeakPtr<T> {
    /// Handles compare by address alone.
    fn eq(&self, other: &WeakPtr<T>) -> (r: bool) {
        self.addr == other.addr
    }
}

impl<T> Eq for WeakPtr<T> {}

impl<T> vstd::std_specs::cmp::PartialEqSpecImpl for WeakPtr<T> {
    open spec fn obeys_eq_spec() -> bool {
        true
    }

    open spec fn eq_spec(&self, other: &WeakPtr<T>) -> bool {
        self@ == other@
    }
}

/// Two handles of one interface are equal exactly when they carry the same
/// address; in particular two null handles are equal, and a null handle is
/// never equal to a non-null one.
pub proof fn lemma_eq_is_address_eq<T>(a: WeakPtr<T>, b: WeakPtr<T>)
    ensures
        a.eq_spec(&b) <==> a@ == b@,
{
}

} // verus!
