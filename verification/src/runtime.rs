//! An executable model of the foreign runtime's object system: objects with
//! an atomic reference count and a fixed set of implemented interfaces,
//! reached through addresses.  The casting and release protocol of
//! [`crate::com::WeakPtr`] is stated and proved against this model, and the
//! model gives tests a faithful stand-in for the foreign runtime, which
//! cannot run here.
//!
//! Addresses are laid out deterministically: object `k` owns the address
//! range starting at `(k + 1) * OBJ_STRIDE`, and its `j`-th interface lives
//! at offset `j * IFACE_STRIDE` inside that range.  Distinct interfaces of
//! one object therefore expose distinct, stable addresses, mirroring how
//! the foreign runtime may answer an identity query with an address other
//! than the one queried.

use vstd::prelude::*;

verus! {

use crate::com::{ComError, Guid, E_NOINTERFACE, E_POINTER};

/// Spacing between the address ranges of consecutive objects.
pub const OBJ_STRIDE: usize = 4096;

/// Spacing between the addresses of one object's interfaces.
pub const IFACE_STRIDE: usize = 16;

/// Most objects a model runtime can hold; keeps every address well inside
/// the machine word.
pub const MAX_OBJECTS: usize = 65536;

/// Most interfaces one object can implement; keeps interface offsets inside
/// one object's address range.
pub const MAX_IFACES: usize = 256;

/// One foreign object: its reference count (`0` means the runtime has
/// deallocated it) and the identifiers of the interfaces it implements.
pub struct ObjectState {
    pub ref_count: u64,
    pub iids: Vec<Guid>,
}

/// The model runtime: every object ever created, in creation order.
/// Deallocated objects stay as entries with `ref_count == 0`, so their
/// addresses are never reused — like a runtime that never recycles, which
/// is the friendliest legal behavior for detecting dangling handles.
pub struct RuntimeModel {
    objects: Vec<ObjectState>,
}

/// The address of object `k`'s interface number `j`.
pub open spec fn slot_addr(k: int, j: int) -> int {
    (k + 1) * (OBJ_STRIDE as int) + j * (IFACE_STRIDE as int)
}

/// The object index an address falls in.
pub open spec fn addr_obj(a: int) -> int {
    a / (OBJ_STRIDE as int) - 1
}

/// The interface index an address falls on within its object.
pub open spec fn addr_iface(a: int) -> int {
    (a % (OBJ_STRIDE as int)) / (IFACE_STRIDE as int)
}

/// A sequence of identifiers with no repetition.
pub open spec fn distinct_iids(s: Seq<Guid>) -> bool {
    forall|i: int, j: int| 0 <= i < j < s.len() ==> s[i] != s[j]
}

impl RuntimeModel {
    /// The model's mathematical content: the sequence of object states.
    pub closed spec fn objects_spec(self) -> Seq<ObjectState> {
        self.objects@
    }

    /// Well-formedness: bounded object and interface counts, every object
    /// with at least one interface, and no duplicate identifiers within an
    /// object.  Every operation preserves this.
    pub open spec fn wf(self) -> bool {
        &&& self.objects_spec().len() <= MAX_OBJECTS
        &&& forall|k: int|
            0 <= k < self.objects_spec().len() ==> {
                &&& 1 <= (#[trigger] self.objects_spec()[k]).iids@.len() <= MAX_IFACES
                &&& distinct_iids(self.objects_spec()[k].iids@)
            }
    }

    /// Whether `a` is the address of a live object's interface.
    pub open spec fn valid_addr(self, a: int) -> bool {
        &&& a % (IFACE_STRIDE as int) == 0
        &&& 0 <= addr_obj(a) < self.objects_spec().len()
        &&& 0 <= addr_iface(a) < self.objects_spec()[addr_obj(a)].iids@.len()
        &&& self.objects_spec()[addr_obj(a)].ref_count > 0
    }

    /// The identifier of the interface an address points at.
    pub open spec fn iid_at(self, a: int) -> Guid {
        self.objects_spec()[addr_obj(a)].iids@[addr_iface(a)]
    }

    /// The reference count of the object an address falls in.
    pub open spec fn count_at(self, a: int) -> u64 {
        self.objects_spec()[addr_obj(a)].ref_count
    }

    /// Whether the object behind `a` implements interface `iid`.
    pub open spec fn implements(self, a: int, iid: Guid) -> bool {
        exists|j: int|
            0 <= j < self.objects_spec()[addr_obj(a)].iids@.len()
                && self.objects_spec()[addr_obj(a)].iids@[j] == iid
    }

    /// The model after the object behind `a` had its count set to `c`.
    pub open spec fn with_count(self, a: int, c: u64) -> Seq<ObjectState> {
        self.objects_spec().update(
            addr_obj(a),
            ObjectState { ref_count: c, iids: self.objects_spec()[addr_obj(a)].iids },
        )
    }

    /// An empty model runtime.
    pub fn new() -> (r: RuntimeModel)
        ensures
            r.wf(),
            r.objects_spec().len() == 0,
    {
        RuntimeModel { objects: Vec::new() }
    }

    /// Runtime test matching [`RuntimeModel::valid_addr`].
    fn check_addr(&self, addr: usize) -> (r: bool)
        ensures
            r == self.valid_addr(addr as int),
    {
        if addr % IFACE_STRIDE != 0 {
            return false;
        }
        let k = addr / OBJ_STRIDE;
        if k == 0 || k - 1 >= self.objects.len() {
            return false;
        }
        let j = (addr % OBJ_STRIDE) / IFACE_STRIDE;
        let obj = &self.objects[k - 1];
        j < obj.iids.len() && obj.ref_count > 0
    }

    /// Observe the reference count of the object behind a live address.
    pub fn ref_count_of(&self, addr: usize) -> (r: Option<u64>)
        ensures
            self.valid_addr(addr as int) ==> r == Some(self.count_at(addr as int)),
            !self.valid_addr(addr as int) ==> r is None,
    {
        if self.check_addr(addr) {
            Some(self.objects[addr / OBJ_STRIDE - 1].ref_count)
        } else {
            None
        }
    }

    /// A creation call: register one new object implementing exactly the
    /// interfaces in `iids`, with its count already at `1` — the factory
    /// convention that a creation call hands back an already-incremented
    /// object.  Returns the address of the object's first interface, or
    /// `None` when the model is full.
    pub fn register(&mut self, iids: Vec<Guid>) -> (r: Option<usize>)
        requires
            old(self).wf(),
            1 <= iids@.len() <= MAX_IFACES,
            distinct_iids(iids@),
        ensures
            final(self).wf(),
            old(self).objects_spec().len() < MAX_OBJECTS ==> (r matches Some(a) && {
                &&& final(self).objects_spec() == old(self).objects_spec().push(
                    ObjectState { ref_count: 1, iids },
                )
                &&& a as int == slot_addr(old(self).objects_spec().len() as int, 0)
                &&& final(self).valid_addr(a as int)
                &&& addr_obj(a as int) == old(self).objects_spec().len()
                &&& final(self).count_at(a as int) == 1
                &&& forall|j: int| 0 <= j < iids@.len() ==> {
                    &&& final(self).valid_addr(#[trigger] slot_addr(addr_obj(a as int), j))
                    &&& final(self).iid_at(slot_addr(addr_obj(a as int), j)) == iids@[j]
                }
            }),
            old(self).objects_spec().len() == MAX_OBJECTS ==> (r is None && final(self).objects_spec()
                == old(self).objects_spec()),
    {
        if self.objects.len() == MAX_OBJECTS {
            return None;
        }
        let k = self.objects.len();
        self.objects.push(ObjectState { ref_count: 1, iids });
        let addr = (k + 1) * OBJ_STRIDE;
        proof {
            assert forall|j: int| 0 <= j < self.objects_spec()[k as int].iids@.len() implies {
                &&& self.valid_addr(#[trigger] slot_addr(k as int, j))
                &&& self.iid_at(slot_addr(k as int, j)) == self.objects_spec()[k as int].iids@[j]
            } by {
                lemma_slot_addr_decomposes(k as int, j);
            }
        }
        Some(addr)
    }

    /// The identity query: ask the object behind `addr` for interface
    /// `iid`.  When the object is live and implements `iid`, the query
    /// succeeds, increments the object's count by one (a fresh logical
    /// ownership), and answers with the stable address of that interface —
    /// not necessarily `addr` itself.  When the object lacks the
    /// capability, the query fails with `E_NOINTERFACE` and changes
    /// nothing.  A dangling or null address fails with `E_POINTER` and
    /// changes nothing; the real runtime would treat that as undefined
    /// behavior, which the model sharpens into a detected error.
    pub fn query_interface(&mut self, addr: usize, iid: Guid) -> (r: Result<usize, ComError>)
        requires
            old(self).wf(),
            old(self).valid_addr(addr as int) ==> old(self).count_at(addr as int) < u64::MAX,
        ensures
            final(self).wf(),
            old(self).valid_addr(addr as int) && old(self).implements(addr as int, iid) ==> (
            r matches Ok(a2) && {
                &&& final(self).objects_spec() == old(self).with_count(
                    addr as int,
                    (old(self).count_at(addr as int) + 1) as u64,
                )
                &&& final(self).valid_addr(a2 as int)
                &&& addr_obj(a2 as int) == addr_obj(addr as int)
                &&& final(self).iid_at(a2 as int) == iid
                &&& final(self).count_at(a2 as int) == old(self).count_at(addr as int) + 1
            }),
            old(self).valid_addr(addr as int) && !old(self).implements(addr as int, iid) ==> (
            r matches Err(e) && e.code == E_NOINTERFACE && final(self).objects_spec() == old(
                self,
            ).objects_spec()),
            !old(self).valid_addr(addr as int) ==> (r matches Err(e) && e.code == E_POINTER
                && final(self).objects_spec() == old(self).objects_spec()),
    {
        if !self.check_addr(addr) {
            return Err(ComError { code: E_POINTER });
        }
        let k = addr / OBJ_STRIDE - 1;
        let n = self.objects[k].iids.len();
        let mut j: usize = 0;
        while j < n
            invariant
                self.objects_spec() == old(self).objects_spec(),
                self.wf(),
                self.valid_addr(addr as int),
                self.count_at(addr as int) < u64::MAX,
                k == addr_obj(addr as int),
                n == self.objects_spec()[k as int].iids@.len(),
                j <= n,
                forall|i: int| 0 <= i < j ==> self.objects_spec()[k as int].iids@[i] != iid,
            decreases n - j,
        {
            if self.objects[k].iids[j] == iid {
                let c = self.objects[k].ref_count;
                self.objects[k].ref_count = c + 1;
                let a2 = (k + 1) * OBJ_STRIDE + j * IFACE_STRIDE;
                proof {
                    lemma_slot_addr_decomposes(k as int, j as int);
                    assert(self.objects_spec() =~= old(self).with_count(
                        addr as int,
                        (old(self).count_at(addr as int) + 1) as u64,
                    ));
                }
                return Ok(a2);
            }
            j += 1;
        }
        Err(ComError { code: E_NOINTERFACE })
    }

    /// One increment of the foreign reference count: a further logical
    /// ownership of the same object.  Fails with `E_POINTER` on an address
    /// that reaches no live object.
    pub fn add_ref(&mut self, addr: usize) -> (r: Result<u64, ComError>)
        requires
            old(self).wf(),
            old(self).valid_addr(addr as int) ==> old(self).count_at(addr as int) < u64::MAX,
        ensures
            final(self).wf(),
            old(self).valid_addr(addr as int) ==> (r matches Ok(c) && {
                &&& c == old(self).count_at(addr as int) + 1
                &&& final(self).objects_spec() == old(self).with_count(addr as int, c)
            }),
            !old(self).valid_addr(addr as int) ==> (r matches Err(e) && e.code == E_POINTER
                && final(self).objects_spec() == old(self).objects_spec()),
    {
        if !self.check_addr(addr) {
            return Err(ComError { code: E_POINTER });
        }
        let k = addr / OBJ_STRIDE - 1;
        let c = self.objects[k].ref_count;
        self.objects[k].ref_count = c + 1;
        proof {
            assert(self.objects_spec() =~= old(self).with_count(addr as int, (c + 1) as u64));
        }
        Ok(c + 1)
    }

    /// One decrement of the foreign reference count: the end of one logical
    /// ownership.  Returns the remaining count; at `0` the runtime
    /// deallocates the object, and every address into it — every
    /// outstanding handle copy — stops being valid at once.  Fails with
    /// `E_POINTER` on an address that reaches no live object, which is how
    /// the model surfaces a double release.
    pub fn release(&mut self, addr: usize) -> (r: Result<u64, ComError>)
        requires
            old(self).wf(),
        ensures
            final(self).wf(),
            old(self).valid_addr(addr as int) ==> (r matches Ok(c) && {
                &&& c == old(self).count_at(addr as int) - 1
                &&& final(self).objects_spec() == old(self).with_count(addr as int, c)
                &&& (c == 0nat ==> forall|b: int|
                    addr_obj(b) == addr_obj(addr as int) ==> !final(self).valid_addr(b))
            }),
            !old(self).valid_addr(addr as int) ==> (r matches Err(e) && e.code == E_POINTER
                && final(self).objects_spec() == old(self).objects_spec()),
    {
        if !self.check_addr(addr) {
            return Err(ComError { code: E_POINTER });
        }
        let k = addr / OBJ_STRIDE - 1;
        let c = self.objects[k].ref_count;
        self.objects[k].ref_count = c - 1;
        proof {
            assert(self.objects_spec() =~= old(self).with_count(addr as int, (c - 1) as u64));
        }
        Ok(c - 1)
    }
}

/// The address layout round-trips: `slot_addr(k, j)` decomposes back into
/// object `k` and interface `j`, and is interface-aligned.
pub proof fn lemma_slot_addr_decomposes(k: int, j: int)
    requires
        0 <= k,
        0 <= j < MAX_IFACES,
    ensures
        addr_obj(slot_addr(k, j)) == k,
        addr_iface(slot_addr(k, j)) == j,
        slot_addr(k, j) % (IFACE_STRIDE as int) == 0,
{
    let a = slot_addr(k, j);
    assert(a == (k + 1) * 4096 + j * 16);
    assert(0 <= j * 16 < 4096) by (nonlinear_arith)
        requires 0 <= j < 256,
    ;
    assert(a / 4096 == k + 1 && a % 4096 == j * 16) by (nonlinear_arith)
        requires a == (k + 1) * 4096 + j * 16 && 0 <= j * 16 < 4096 && 0 <= k,
    ;
    assert((j * 16) / 16 == j && (j * 16) % 16 == 0) by (nonlinear_arith);
    assert(a % 16 == 0) by (nonlinear_arith)
        requires a % 4096 == j * 16 && (j * 16) % 16 == 0,
    ;
}

/// Each live address is `slot_addr` of its own decomposition.
pub proof fn lemma_addr_recomposes(m: RuntimeModel, a: int)
    requires
        m.wf(),
        m.valid_addr(a),
    ensures
        a == slot_addr(addr_obj(a), addr_iface(a)),
{
    let q = a / 4096;
    let r = a % 4096;
    assert(a == q * 4096 + r) by (nonlinear_arith)
        requires q == a / 4096 && r == a % 4096,
    ;
    assert(r == (r / 16) * 16 + r % 16) by (nonlinear_arith)
        requires r == a % 4096,
    ;
    assert(a % 16 == r % 16) by (nonlinear_arith)
        requires r == a % 4096,
    ;
}

/// One cast and one release cancel: releasing the fresh ownership a
/// successful identity query produced restores the reference count the
/// object had before the query, and with it the whole runtime state.
/// `m0` is the state before the query, `m1` the state after it answered
/// with address `b` on the object of `a`, and `m2` the state after `b`
/// was released.
pub proof fn lemma_query_release_round_trip(
    m0: RuntimeModel,
    m1: RuntimeModel,
    m2: RuntimeModel,
    a: int,
    b: int,
)
    requires
        m0.wf(),
        m0.valid_addr(a),
        m0.count_at(a) < u64::MAX,
        addr_obj(b) == addr_obj(a),
        m1.objects_spec() == m0.with_count(a, (m0.count_at(a) + 1) as u64),
        m2.objects_spec() == m1.with_count(b, (m1.count_at(b) - 1) as u64),
    ensures
        m2.objects_spec() =~= m0.objects_spec(),
{
    let k = addr_obj(a);
    assert(m1.objects_spec()[k].ref_count == m0.count_at(a) + 1);
    assert(m2.objects_spec()[k] == ObjectState {
        ref_count: m0.count_at(a),
        iids: m0.objects_spec()[k].iids,
    });
}

/// Within one live object, an interface's address is unique: two live
/// addresses of the same object carrying the same identifier are equal.
/// This is what makes repeated casts to one interface answer with one
/// stable address.
pub proof fn lemma_iface_addr_unique(m: RuntimeModel, a1: int, a2: int)
    requires
        m.wf(),
        m.valid_addr(a1),
        m.valid_addr(a2),
        addr_obj(a1) == addr_obj(a2),
        m.iid_at(a1) == m.iid_at(a2),
    ensures
        a1 == a2,
{
    let k = addr_obj(a1);
    let s = m.objects_spec()[k].iids@;
    assert(distinct_iids(s));
    if addr_iface(a1) != addr_iface(a2) {
        assert(s[addr_iface(a1)] != s[addr_iface(a2)]);
    }
    lemma_addr_recomposes(m, a1);
    lemma_addr_recomposes(m, a2);
}

} // verus!
