//! Command allocators: backing storage for recorded command lists.  The
//! allocator's own reset call is a foreign method reached through the
//! handle; only the handle type lives here.

use vstd::prelude::*;

verus! {

use crate::com::{Guid, Interface, WeakPtr};

/// The foreign command-allocator interface.
#[derive(Clone, Copy, Hash, Debug)]
pub struct ID3D12CommandAllocator;

impl Interface for ID3D12CommandAllocator {
    open spec fn iid_spec() -> Guid {
        Guid { data1: 0x6102dee4, data2: 0xaf59, data3: 0x4b09, data4: 0xb999_b44d_73f0_9b24 }
    }

    fn iid() -> (g: Guid) {
        Guid { data1: 0x6102dee4, data2: 0xaf59, data3: 0x4b09, data4: 0xb999_b44d_73f0_9b24 }
    }
}

/// A handle to a foreign command allocator.
pub type CommandAllocator = WeakPtr<ID3D12CommandAllocator>;

} // verus!
