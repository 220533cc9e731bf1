//! Fences: the foreign synchronization objects command queues signal.
//! Waiting and signalling are foreign calls reached through the handle;
//! only the handle type lives here.

use vstd::prelude::*;

verus! {

use crate::com::{Guid, Interface, WeakPtr};

/// The foreign fence interface.
#[derive(Clone, Copy, Hash, Debug)]
pub struct ID3D12Fence;

impl Interface for ID3D12Fence {
    open spec fn iid_spec() -> Guid {
        Guid { data1: 0x0a753dcf, data2: 0xc4d8, data3: 0x4b91, data4: 0xadf6_be5a_60d9_5a76 }
    }

    fn iid() -> (g: Guid) {
        Guid { data1: 0x0a753dcf, data2: 0xc4d8, data3: 0x4b91, data4: 0xadf6_be5a_60d9_5a76 }
    }
}

/// A handle to a foreign fence.
pub type Fence = WeakPtr<ID3D12Fence>;

} // verus!
