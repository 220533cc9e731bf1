//! The foreign validation layer: an interface queried from the runtime to
//! turn on debug checking.  Enabling it is a foreign call reached through
//! the handle; only the handle type lives here.

use vstd::prelude::*;

verus! {

use crate::com::{Guid, Interface, WeakPtr};

/// The foreign debug-layer interface.
#[derive(Clone, Copy, Hash)]
pub struct ID3D12Debug;

impl Interface for ID3D12Debug {
    open spec fn iid_spec() -> Guid {
        Guid { data1: 0x344488b7, data2: 0x6846, data3: 0x474b, data4: 0xb989_f027_4482_45e0 }
    }

    fn iid() -> (g: Guid) {
        Guid { data1: 0x344488b7, data2: 0x6846, data3: 0x474b, data4: 0xb989_f027_4482_45e0 }
    }
}

/// A handle to the foreign debug layer.
pub type Debug = WeakPtr<ID3D12Debug>;

} // verus!
