//! GPU resources: buffers and textures owned by the foreign runtime.
//! Mapping and address queries are foreign methods reached through the
//! handle; here live the handle type and the typed discard region.

use vstd::prelude::*;

verus! {

use crate::com::{Guid, Interface, WeakPtr};
use crate::Rect;

/// A subresource index within a resource.
pub type Subresource = u32;

/// The foreign resource interface.
#[derive(Clone, Copy, Hash, Debug)]
pub struct ID3D12Resource;

impl Interface for ID3D12Resource {
    open spec fn iid_spec() -> Guid {
        Guid { data1: 0x696442be, data2: 0xa72e, data3: 0x4059, data4: 0xbc79_5b5c_9804_0fad }
    }

    fn iid() -> (g: Guid) {
        Guid { data1: 0x696442be, data2: 0xa72e, data3: 0x4059, data4: 0xbc79_5b5c_9804_0fad }
    }
}

/// A handle to a foreign resource.
pub type Resource = WeakPtr<ID3D12Resource>;

/// A region of a resource to discard: a set of rectangles applied to a
/// half-open range of subresources.
pub struct DiscardRegion {
    pub rects: Vec<Rect>,
    pub subregion_start: Subresource,
    pub subregion_end: Subresource,
}

/// The marshaled discard region, in the foreign field encoding.
#[derive(Clone, Copy, PartialEq, Eq, Structural, Hash, Debug)]
pub struct RawDiscardRegion {
    pub num_rects: u32,
    pub first_subresource: u32,
    pub num_subresources: u32,
}

impl DiscardRegion {
    /// Marshal the counted fields of a discard region.  The subresource
    /// range is half-open and must be non-empty; its marshaled count covers
    /// the whole range, one per subresource in it.
    pub fn to_raw(&self) -> (r: RawDiscardRegion)
        requires
            self.subregion_start < self.subregion_end,
            self.rects@.len() <= u32::MAX,
        ensures
            r.num_rects == self.rects@.len(),
            r.first_subresource == self.subregion_start,
            r.num_subresources == self.subregion_end - self.subregion_start,
    {
        RawDiscardRegion {
            num_rects: self.rects.len() as u32,
            first_subresource: self.subregion_start,
            num_subresources: self.subregion_end - self.subregion_start,
        }
    }
}

} // verus!
