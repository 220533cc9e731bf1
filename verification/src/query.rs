//! Query heaps: where GPU statistics queries deposit their results.

use vstd::prelude::*;

verus! {

use crate::com::{Guid, Interface, WeakPtr};

/// The foreign query-heap interface.
#[derive(Clone, Copy, Hash, Debug)]
pub struct ID3D12QueryHeap;

impl Interface for ID3D12QueryHeap {
    open spec fn iid_spec() -> Guid {
        Guid { data1: 0x0d9658ae, data2: 0xed45, data3: 0x469e, data4: 0xa61d_970e_c583_cab4 }
    }

    fn iid() -> (g: Guid) {
        Guid { data1: 0x0d9658ae, data2: 0xed45, data3: 0x469e, data4: 0xa61d_970e_c583_cab4 }
    }
}

/// A handle to a foreign query heap.
pub type QueryHeap = WeakPtr<ID3D12QueryHeap>;

/// What kind of measurements a query heap collects.
#[derive(Clone, Copy, PartialEq, Eq, Structural, Hash, Debug)]
pub enum QueryHeapType {
    Occlusion,
    Timestamp,
    PipelineStatistics,
    SOStatistics,
}

impl QueryHeapType {
    /// The foreign runtime's numeric encoding of this query-heap type.
    pub open spec fn raw_spec(self) -> u32 {
        match self {
            QueryHeapType::Occlusion => 0,
            QueryHeapType::Timestamp => 1,
            QueryHeapType::PipelineStatistics => 2,
            QueryHeapType::SOStatistics => 3,
        }
    }

    /// Marshal to the foreign encoding.
    pub fn to_raw(self) -> (r: u32)
        ensures
            r == self.raw_spec(),
    {
        match self {
            QueryHeapType::Occlusion => 0,
            QueryHeapType::Timestamp => 1,
            QueryHeapType::PipelineStatistics => 2,
            QueryHeapType::SOStatistics => 3,
        }
    }
}

/// The marshaled description a query heap is created from.
#[derive(Clone, Copy, PartialEq, Eq, Structural, Hash, Debug)]
pub struct QueryHeapDesc {
    pub heap_type: u32,
    pub count: u32,
    pub node_mask: u32,
}

impl QueryHeapDesc {
    /// Marshal a typed query-heap description into the foreign encoding.
    pub fn new(heap_type: QueryHeapType, count: u32, node_mask: u32) -> (r: Self)
        ensures
            r.heap_type == heap_type.raw_spec(),
            r.count == count,
            r.node_mask == node_mask,
    {
        QueryHeapDesc { heap_type: heap_type.to_raw(), count, node_mask }
    }
}

} // verus!
