//! Memory heaps: the typed description a heap is created from.

use vstd::prelude::*;

verus! {

use crate::com::{Guid, Interface, WeakPtr};

/// The foreign heap interface.
#[derive(Clone, Copy, Hash, Debug)]
pub struct ID3D12Heap;

impl Interface for ID3D12Heap {
    open spec fn iid_spec() -> Guid {
        Guid { data1: 0x6b3b2502, data2: 0x6e51, data3: 0x45b3, data4: 0x90ee_9884_265e_8df3 }
    }

    fn iid() -> (g: Guid) {
        Guid { data1: 0x6b3b2502, data2: 0x6e51, data3: 0x45b3, data4: 0x90ee_9884_265e_8df3 }
    }
}

/// A handle to a foreign heap object.
pub type Heap = WeakPtr<ID3D12Heap>;

/// Which memory pool a heap lives in and how the host reaches it.
#[derive(Clone, Copy, PartialEq, Eq, Structural, Hash, Debug)]
pub enum HeapType {
    Default,
    Upload,
    Readback,
    Custom,
}

impl HeapType {
    /// The foreign runtime's numeric encoding of this heap type.
    pub open spec fn raw_spec(self) -> u32 {
        match self {
            HeapType::Default => 1,
            HeapType::Upload => 2,
            HeapType::Readback => 3,
            HeapType::Custom => 4,
        }
    }

    /// Marshal to the foreign encoding.
    pub fn to_raw(self) -> (r: u32)
        ensures
            r == self.raw_spec(),
    {
        match self {
            HeapType::Default => 1,
            HeapType::Upload => 2,
            HeapType::Readback => 3,
            HeapType::Custom => 4,
        }
    }
}

/// How the host CPU may page against a custom heap.
#[derive(Clone, Copy, PartialEq, Eq, Structural, Hash, Debug)]
pub enum CpuPageProperty {
    Unknown,
    NotAvailable,
    WriteCombine,
    WriteBack,
}

impl CpuPageProperty {
    /// The foreign runtime's numeric encoding of this page property.
    pub open spec fn raw_spec(self) -> u32 {
        match self {
            CpuPageProperty::Unknown => 0,
            CpuPageProperty::NotAvailable => 1,
            CpuPageProperty::WriteCombine => 2,
            CpuPageProperty::WriteBack => 3,
        }
    }

    /// Marshal to the foreign encoding.
    pub fn to_raw(self) -> (r: u32)
        ensures
            r == self.raw_spec(),
    {
        match self {
            CpuPageProperty::Unknown => 0,
            CpuPageProperty::NotAvailable => 1,
            CpuPageProperty::WriteCombine => 2,
            CpuPageProperty::WriteBack => 3,
        }
    }
}

/// Which physical memory pool backs a custom heap.
#[derive(Clone, Copy, PartialEq, Eq, Structural, Hash, Debug)]
pub enum MemoryPool {
    Unknown,
    L0,
    L1,
}

impl MemoryPool {
    /// The foreign runtime's numeric encoding of this memory pool.
    pub open spec fn raw_spec(self) -> u32 {
        match self {
            MemoryPool::Unknown => 0,
            MemoryPool::L0 => 1,
            MemoryPool::L1 => 2,
        }
    }

    /// Marshal to the foreign encoding.
    pub fn to_raw(self) -> (r: u32)
        ensures
            r == self.raw_spec(),
    {
        match self {
            MemoryPool::Unknown => 0,
            MemoryPool::L0 => 1,
            MemoryPool::L1 => 2,
        }
    }
}

/// Heap capability flags, combined bitwise.
pub type HeapFlags = u32;

pub const HEAP_FLAG_NONE: u32 = 0;

pub const HEAP_FLAG_SHARED: u32 = 0x1;

pub const HEAP_FLAG_DENY_BUFFERS: u32 = 0x4;

pub const HEAP_FLAG_ALLOW_DISPLAY: u32 = 0x8;

pub const HEAP_FLAG_SHARED_CROSS_ADAPTER: u32 = 0x20;

pub const HEAP_FLAG_DENY_RT_DS_TEXTURES: u32 = 0x40;

pub const HEAP_FLAG_DENY_NON_RT_DS_TEXTURES: u32 = 0x80;

pub const HEAP_FLAG_HARDWARE_PROTECTED: u32 = 0x100;

pub const HEAP_FLAG_ALLOW_WRITE_WATCH: u32 = 0x200;

pub const HEAP_FLAG_ALLOW_ALL_BUFFERS_AND_TEXTURES: u32 = 0;

pub const HEAP_FLAG_ALLOW_ONLY_BUFFERS: u32 = 0xC0;

pub const HEAP_FLAG_ALLOW_ONLY_NON_RT_DS_TEXTURES: u32 = 0x44;

pub const HEAP_FLAG_ALLOW_ONLY_RT_DS_TEXTURES: u32 = 0x84;

/// The marshaled properties of a heap, in the foreign encoding.
#[derive(Clone, Copy, PartialEq, Eq, Structural, Hash, Debug)]
pub struct HeapProperties {
    pub heap_type: u32,
    pub cpu_page_property: u32,
    pub memory_pool_preference: u32,
    pub creation_node_mask: u32,
    pub visible_node_mask: u32,
}

impl HeapProperties {
    /// Marshal typed heap properties into the foreign field encoding.
    pub fn new(
        heap_type: HeapType,
        cpu_page_property: CpuPageProperty,
        memory_pool_preference: MemoryPool,
        creation_node_mask: u32,
        visible_node_mask: u32,
    ) -> (r: Self)
        ensures
            r.heap_type == heap_type.raw_spec(),
            r.cpu_page_property == cpu_page_property.raw_spec(),
            r.memory_pool_preference == memory_pool_preference.raw_spec(),
            r.creation_node_mask == creation_node_mask,
            r.visible_node_mask == visible_node_mask,
    {
        HeapProperties {
            heap_type: heap_type.to_raw(),
            cpu_page_property: cpu_page_property.to_raw(),
            memory_pool_preference: memory_pool_preference.to_raw(),
            creation_node_mask,
            visible_node_mask,
        }
    }
}

/// The marshaled description a heap is created from.
#[derive(Clone, Copy, PartialEq, Eq, Structural, Hash, Debug)]
pub struct HeapDesc {
    pub size_in_bytes: u64,
    pub properties: HeapProperties,
    pub alignment: u64,
    pub flags: HeapFlags,
}

impl HeapDesc {
    /// Assemble a heap description; every field carries over unchanged.
    pub fn new(size_in_bytes: u64, properties: HeapProperties, alignment: u64, flags: HeapFlags) -> (r:
        Self)
        ensures
            r.size_in_bytes == size_in_bytes,
            r.properties == properties,
            r.alignment == alignment,
            r.flags == flags,
    {
        HeapDesc { size_in_bytes, properties, alignment, flags }
    }
}

} // verus!
