//! A non-owning handle abstraction for a COM-style foreign object system.
//!
//! Foreign objects are reference-counted by an external runtime, expose
//! behavior through independently-queryable interfaces, and are reached only
//! through addresses handed out by that runtime.  The core of this crate is
//! [`com::WeakPtr`], a copyable, comparable, address-only handle typed by the
//! interface it grants, together with the identity-query (cast) and explicit
//! release protocol, and a verified model of the runtime's reference-count
//! contract against which the protocol's guarantees are stated and proved.

use vstd::prelude::*;

pub mod com;
pub mod command_allocator;
pub mod command_list;
pub mod debug;
pub mod descriptor;
pub mod device;
pub mod dxgi;
pub mod heap;
pub mod pso;
pub mod query;
pub mod queue;
pub mod resource;
pub mod runtime;
pub mod sync;

pub use crate::com::{
    is_success, lemma_eq_is_address_eq, lemma_self_cast_capability, succeeded, ComError, Guid,
    IUnknown, Interface, WeakPtr, E_FAIL, E_NOINTERFACE, E_POINTER, S_OK,
};
pub use crate::command_allocator::{CommandAllocator, ID3D12CommandAllocator};
pub use crate::command_list::{
    CmdListType, CommandList, CommandSignature, GraphicsCommandList, ID3D12CommandList,
    ID3D12CommandSignature, ID3D12GraphicsCommandList, IndexBufferView, IndirectArgument, ResourceBarrier,
    CLEAR_FLAG_DEPTH, CLEAR_FLAG_STENCIL,
};
pub use crate::descriptor::{
    Binding, CpuDescriptor, DescriptorHeap, DescriptorHeapDesc, DescriptorHeapType,
    DescriptorRange, DescriptorRangeType, GpuDescriptor, ID3D12DescriptorHeap, ID3D12RootSignature,
    RenderTargetViewDesc, RootDescriptorType, RootParameter, RootParameterKind, RootSignature,
    RootSignatureDesc, RootSignatureVersion, ShaderVisibility, StaticBorderColor, StaticSampler,
};
pub use crate::debug::ID3D12Debug;
pub use crate::device::{CommandSignatureDesc, ComputePipelineStateDesc, Device, ID3D12Device};
pub use crate::dxgi::{
    Adapter1, AlphaMode, Factory2, Factory4, IDXGIAdapter1, IDXGIFactory2, IDXGIFactory4,
    IDXGIInfoQueue, IDXGISwapChain, IDXGISwapChain1, IDXGISwapChain3, InfoQueue, RawSwapchainDesc,
    Scaling, SwapChain, SwapChain1, SwapChain3, SwapEffect, SwapchainDesc,
};
pub use crate::heap::{CpuPageProperty, Heap, HeapDesc, HeapProperties, HeapType, ID3D12Heap, MemoryPool};
pub use crate::pso::{CachedPSO, ID3D12PipelineState, PipelineState, Shader, Subobject, PipelineStateSubobject};
pub use crate::query::{ID3D12QueryHeap, QueryHeap, QueryHeapDesc, QueryHeapType};
pub use crate::queue::{CommandQueue, CommandQueueDesc, ID3D12CommandQueue, Priority};
pub use crate::resource::{DiscardRegion, ID3D12Resource, RawDiscardRegion, Resource, Subresource};
pub use crate::runtime::{ObjectState, RuntimeModel};
pub use crate::sync::{Fence, ID3D12Fence};

verus! {

/// The foreign byte-buffer interface: serialized root signatures, compiled
/// shaders, and error messages all come back as such buffers.
#[derive(Clone, Copy, Hash, Debug)]
pub struct ID3DBlob;

impl Interface for ID3DBlob {
    open spec fn iid_spec() -> Guid {
        Guid { data1: 0x8ba5fb08, data2: 0x5195, data3: 0x40e2, data4: 0xac58_0d98_9c3a_0102 }
    }

    fn iid() -> (g: Guid) {
        Guid { data1: 0x8ba5fb08, data2: 0x5195, data3: 0x40e2, data4: 0xac58_0d98_9c3a_0102 }
    }
}

/// A handle to a foreign byte buffer.
pub type Blob = WeakPtr<ID3DBlob>;

/// A handle to a foreign byte buffer holding a human-readable error
/// message.
pub type Error = WeakPtr<ID3DBlob>;

/// The feature level a device is created against.
#[derive(Clone, Copy, PartialEq, Eq, Structural, Hash, Debug)]
pub enum FeatureLevel {
    L9_1,
    L9_2,
    L9_3,
    L10_0,
    L10_1,
    L11_0,
    L11_1,
    L12_0,
    L12_1,
}

impl FeatureLevel {
    /// The foreign runtime's numeric encoding of this feature level.
    pub open spec fn raw_spec(self) -> u32 {
        match self {
            FeatureLevel::L9_1 => 0x9100,
            FeatureLevel::L9_2 => 0x9200,
            FeatureLevel::L9_3 => 0x9300,
            FeatureLevel::L10_0 => 0xA000,
            FeatureLevel::L10_1 => 0xA100,
            FeatureLevel::L11_0 => 0xB000,
            FeatureLevel::L11_1 => 0xB100,
            FeatureLevel::L12_0 => 0xC000,
            FeatureLevel::L12_1 => 0xC100,
        }
    }

    /// Marshal to the foreign encoding.
    pub fn to_raw(self) -> (r: u32)
        ensures
            r == self.raw_spec(),
    {
        match self {
            FeatureLevel::L9_1 => 0x9100,
            FeatureLevel::L9_2 => 0x9200,
            FeatureLevel::L9_3 => 0x9300,
            FeatureLevel::L10_0 => 0xA000,
            FeatureLevel::L10_1 => 0xA100,
            FeatureLevel::L11_0 => 0xB000,
            FeatureLevel::L11_1 => 0xB100,
            FeatureLevel::L12_0 => 0xC000,
            FeatureLevel::L12_1 => 0xC100,
        }
    }
}

/// A GPU virtual address.
pub type GpuAddress = u64;

/// A pixel format, in the foreign runtime's numeric encoding.
pub type Format = u32;

/// A mask naming which adapter nodes an object is visible on.
pub type NodeMask = u32;

/// Index into the root signature.
pub type RootIndex = u32;

/// Draw vertex count.
pub type VertexCount = u32;

/// Draw vertex base offset.
pub type VertexOffset = i32;

/// Draw number of indices.
pub type IndexCount = u32;

/// Draw number of instances.
pub type InstanceCount = u32;

/// Number of work groups along each dispatch axis.
pub type WorkGroupCount = [u32; 3];

/// Texture addressing mode along each axis, in the foreign encoding.
pub type TextureAddressMode = [u32; 3];

/// An axis-aligned rectangle in integer coordinates.
#[derive(Clone, Copy, PartialEq, Eq, Structural, Hash, Debug)]
pub struct Rect {
    pub left: i32,
    pub top: i32,
    pub right: i32,
    pub bottom: i32,
}

/// Multisample state carried through swapchain and pipeline descriptions.
#[derive(Clone, Copy, PartialEq, Eq, Structural, Hash, Debug)]
pub struct SampleDesc {
    pub count: u32,
    pub quality: u32,
}

} // verus!
