//! Graphics command lists: typed command-list kinds, indirect-execution
//! argument descriptions, and resource transition barriers.  Recording
//! calls themselves are foreign methods reached through the handle.

use vstd::prelude::*;

verus! {

use crate::com::{Guid, Interface, WeakPtr};
use crate::resource::{Resource, Subresource};

/// The foreign graphics command-list interface.
#[derive(Clone, Copy, Hash, Debug)]
pub struct ID3D12GraphicsCommandList;

impl Interface for ID3D12GraphicsCommandList {
    open spec fn iid_spec() -> Guid {
        Guid { data1: 0x5b160d0f, data2: 0xac1b, data3: 0x4185, data4: 0x8ba8_b3ae_42a5_a455 }
    }

    fn iid() -> (g: Guid) {
        Guid { data1: 0x5b160d0f, data2: 0xac1b, data3: 0x4185, data4: 0x8ba8_b3ae_42a5_a455 }
    }
}

/// The foreign base command-list interface.
#[derive(Clone, Copy, Hash, Debug)]
pub struct ID3D12CommandList;

impl Interface for ID3D12CommandList {
    open spec fn iid_spec() -> Guid {
        Guid { data1: 0x7116d91c, data2: 0xe7e4, data3: 0x47ce, data4: 0xb8c6_ec81_68f4_37e5 }
    }

    fn iid() -> (g: Guid) {
        Guid { data1: 0x7116d91c, data2: 0xe7e4, data3: 0x47ce, data4: 0xb8c6_ec81_68f4_37e5 }
    }
}

/// The foreign command-signature interface.
#[derive(Clone, Copy, Hash, Debug)]
pub struct ID3D12CommandSignature;

impl Interface for ID3D12CommandSignature {
    open spec fn iid_spec() -> Guid {
        Guid { data1: 0xc36a797c, data2: 0xec80, data3: 0x4f0a, data4: 0x8985_a7b2_4750_82d1 }
    }

    fn iid() -> (g: Guid) {
        Guid { data1: 0xc36a797c, data2: 0xec80, data3: 0x4f0a, data4: 0x8985_a7b2_4750_82d1 }
    }
}

/// A handle to a foreign graphics command list.
pub type GraphicsCommandList = WeakPtr<ID3D12GraphicsCommandList>;

/// A handle to a foreign base command list.
pub type CommandList = WeakPtr<ID3D12CommandList>;

/// A handle to a foreign command signature.
pub type CommandSignature = WeakPtr<ID3D12CommandSignature>;

/// Which engine a command list records for.
#[derive(Clone, Copy, PartialEq, Eq, Structural, Hash, Debug)]
pub enum CmdListType {
    Direct,
    Bundle,
    Compute,
    Copy,
}

impl CmdListType {
    /// The foreign runtime's numeric encoding of this list type.
    pub open spec fn raw_spec(self) -> u32 {
        match self {
            CmdListType::Direct => 0,
            CmdListType::Bundle => 1,
            CmdListType::Compute => 2,
            CmdListType::Copy => 3,
        }
    }

    /// Marshal to the foreign encoding.
    pub fn to_raw(self) -> (r: u32)
        ensures
            r == self.raw_spec(),
    {
        match self {
            CmdListType::Direct => 0,
            CmdListType::Bundle => 1,
            CmdListType::Compute => 2,
            CmdListType::Copy => 3,
        }
    }
}

/// Depth-stencil clear flags, combined bitwise.
pub type ClearFlags = u32;

pub const CLEAR_FLAG_DEPTH: u32 = 0x1;

pub const CLEAR_FLAG_STENCIL: u32 = 0x2;

/// One argument slot of an indirect-execution command signature.
#[derive(Clone, Copy, PartialEq, Eq, Structural, Hash, Debug)]
pub enum IndirectArgument {
    Draw,
    DrawIndexed,
    Dispatch,
    VertexBuffer { slot: u32 },
    Constant { root_index: u32, dest_offset_words: u32, count: u32 },
    ConstantBufferView { root_index: u32 },
    ShaderResourceView { root_index: u32 },
    UnorderedAccessView { root_index: u32 },
}

impl IndirectArgument {
    /// The foreign runtime's numeric tag for this argument kind.
    pub open spec fn raw_kind_spec(self) -> u32 {
        match self {
            IndirectArgument::Draw => 0,
            IndirectArgument::DrawIndexed => 1,
            IndirectArgument::Dispatch => 2,
            IndirectArgument::VertexBuffer { .. } => 3,
            IndirectArgument::Constant { .. } => 5,
            IndirectArgument::ConstantBufferView { .. } => 6,
            IndirectArgument::ShaderResourceView { .. } => 7,
            IndirectArgument::UnorderedAccessView { .. } => 8,
        }
    }

    /// Marshal the kind tag to the foreign encoding.
    pub fn raw_kind(self) -> (r: u32)
        ensures
            r == self.raw_kind_spec(),
    {
        match self {
            IndirectArgument::Draw => 0,
            IndirectArgument::DrawIndexed => 1,
            IndirectArgument::Dispatch => 2,
            IndirectArgument::VertexBuffer { .. } => 3,
            IndirectArgument::Constant { .. } => 5,
            IndirectArgument::ConstantBufferView { .. } => 6,
            IndirectArgument::ShaderResourceView { .. } => 7,
            IndirectArgument::UnorderedAccessView { .. } => 8,
        }
    }

    /// An indirect draw.
    pub fn draw() -> (r: Self)
        ensures
            r == IndirectArgument::Draw,
    {
        IndirectArgument::Draw
    }

    /// An indirect indexed draw.
    pub fn draw_indexed() -> (r: Self)
        ensures
            r == IndirectArgument::DrawIndexed,
    {
        IndirectArgument::DrawIndexed
    }

    /// An indirect compute dispatch.
    pub fn dispatch() -> (r: Self)
        ensures
            r == IndirectArgument::Dispatch,
    {
        IndirectArgument::Dispatch
    }

    /// An indirect vertex-buffer rebind at the given input slot.
    pub fn vertex_buffer(slot: u32) -> (r: Self)
        ensures
            r == (IndirectArgument::VertexBuffer { slot }),
    {
        IndirectArgument::VertexBuffer { slot }
    }

    /// An indirect root-constant update: `count` 32-bit words written at
    /// `dest_offset_words` in root parameter `root_index`.
    pub fn constant(root_index: u32, dest_offset_words: u32, count: u32) -> (r: Self)
        ensures
            r == (IndirectArgument::Constant { root_index, dest_offset_words, count }),
    {
        IndirectArgument::Constant { root_index, dest_offset_words, count }
    }

    /// An indirect constant-buffer-view rebind of root parameter
    /// `root_index`.
    pub fn constant_buffer_view(root_index: u32) -> (r: Self)
        ensures
            r == (IndirectArgument::ConstantBufferView { root_index }),
    {
        IndirectArgument::ConstantBufferView { root_index }
    }

    /// An indirect shader-resource-view rebind of root parameter
    /// `root_index`.
    pub fn shader_resource_view(root_index: u32) -> (r: Self)
        ensures
            r == (IndirectArgument::ShaderResourceView { root_index }),
    {
        IndirectArgument::ShaderResourceView { root_index }
    }

    /// An indirect unordered-access-view rebind of root parameter
    /// `root_index`.
    pub fn unordered_access_view(root_index: u32) -> (r: Self)
        ensures
            r == (IndirectArgument::UnorderedAccessView { root_index }),
    {
        IndirectArgument::UnorderedAccessView { root_index }
    }
}

/// An index-buffer binding, in the foreign field encoding: the GPU address
/// of the first index, the byte length of the buffer, and the index format.
#[derive(Clone, Copy, PartialEq, Eq, Structural, Hash, Debug)]
pub struct IndexBufferView {
    pub buffer_location: u64,
    pub size_in_bytes: u32,
    pub format: u32,
}

impl IndexBufferView {
    /// Assemble an index-buffer binding; every field carries over
    /// unchanged.
    pub fn new(gpu_address: crate::GpuAddress, size: u32, format: crate::Format) -> (r: Self)
        ensures
            r.buffer_location == gpu_address,
            r.size_in_bytes == size,
            r.format == format,
    {
        IndexBufferView { buffer_location: gpu_address, size_in_bytes: size, format }
    }
}

/// A resource state-transition barrier, in the foreign field encoding:
/// kind tag `0` (transition), the address of the resource, the subresource
/// it applies to, and the states moved between.
#[derive(Clone, Copy, PartialEq, Eq, Structural, Hash, Debug)]
pub struct ResourceBarrier {
    pub barrier_type: u32,
    pub flags: u32,
    pub resource: usize,
    pub subresource: Subresource,
    pub state_before: u32,
    pub state_after: u32,
}

impl ResourceBarrier {
    /// Marshal a transition barrier.  The resource must be a live handle;
    /// the barrier carries its address.
    pub fn transition(
        resource: Resource,
        subresource: Subresource,
        state_before: u32,
        state_after: u32,
        flags: u32,
    ) -> (r: Self)
        requires
            resource@ != 0,
        ensures
            r.barrier_type == 0,
            r.flags == flags,
            r.resource == resource@,
            r.subresource == subresource,
            r.state_before == state_before,
            r.state_after == state_after,
    {
        ResourceBarrier {
            barrier_type: 0,
            flags,
            resource: resource.as_ptr(),
            subresource,
            state_before,
            state_after,
        }
    }
}

} // verus!
