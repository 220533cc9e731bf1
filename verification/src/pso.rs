//! Pipeline state: shader bytecode references, cached pipeline blobs, and
//! the subobject stream used by the streamed pipeline description.

use vstd::prelude::*;

verus! {

use crate::com::{succeeded, ComError, Guid, Interface, WeakPtr};
use crate::{Blob, Error};

/// The foreign pipeline-state interface.
#[derive(Clone, Copy, Hash, Debug)]
pub struct ID3D12PipelineState;

impl Interface for ID3D12PipelineState {
    open spec fn iid_spec() -> Guid {
        Guid { data1: 0x765a30f3, data2: 0xf624, data3: 0x4c6f, data4: 0xa828_ace9_4862_2445 }
    }

    fn iid() -> (g: Guid) {
        Guid { data1: 0x765a30f3, data2: 0xf624, data3: 0x4c6f, data4: 0xa828_ace9_4862_2445 }
    }
}

/// A handle to a foreign pipeline-state object.
pub type PipelineState = WeakPtr<ID3D12PipelineState>;

/// Pipeline-state behavior flags, combined bitwise.
pub type PipelineStateFlags = u32;

pub const PIPELINE_STATE_FLAG_NONE: u32 = 0;

pub const PIPELINE_STATE_FLAG_TOOL_DEBUG: u32 = 0x1;

/// Shader compilation flags, combined bitwise.
pub type ShaderCompileFlags = u32;

pub const COMPILE_NONE: u32 = 0;

pub const COMPILE_DEBUG: u32 = 0x1;

pub const COMPILE_SKIP_VALIDATION: u32 = 0x2;

pub const COMPILE_SKIP_OPTIMIZATION: u32 = 0x4;

pub const COMPILE_PACK_MATRIX_ROW_MAJOR: u32 = 0x8;

pub const COMPILE_PACK_MATRIX_COLUMN_MAJOR: u32 = 0x10;

pub const COMPILE_PARTIAL_PRECISION: u32 = 0x20;

/// A reference to a span of shader bytecode: the address of its first byte
/// and its length.  A null shader (both zero) marks an unused stage.
#[derive(Clone, Copy, PartialEq, Eq, Structural, Hash, Debug)]
pub struct Shader {
    pub pointer: usize,
    pub size: usize,
}

impl Shader {
    /// The reference marking an unused shader stage.
    pub fn null() -> (r: Self)
        ensures
            r.pointer == 0,
            r.size == 0,
    {
        Shader { pointer: 0, size: 0 }
    }

    /// Wrap an address and length with no validation; the caller must
    /// guarantee they delimit live bytecode.
    pub fn from_raw(pointer: usize, size: usize) -> (r: Self)
        ensures
            r.pointer == pointer,
            r.size == size,
    {
        Shader { pointer, size }
    }

    /// Interpret the outcome of a foreign shader compilation: the status
    /// code and the addresses the compiler deposited its bytecode and
    /// message buffers at (either may be null).  Success yields both
    /// handles; failure yields the status code and no handle.
    pub fn compile_result(hr: u32, shader_addr: usize, error_addr: usize) -> (r: Result<
        (Blob, Error),
        ComError,
    >)
        ensures
            succeeded(hr) ==> (r matches Ok(p) && p.0@ == shader_addr && p.1@ == error_addr),
            !succeeded(hr) ==> (r matches Err(e) && e.code == hr),
    {
        if crate::com::is_success(hr) {
            Ok((WeakPtr::from_raw(shader_addr), WeakPtr::from_raw(error_addr)))
        } else {
            Err(ComError { code: hr })
        }
    }
}

/// A reference to a cached pipeline blob: the address of its first byte
/// and its length.  A null cache (both zero) disables caching.
#[derive(Clone, Copy, PartialEq, Eq, Structural, Hash, Debug)]
pub struct CachedPSO {
    pub pointer: usize,
    pub size: usize,
}

impl CachedPSO {
    /// The reference marking "no cached blob".
    pub fn null() -> (r: Self)
        ensures
            r.pointer == 0,
            r.size == 0,
    {
        CachedPSO { pointer: 0, size: 0 }
    }

    /// Wrap an address and length with no validation; the caller must
    /// guarantee they delimit a live cached blob.
    pub fn from_raw(pointer: usize, size: usize) -> (r: Self)
        ensures
            r.pointer == pointer,
            r.size == size,
    {
        CachedPSO { pointer, size }
    }
}

/// Which member of a streamed pipeline description a subobject sets.
#[derive(Clone, Copy, PartialEq, Eq, Structural, Hash, Debug)]
pub enum Subobject {
    RootSignature,
    VS,
    PS,
    DS,
    HS,
    GS,
    CS,
    StreamOutput,
    Blend,
    SampleMask,
    Rasterizer,
    DepthStencil,
    InputLayout,
    IBStripCut,
    PrimitiveTopology,
    RTFormats,
    DSFormat,
    SampleDesc,
    NodeMask,
    CachedPSO,
    Flags,
    DepthStencil1,
}

impl Subobject {
    /// The foreign runtime's numeric tag for this subobject kind.
    pub open spec fn raw_spec(self) -> u32 {
        match self {
            Subobject::RootSignature => 0,
            Subobject::VS => 1,
            Subobject::PS => 2,
            Subobject::DS => 3,
            Subobject::HS => 4,
            Subobject::GS => 5,
            Subobject::CS => 6,
            Subobject::StreamOutput => 7,
            Subobject::Blend => 8,
            Subobject::SampleMask => 9,
            Subobject::Rasterizer => 10,
            Subobject::DepthStencil => 11,
            Subobject::InputLayout => 12,
            Subobject::IBStripCut => 13,
            Subobject::PrimitiveTopology => 14,
            Subobject::RTFormats => 15,
            Subobject::DSFormat => 16,
            Subobject::SampleDesc => 17,
            Subobject::NodeMask => 18,
            Subobject::CachedPSO => 19,
            Subobject::Flags => 20,
            Subobject::DepthStencil1 => 21,
        }
    }

    /// Marshal to the foreign encoding.
    pub fn to_raw(self) -> (r: u32)
        ensures
            r == self.raw_spec(),
    {
        match self {
            Subobject::RootSignature => 0,
            Subobject::VS => 1,
            Subobject::PS => 2,
            Subobject::DS => 3,
            Subobject::HS => 4,
            Subobject::GS => 5,
            Subobject::CS => 6,
            Subobject::StreamOutput => 7,
            Subobject::Blend => 8,
            Subobject::SampleMask => 9,
            Subobject::Rasterizer => 10,
            Subobject::DepthStencil => 11,
            Subobject::InputLayout => 12,
            Subobject::IBStripCut => 13,
            Subobject::PrimitiveTopology => 14,
            Subobject::RTFormats => 15,
            Subobject::DSFormat => 16,
            Subobject::SampleDesc => 17,
            Subobject::NodeMask => 18,
            Subobject::CachedPSO => 19,
            Subobject::Flags => 20,
            Subobject::DepthStencil1 => 21,
        }
    }
}

/// One element of a pipeline description stream: a kind tag followed by
/// the payload it sets.
pub struct PipelineStateSubobject<T> {
    pub subobject_type: u32,
    pub subobject: T,
}

impl<T> PipelineStateSubobject<T> {
    /// Tag a payload with its subobject kind.
    pub fn new(subobject_type: Subobject, subobject: T) -> (r: Self)
        ensures
            r.subobject_type == subobject_type.raw_spec(),
            r.subobject == subobject,
    {
        PipelineStateSubobject { subobject_type: subobject_type.to_raw(), subobject }
    }
}

} // verus!
