//! Descriptor heaps, descriptor tables, and root signatures: the typed
//! shader-binding model and its marshaling into the foreign field encoding.

use vstd::prelude::*;

verus! {

use crate::com::{Guid, Interface, WeakPtr};

/// The foreign descriptor-heap interface.
#[derive(Clone, Copy, Hash, Debug)]
pub struct ID3D12DescriptorHeap;

impl Interface for ID3D12DescriptorHeap {
    open spec fn iid_spec() -> Guid {
        Guid { data1: 0x8efb471d, data2: 0x616c, data3: 0x4f49, data4: 0x90f7_127b_b763_fa51 }
    }

    fn iid() -> (g: Guid) {
        Guid { data1: 0x8efb471d, data2: 0x616c, data3: 0x4f49, data4: 0x90f7_127b_b763_fa51 }
    }
}

/// The foreign root-signature interface.
#[derive(Clone, Copy, Hash, Debug)]
pub struct ID3D12RootSignature;

impl Interface for ID3D12RootSignature {
    open spec fn iid_spec() -> Guid {
        Guid { data1: 0xc54a6b66, data2: 0x72df, data3: 0x4ee8, data4: 0x8be5_a946_a142_9214 }
    }

    fn iid() -> (g: Guid) {
        Guid { data1: 0xc54a6b66, data2: 0x72df, data3: 0x4ee8, data4: 0x8be5_a946_a142_9214 }
    }
}

/// A handle to a foreign descriptor heap.
pub type DescriptorHeap = WeakPtr<ID3D12DescriptorHeap>;

/// A handle to a foreign root signature.
pub type RootSignature = WeakPtr<ID3D12RootSignature>;

/// A CPU-visible descriptor slot: a plain address into a descriptor heap.
#[derive(Clone, Copy, PartialEq, Eq, Structural, Hash, Debug)]
pub struct CpuDescriptor {
    pub ptr: usize,
}

/// A GPU-visible descriptor slot: a plain address into a descriptor heap.
#[derive(Clone, Copy, PartialEq, Eq, Structural, Hash, Debug)]
pub struct GpuDescriptor {
    pub ptr: u64,
}

/// A shader register binding: a register number within a register space.
#[derive(Clone, Copy, PartialEq, Eq, Structural, Hash, Debug)]
pub struct Binding {
    pub space: u32,
    pub register: u32,
}

/// What kind of descriptors a heap holds.
#[derive(Clone, Copy, PartialEq, Eq, Structural, Hash, Debug)]
pub enum DescriptorHeapType {
    CbvSrvUav,
    Sampler,
    Rtv,
    Dsv,
}

impl DescriptorHeapType {
    /// The foreign runtime's numeric encoding of this heap type.
    pub open spec fn raw_spec(self) -> u32 {
        match self {
            DescriptorHeapType::CbvSrvUav => 0,
            DescriptorHeapType::Sampler => 1,
            DescriptorHeapType::Rtv => 2,
            DescriptorHeapType::Dsv => 3,
        }
    }

    /// Marshal to the foreign encoding.
    pub fn to_raw(self) -> (r: u32)
        ensures
            r == self.raw_spec(),
    {
        match self {
            DescriptorHeapType::CbvSrvUav => 0,
            DescriptorHeapType::Sampler => 1,
            DescriptorHeapType::Rtv => 2,
            DescriptorHeapType::Dsv => 3,
        }
    }
}

/// Descriptor-heap behavior flags, combined bitwise.
pub type DescriptorHeapFlags = u32;

pub const DESCRIPTOR_HEAP_FLAG_NONE: u32 = 0;

pub const DESCRIPTOR_HEAP_FLAG_SHADER_VISIBLE: u32 = 0x1;

/// The marshaled description a descriptor heap is created from.
#[derive(Clone, Copy, PartialEq, Eq, Structural, Hash, Debug)]
pub struct DescriptorHeapDesc {
    pub heap_type: u32,
    pub num_descriptors: u32,
    pub flags: DescriptorHeapFlags,
    pub node_mask: u32,
}

impl DescriptorHeapDesc {
    /// Marshal a typed descriptor-heap description into the foreign
    /// encoding.
    pub fn new(
        heap_type: DescriptorHeapType,
        num_descriptors: u32,
        flags: DescriptorHeapFlags,
        node_mask: u32,
    ) -> (r: Self)
        ensures
            r.heap_type == heap_type.raw_spec(),
            r.num_descriptors == num_descriptors,
            r.flags == flags,
            r.node_mask == node_mask,
    {
        DescriptorHeapDesc { heap_type: heap_type.to_raw(), num_descriptors, flags, node_mask }
    }
}

/// Which shader stages see a root parameter or sampler.
#[derive(Clone, Copy, PartialEq, Eq, Structural, Hash, Debug)]
pub enum ShaderVisibility {
    All,
    VS,
    HS,
    DS,
    GS,
    PS,
}

impl ShaderVisibility {
    /// The foreign runtime's numeric encoding of this visibility.
    pub open spec fn raw_spec(self) -> u32 {
        match self {
            ShaderVisibility::All => 0,
            ShaderVisibility::VS => 1,
            ShaderVisibility::HS => 2,
            ShaderVisibility::DS => 3,
            ShaderVisibility::GS => 4,
            ShaderVisibility::PS => 5,
        }
    }

    /// Marshal to the foreign encoding.
    pub fn to_raw(self) -> (r: u32)
        ensures
            r == self.raw_spec(),
    {
        match self {
            ShaderVisibility::All => 0,
            ShaderVisibility::VS => 1,
            ShaderVisibility::HS => 2,
            ShaderVisibility::DS => 3,
            ShaderVisibility::GS => 4,
            ShaderVisibility::PS => 5,
        }
    }
}

/// What a descriptor range binds.
#[derive(Clone, Copy, PartialEq, Eq, Structural, Hash, Debug)]
pub enum DescriptorRangeType {
    SRV,
    UAV,
    CBV,
    Sampler,
}

impl DescriptorRangeType {
    /// The foreign runtime's numeric encoding of this range type.
    pub open spec fn raw_spec(self) -> u32 {
        match self {
            DescriptorRangeType::SRV => 0,
            DescriptorRangeType::UAV => 1,
            DescriptorRangeType::CBV => 2,
            DescriptorRangeType::Sampler => 3,
        }
    }

    /// Marshal to the foreign encoding.
    pub fn to_raw(self) -> (r: u32)
        ensures
            r == self.raw_spec(),
    {
        match self {
            DescriptorRangeType::SRV => 0,
            DescriptorRangeType::UAV => 1,
            DescriptorRangeType::CBV => 2,
            DescriptorRangeType::Sampler => 3,
        }
    }
}

/// A contiguous run of descriptors in a table, in the foreign encoding.
#[derive(Clone, Copy, PartialEq, Eq, Structural, Hash, Debug)]
pub struct DescriptorRange {
    pub range_type: u32,
    pub count: u32,
    pub base_register: u32,
    pub register_space: u32,
    pub offset: u32,
}

impl DescriptorRange {
    /// Marshal a typed descriptor range: `count` descriptors of kind `ty`
    /// starting at `base_binding`, placed `offset` descriptors from the
    /// table start.
    pub fn new(ty: DescriptorRangeType, count: u32, base_binding: Binding, offset: u32) -> (r: Self)
        ensures
            r.range_type == ty.raw_spec(),
            r.count == count,
            r.base_register == base_binding.register,
            r.register_space == base_binding.space,
            r.offset == offset,
    {
        DescriptorRange {
            range_type: ty.to_raw(),
            count,
            base_register: base_binding.register,
            register_space: base_binding.space,
            offset,
        }
    }
}

/// A single root descriptor's kind.
#[derive(Clone, Copy, PartialEq, Eq, Structural, Hash, Debug)]
pub enum RootDescriptorType {
    Cbv,
    Srv,
    Uav,
}

/// The payload of one root parameter.
#[derive(Clone, Debug)]
pub enum RootParameterKind {
    DescriptorTable { ranges: Vec<DescriptorRange> },
    Constants { binding: Binding, num: u32 },
    SingleCbv { binding: Binding },
    SingleSrv { binding: Binding },
    SingleUav { binding: Binding },
}

/// One slot of a root signature: a payload and the stages that see it.
#[derive(Clone, Debug)]
pub struct RootParameter {
    pub visibility: ShaderVisibility,
    pub kind: RootParameterKind,
}

impl RootParameter {
    /// The foreign runtime's numeric tag for this parameter's kind.
    pub open spec fn raw_kind_spec(self) -> u32 {
        match self.kind {
            RootParameterKind::DescriptorTable { .. } => 0,
            RootParameterKind::Constants { .. } => 1,
            RootParameterKind::SingleCbv { .. } => 2,
            RootParameterKind::SingleSrv { .. } => 3,
            RootParameterKind::SingleUav { .. } => 4,
        }
    }

    /// Marshal the kind tag to the foreign encoding.
    pub fn raw_kind(&self) -> (r: u32)
        ensures
            r == self.raw_kind_spec(),
    {
        match self.kind {
            RootParameterKind::DescriptorTable { .. } => 0,
            RootParameterKind::Constants { .. } => 1,
            RootParameterKind::SingleCbv { .. } => 2,
            RootParameterKind::SingleSrv { .. } => 3,
            RootParameterKind::SingleUav { .. } => 4,
        }
    }

    /// A root parameter holding a table of descriptor ranges.
    pub fn descriptor_table(visibility: ShaderVisibility, ranges: Vec<DescriptorRange>) -> (r: Self)
        ensures
            r.visibility == visibility,
            r.kind matches RootParameterKind::DescriptorTable { ranges: rs } && rs@ == ranges@,
    {
        RootParameter { visibility, kind: RootParameterKind::DescriptorTable { ranges } }
    }

    /// A root parameter holding `num` 32-bit constants at `binding`.
    pub fn constants(visibility: ShaderVisibility, binding: Binding, num: u32) -> (r: Self)
        ensures
            r.visibility == visibility,
            r.kind == (RootParameterKind::Constants { binding, num }),
    {
        RootParameter { visibility, kind: RootParameterKind::Constants { binding, num } }
    }

    /// A root parameter holding a single root descriptor of kind `ty`.
    pub fn descriptor(ty: RootDescriptorType, visibility: ShaderVisibility, binding: Binding) -> (r:
        Self)
        ensures
            r.visibility == visibility,
            ty == RootDescriptorType::Cbv ==> r.kind == (RootParameterKind::SingleCbv { binding }),
            ty == RootDescriptorType::Srv ==> r.kind == (RootParameterKind::SingleSrv { binding }),
            ty == RootDescriptorType::Uav ==> r.kind == (RootParameterKind::SingleUav { binding }),
    {
        let kind = match ty {
            RootDescriptorType::Cbv => RootParameterKind::SingleCbv { binding },
            RootDescriptorType::Srv => RootParameterKind::SingleSrv { binding },
            RootDescriptorType::Uav => RootParameterKind::SingleUav { binding },
        };
        RootParameter { visibility, kind }
    }

    /// A single constant-buffer-view root descriptor.
    pub fn cbv_descriptor(visibility: ShaderVisibility, binding: Binding) -> (r: Self)
        ensures
            r.visibility == visibility,
            r.kind == (RootParameterKind::SingleCbv { binding }),
    {
        Self::descriptor(RootDescriptorType::Cbv, visibility, binding)
    }

    /// A single shader-resource-view root descriptor.
    pub fn srv_descriptor(visibility: ShaderVisibility, binding: Binding) -> (r: Self)
        ensures
            r.visibility == visibility,
            r.kind == (RootParameterKind::SingleSrv { binding }),
    {
        Self::descriptor(RootDescriptorType::Srv, visibility, binding)
    }

    /// A single unordered-access-view root descriptor.
    pub fn uav_descriptor(visibility: ShaderVisibility, binding: Binding) -> (r: Self)
        ensures
            r.visibility == visibility,
            r.kind == (RootParameterKind::SingleUav { binding }),
    {
        Self::descriptor(RootDescriptorType::Uav, visibility, binding)
    }
}

/// The border color of a static sampler.
#[derive(Clone, Copy, PartialEq, Eq, Structural, Hash, Debug)]
pub enum StaticBorderColor {
    TransparentBlack,
    OpaqueBlack,
    OpaqueWhite,
}

impl StaticBorderColor {
    /// The foreign runtime's numeric encoding of this border color.
    pub open spec fn raw_spec(self) -> u32 {
        match self {
            StaticBorderColor::TransparentBlack => 0,
            StaticBorderColor::OpaqueBlack => 1,
            StaticBorderColor::OpaqueWhite => 2,
        }
    }

    /// Marshal to the foreign encoding.
    pub fn to_raw(self) -> (r: u32)
        ensures
            r == self.raw_spec(),
    {
        match self {
            StaticBorderColor::TransparentBlack => 0,
            StaticBorderColor::OpaqueBlack => 1,
            StaticBorderColor::OpaqueWhite => 2,
        }
    }
}

/// A static sampler baked into a root signature, in the foreign field
/// encoding.  Level-of-detail values are carried as opaque 32-bit patterns:
/// they are payload handed through to the foreign runtime, never read here.
#[derive(Clone, Copy, PartialEq, Eq, Structural, Hash, Debug)]
pub struct StaticSampler {
    pub filter: u32,
    pub address_u: u32,
    pub address_v: u32,
    pub address_w: u32,
    pub mip_lod_bias_bits: u32,
    pub max_anisotropy: u32,
    pub comparison_op: u32,
    pub border_color: u32,
    pub min_lod_bits: u32,
    pub max_lod_bits: u32,
    pub shader_register: u32,
    pub register_space: u32,
    pub visibility: u32,
}

impl StaticSampler {
    /// Marshal a typed static-sampler description into the foreign field
    /// encoding.
    pub fn new(
        visibility: ShaderVisibility,
        binding: Binding,
        filter: u32,
        address_mode: crate::TextureAddressMode,
        mip_lod_bias_bits: u32,
        max_anisotropy: u32,
        comparison_op: u32,
        border_color: StaticBorderColor,
        min_lod_bits: u32,
        max_lod_bits: u32,
    ) -> (r: Self)
        ensures
            r.filter == filter,
            r.address_u == address_mode[0],
            r.address_v == address_mode[1],
            r.address_w == address_mode[2],
            r.mip_lod_bias_bits == mip_lod_bias_bits,
            r.max_anisotropy == max_anisotropy,
            r.comparison_op == comparison_op,
            r.border_color == border_color.raw_spec(),
            r.min_lod_bits == min_lod_bits,
            r.max_lod_bits == max_lod_bits,
            r.shader_register == binding.register,
            r.register_space == binding.space,
            r.visibility == visibility.raw_spec(),
    {
        StaticSampler {
            filter,
            address_u: address_mode[0],
            address_v: address_mode[1],
            address_w: address_mode[2],
            mip_lod_bias_bits,
            max_anisotropy,
            comparison_op,
            border_color: border_color.to_raw(),
            min_lod_bits,
            max_lod_bits,
            shader_register: binding.register,
            register_space: binding.space,
            visibility: visibility.to_raw(),
        }
    }
}

/// Which revision of the root-signature format to serialize.
#[derive(Clone, Copy, PartialEq, Eq, Structural, Hash, Debug)]
pub enum RootSignatureVersion {
    V1_0,
    V1_1,
}

impl RootSignatureVersion {
    /// The foreign runtime's numeric encoding of this version.
    pub open spec fn raw_spec(self) -> u32 {
        match self {
            RootSignatureVersion::V1_0 => 1,
            RootSignatureVersion::V1_1 => 2,
        }
    }

    /// Marshal to the foreign encoding.
    pub fn to_raw(self) -> (r: u32)
        ensures
            r == self.raw_spec(),
    {
        match self {
            RootSignatureVersion::V1_0 => 1,
            RootSignatureVersion::V1_1 => 2,
        }
    }
}

/// Root-signature behavior flags, combined bitwise.
pub type RootSignatureFlags = u32;

pub const ROOT_SIGNATURE_FLAG_NONE: u32 = 0;

pub const ROOT_SIGNATURE_FLAG_ALLOW_IA_INPUT_LAYOUT: u32 = 0x1;

pub const ROOT_SIGNATURE_FLAG_DENY_VS_ROOT_ACCESS: u32 = 0x2;

pub const ROOT_SIGNATURE_FLAG_DENY_HS_ROOT_ACCESS: u32 = 0x4;

pub const ROOT_SIGNATURE_FLAG_DENY_DS_ROOT_ACCESS: u32 = 0x8;

pub const ROOT_SIGNATURE_FLAG_DENY_GS_ROOT_ACCESS: u32 = 0x10;

pub const ROOT_SIGNATURE_FLAG_DENY_PS_ROOT_ACCESS: u32 = 0x20;

/// Everything a root signature is serialized from: the parameter slots,
/// the static samplers, and behavior flags.
#[derive(Clone, Debug)]
pub struct RootSignatureDesc {
    pub parameters: Vec<RootParameter>,
    pub static_samplers: Vec<StaticSampler>,
    pub flags: RootSignatureFlags,
}

impl RootSignatureDesc {
    /// Assemble a root-signature description; the slots and samplers carry
    /// over unchanged.
    pub fn new(
        parameters: Vec<RootParameter>,
        static_samplers: Vec<StaticSampler>,
        flags: RootSignatureFlags,
    ) -> (r: Self)
        ensures
            r.parameters@ == parameters@,
            r.static_samplers@ == static_samplers@,
            r.flags == flags,
    {
        RootSignatureDesc { parameters, static_samplers, flags }
    }

    /// The marshaled element counts the foreign serializer is handed.
    pub fn counts(&self) -> (r: (u32, u32))
        requires
            self.parameters@.len() <= u32::MAX,
            self.static_samplers@.len() <= u32::MAX,
        ensures
            r.0 == self.parameters@.len(),
            r.1 == self.static_samplers@.len(),
    {
        (self.parameters.len() as u32, self.static_samplers.len() as u32)
    }
}

/// A render-target view description, in the foreign field encoding.
#[derive(Clone, Copy, PartialEq, Eq, Structural, Hash, Debug)]
pub struct RenderTargetViewDesc {
    pub format: u32,
    pub view_dimension: u32,
    pub mip_slice: u32,
    pub plane_slice: u32,
}

impl RenderTargetViewDesc {
    /// A view of one mip and plane of a two-dimensional texture; the
    /// marshaled view dimension is the foreign encoding's tag for such a
    /// texture.
    pub fn texture_2d(format: crate::Format, mip_slice: u32, plane_slice: u32) -> (r: Self)
        ensures
            r.format == format,
            r.view_dimension == 4,
            r.mip_slice == mip_slice,
            r.plane_slice == plane_slice,
    {
        RenderTargetViewDesc { format, view_dimension: 4, mip_slice, plane_slice }
    }
}

} // verus!
