//! The device: the factory through which most foreign objects are created.
//! Creation calls themselves are foreign methods reached through the
//! handle; here live the handle type and the typed descriptions those
//! calls are handed.

use vstd::prelude::*;

verus! {

use crate::com::{Guid, Interface, WeakPtr};
use crate::command_list::IndirectArgument;
use crate::descriptor::RootSignature;
use crate::pso::{CachedPSO, PipelineStateFlags, Shader};

/// The foreign device interface.
#[derive(Clone, Copy, Hash, Debug)]
pub struct ID3D12Device;

impl Interface for ID3D12Device {
    open spec fn iid_spec() -> Guid {
        Guid { data1: 0x189819f1, data2: 0x1db6, data3: 0x4b57, data4: 0xbe54_1821_339b_85f7 }
    }

    fn iid() -> (g: Guid) {
        Guid { data1: 0x189819f1, data2: 0x1db6, data3: 0x4b57, data4: 0xbe54_1821_339b_85f7 }
    }
}

/// A handle to a foreign device.
pub type Device = WeakPtr<ID3D12Device>;

/// The marshaled description a compute pipeline state is created from: the
/// address of the root signature it binds against, the compute shader, and
/// the cache and flag payload.
#[derive(Clone, Copy, PartialEq, Eq, Structural, Hash, Debug)]
pub struct ComputePipelineStateDesc {
    pub root_signature: usize,
    pub cs: Shader,
    pub node_mask: u32,
    pub cached_pso: CachedPSO,
    pub flags: PipelineStateFlags,
}

impl ComputePipelineStateDesc {
    /// Marshal a compute pipeline description.  The root signature must be
    /// a live handle; the description carries its address.
    pub fn new(
        root_signature: RootSignature,
        cs: Shader,
        node_mask: u32,
        cached_pso: CachedPSO,
        flags: PipelineStateFlags,
    ) -> (r: Self)
        requires
            root_signature@ != 0,
        ensures
            r.root_signature == root_signature@,
            r.cs == cs,
            r.node_mask == node_mask,
            r.cached_pso == cached_pso,
            r.flags == flags,
    {
        ComputePipelineStateDesc {
            root_signature: root_signature.as_ptr(),
            cs,
            node_mask,
            cached_pso,
            flags,
        }
    }
}

/// The marshaled description a command signature is created from.
#[derive(Clone, Debug)]
pub struct CommandSignatureDesc {
    pub byte_stride: u32,
    pub arguments: Vec<IndirectArgument>,
    pub node_mask: u32,
}

impl CommandSignatureDesc {
    /// Assemble a command-signature description; the argument slots carry
    /// over unchanged.
    pub fn new(byte_stride: u32, arguments: Vec<IndirectArgument>, node_mask: u32) -> (r: Self)
        ensures
            r.byte_stride == byte_stride,
            r.arguments@ == arguments@,
            r.node_mask == node_mask,
    {
        CommandSignatureDesc { byte_stride, arguments, node_mask }
    }

    /// The marshaled argument count the foreign call is handed.
    pub fn num_argument_descs(&self) -> (n: u32)
        requires
            self.arguments@.len() <= u32::MAX,
        ensures
            n == self.arguments@.len(),
    {
        self.arguments.len() as u32
    }
}

} // verus!
