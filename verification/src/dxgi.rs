//! The presentation layer: factories, adapters, and swapchains, with the
//! typed swapchain description and its marshaling into the foreign field
//! encoding.

use vstd::prelude::*;

verus! {

use crate::com::{Guid, Interface, WeakPtr};
use crate::SampleDesc;

/// The foreign adapter interface.
#[derive(Clone, Copy, Hash, Debug)]
pub struct IDXGIAdapter1;

impl Interface for IDXGIAdapter1 {
    open spec fn iid_spec() -> Guid {
        Guid { data1: 0x29038f61, data2: 0x3839, data3: 0x4626, data4: 0x91fd_0868_7901_1a05 }
    }

    fn iid() -> (g: Guid) {
        Guid { data1: 0x29038f61, data2: 0x3839, data3: 0x4626, data4: 0x91fd_0868_7901_1a05 }
    }
}

/// The foreign windowed-factory interface.
#[derive(Clone, Copy, Hash, Debug)]
pub struct IDXGIFactory2;

impl Interface for IDXGIFactory2 {
    open spec fn iid_spec() -> Guid {
        Guid { data1: 0x50c83a1c, data2: 0xe072, data3: 0x4c48, data4: 0x87b0_3630_fa36_a6d0 }
    }

    fn iid() -> (g: Guid) {
        Guid { data1: 0x50c83a1c, data2: 0xe072, data3: 0x4c48, data4: 0x87b0_3630_fa36_a6d0 }
    }
}

/// The foreign adapter-enumerating factory interface.
#[derive(Clone, Copy, Hash, Debug)]
pub struct IDXGIFactory4;

impl Interface for IDXGIFactory4 {
    open spec fn iid_spec() -> Guid {
        Guid { data1: 0x1bc6ea02, data2: 0xef36, data3: 0x464f, data4: 0xbf0c_21ca_39e5_168a }
    }

    fn iid() -> (g: Guid) {
        Guid { data1: 0x1bc6ea02, data2: 0xef36, data3: 0x464f, data4: 0xbf0c_21ca_39e5_168a }
    }
}

/// The foreign debug message-queue interface.
#[derive(Clone, Copy, Hash, Debug)]
pub struct IDXGIInfoQueue;

impl Interface for IDXGIInfoQueue {
    open spec fn iid_spec() -> Guid {
        Guid { data1: 0xd67441c7, data2: 0x672a, data3: 0x476f, data4: 0x9e82_cd55_b449_49ce }
    }

    fn iid() -> (g: Guid) {
        Guid { data1: 0xd67441c7, data2: 0x672a, data3: 0x476f, data4: 0x9e82_cd55_b449_49ce }
    }
}

/// The foreign base swapchain interface.
#[derive(Clone, Copy, Hash, Debug)]
pub struct IDXGISwapChain;

impl Interface for IDXGISwapChain {
    open spec fn iid_spec() -> Guid {
        Guid { data1: 0x310d36a0, data2: 0xd2e7, data3: 0x4c0a, data4: 0xaa04_6a9d_23b8_886a }
    }

    fn iid() -> (g: Guid) {
        Guid { data1: 0x310d36a0, data2: 0xd2e7, data3: 0x4c0a, data4: 0xaa04_6a9d_23b8_886a }
    }
}

/// The foreign windowed swapchain interface.
#[derive(Clone, Copy, Hash, Debug)]
pub struct IDXGISwapChain1;

impl Interface for IDXGISwapChain1 {
    open spec fn iid_spec() -> Guid {
        Guid { data1: 0x790a45f7, data2: 0x0d42, data3: 0x4876, data4: 0x983a_0a55_cfe6_f4aa }
    }

    fn iid() -> (g: Guid) {
        Guid { data1: 0x790a45f7, data2: 0x0d42, data3: 0x4876, data4: 0x983a_0a55_cfe6_f4aa }
    }
}

/// The foreign back-buffer-index-aware swapchain interface.
#[derive(Clone, Copy, Hash, Debug)]
pub struct IDXGISwapChain3;

impl Interface for IDXGISwapChain3 {
    open spec fn iid_spec() -> Guid {
        Guid { data1: 0x94d99bdb, data2: 0xf1f8, data3: 0x4ab0, data4: 0xb236_7da0_170e_dab1 }
    }

    fn iid() -> (g: Guid) {
        Guid { data1: 0x94d99bdb, data2: 0xf1f8, data3: 0x4ab0, data4: 0xb236_7da0_170e_dab1 }
    }
}

/// A handle to a foreign adapter.
pub type Adapter1 = WeakPtr<IDXGIAdapter1>;

/// A handle to a foreign windowed factory.
pub type Factory2 = WeakPtr<IDXGIFactory2>;

/// A handle to a foreign adapter-enumerating factory.
pub type Factory4 = WeakPtr<IDXGIFactory4>;

/// A handle to the foreign debug message queue.
pub type InfoQueue = WeakPtr<IDXGIInfoQueue>;

/// A handle to a foreign base swapchain.
pub type SwapChain = WeakPtr<IDXGISwapChain>;

/// A handle to a foreign windowed swapchain.
pub type SwapChain1 = WeakPtr<IDXGISwapChain1>;

/// A handle to a foreign back-buffer-index-aware swapchain.
pub type SwapChain3 = WeakPtr<IDXGISwapChain3>;

/// Factory creation flags, combined bitwise.
pub type FactoryCreationFlags = u32;

pub const FACTORY_CREATION_FLAG_NONE: u32 = 0;

pub const FACTORY_CREATION_FLAG_DEBUG: u32 = 0x1;

/// Buffer usage flags, combined bitwise.
pub type DxgiUsage = u32;

pub const USAGE_SHADER_INPUT: u32 = 0x10;

pub const USAGE_RENDER_TARGET_OUTPUT: u32 = 0x20;

pub const USAGE_BACK_BUFFER: u32 = 0x40;

pub const USAGE_SHARED: u32 = 0x80;

pub const USAGE_READ_ONLY: u32 = 0x100;

pub const USAGE_DISCARD_ON_PRESENT: u32 = 0x200;

pub const USAGE_UNORDERED_ACCESS: u32 = 0x400;

/// Presentation flags, combined bitwise.
pub type SwapChainPresentFlags = u32;

pub const PRESENT_TEST: u32 = 0x1;

pub const PRESENT_DO_NOT_SEQUENCE: u32 = 0x2;

pub const PRESENT_RESTART: u32 = 0x4;

pub const PRESENT_DO_NOT_WAIT: u32 = 0x8;

pub const PRESENT_STEREO_PREFER_RIGHT: u32 = 0x10;

pub const PRESENT_STEREO_TEMPORARY_MONO: u32 = 0x20;

pub const PRESENT_RESTRICT_TO_OUTPUT: u32 = 0x40;

pub const PRESENT_USE_DURATION: u32 = 0x100;

pub const PRESENT_ALLOW_TEARING: u32 = 0x200;

/// How the swapchain scales its buffers to the window.
#[derive(Clone, Copy, PartialEq, Eq, Structural, Hash, Debug)]
pub enum Scaling {
    Stretch,
    Identity,
    Aspect,
}

impl Scaling {
    /// The foreign runtime's numeric encoding of this scaling mode.
    pub open spec fn raw_spec(self) -> u32 {
        match self {
            Scaling::Stretch => 0,
            Scaling::Identity => 1,
            Scaling::Aspect => 2,
        }
    }

    /// Marshal to the foreign encoding.
    pub fn to_raw(self) -> (r: u32)
        ensures
            r == self.raw_spec(),
    {
        match self {
            Scaling::Stretch => 0,
            Scaling::Identity => 1,
            Scaling::Aspect => 2,
        }
    }
}

/// What happens to a presented buffer's contents.
#[derive(Clone, Copy, PartialEq, Eq, Structural, Hash, Debug)]
pub enum SwapEffect {
    Discard,
    Sequential,
    FlipDiscard,
    FlipSequential,
}

impl SwapEffect {
    /// The foreign runtime's numeric encoding of this swap effect.
    pub open spec fn raw_spec(self) -> u32 {
        match self {
            SwapEffect::Discard => 0,
            SwapEffect::Sequential => 1,
            SwapEffect::FlipDiscard => 4,
            SwapEffect::FlipSequential => 3,
        }
    }

    /// Marshal to the foreign encoding.
    pub fn to_raw(self) -> (r: u32)
        ensures
            r == self.raw_spec(),
    {
        match self {
            SwapEffect::Discard => 0,
            SwapEffect::Sequential => 1,
            SwapEffect::FlipDiscard => 4,
            SwapEffect::FlipSequential => 3,
        }
    }
}

/// How the alpha channel of a presented buffer is interpreted.
#[derive(Clone, Copy, PartialEq, Eq, Structural, Hash, Debug)]
pub enum AlphaMode {
    Unspecified,
    Premultiplied,
    Straight,
    Ignore,
    ForceDword,
}

impl AlphaMode {
    /// The foreign runtime's numeric encoding of this alpha mode.
    pub open spec fn raw_spec(self) -> u32 {
        match self {
            AlphaMode::Unspecified => 0,
            AlphaMode::Premultiplied => 1,
            AlphaMode::Straight => 2,
            AlphaMode::Ignore => 3,
            AlphaMode::ForceDword => 0xFFFFFFFF,
        }
    }

    /// Marshal to the foreign encoding.
    pub fn to_raw(self) -> (r: u32)
        ensures
            r == self.raw_spec(),
    {
        match self {
            AlphaMode::Unspecified => 0,
            AlphaMode::Premultiplied => 1,
            AlphaMode::Straight => 2,
            AlphaMode::Ignore => 3,
            AlphaMode::ForceDword => 0xFFFFFFFF,
        }
    }
}

/// A typed swapchain description, as callers state it.
#[derive(Clone, Copy, PartialEq, Eq, Structural, Hash, Debug)]
pub struct SwapchainDesc {
    pub width: u32,
    pub height: u32,
    pub format: u32,
    pub stereo: bool,
    pub sample: SampleDesc,
    pub buffer_usage: DxgiUsage,
    pub buffer_count: u32,
    pub scaling: Scaling,
    pub swap_effect: SwapEffect,
    pub alpha_mode: AlphaMode,
    pub flags: u32,
}

/// The marshaled swapchain description, in the foreign field encoding.
#[derive(Clone, Copy, PartialEq, Eq, Structural, Hash, Debug)]
pub struct RawSwapchainDesc {
    pub width: u32,
    pub height: u32,
    pub format: u32,
    pub stereo: u32,
    pub sample_count: u32,
    pub sample_quality: u32,
    pub buffer_usage: u32,
    pub buffer_count: u32,
    pub scaling: u32,
    pub swap_effect: u32,
    pub alpha_mode: u32,
    pub flags: u32,
}

impl SwapchainDesc {
    /// Marshal the typed description into the foreign field encoding;
    /// enumerations become their numeric codes and the stereo flag becomes
    /// the foreign boolean encoding.
    pub fn to_raw(&self) -> (r: RawSwapchainDesc)
        ensures
            r.width == self.width,
            r.height == self.height,
            r.format == self.format,
            r.stereo == (if self.stereo { 1u32 } else { 0u32 }),
            r.sample_count == self.sample.count,
            r.sample_quality == self.sample.quality,
            r.buffer_usage == self.buffer_usage,
            r.buffer_count == self.buffer_count,
            r.scaling == self.scaling.raw_spec(),
            r.swap_effect == self.swap_effect.raw_spec(),
            r.alpha_mode == self.alpha_mode.raw_spec(),
            r.flags == self.flags,
    {
        RawSwapchainDesc {
            width: self.width,
            height: self.height,
            format: self.format,
            stereo: if self.stereo { 1 } else { 0 },
            sample_count: self.sample.count,
            sample_quality: self.sample.quality,
            buffer_usage: self.buffer_usage,
            buffer_count: self.buffer_count,
            scaling: self.scaling.to_raw(),
            swap_effect: self.swap_effect.to_raw(),
            alpha_mode: self.alpha_mode.to_raw(),
            flags: self.flags,
        }
    }
}

} // verus!
