//! Marshaling of typed descriptions into the foreign field encodings.

use d3d12::{
    AlphaMode, Binding, CachedPSO, CmdListType, CommandQueueDesc, CommandSignatureDesc,
    ComputePipelineStateDesc, CpuPageProperty, DescriptorHeapDesc, DescriptorHeapType,
    DescriptorRange, DescriptorRangeType, DiscardRegion, FeatureLevel, HeapDesc, HeapProperties,
    HeapType, IndirectArgument, MemoryPool, Priority, QueryHeapDesc, QueryHeapType, Rect,
    RenderTargetViewDesc, ResourceBarrier, RootParameter, RootParameterKind, RootSignature,
    RootSignatureDesc, RootSignatureVersion, SampleDesc, Scaling, Shader, ShaderVisibility,
    StaticBorderColor, StaticSampler, Subobject, SwapEffect, SwapchainDesc, WeakPtr,
    Interface, E_FAIL, S_OK,
};

#[test]
fn heap_enums_use_the_foreign_codes() {
    assert_eq!(HeapType::Default.to_raw(), 1);
    assert_eq!(HeapType::Upload.to_raw(), 2);
    assert_eq!(HeapType::Readback.to_raw(), 3);
    assert_eq!(HeapType::Custom.to_raw(), 4);
    assert_eq!(CpuPageProperty::Unknown.to_raw(), 0);
    assert_eq!(CpuPageProperty::NotAvailable.to_raw(), 1);
    assert_eq!(CpuPageProperty::WriteCombine.to_raw(), 2);
    assert_eq!(CpuPageProperty::WriteBack.to_raw(), 3);
    assert_eq!(MemoryPool::Unknown.to_raw(), 0);
    assert_eq!(MemoryPool::L0.to_raw(), 1);
    assert_eq!(MemoryPool::L1.to_raw(), 2);
}

#[test]
fn heap_properties_marshal_every_field() {
    let p = HeapProperties::new(HeapType::Upload, CpuPageProperty::WriteCombine, MemoryPool::L0, 1, 3);
    assert_eq!(p.heap_type, 2);
    assert_eq!(p.cpu_page_property, 2);
    assert_eq!(p.memory_pool_preference, 1);
    assert_eq!(p.creation_node_mask, 1);
    assert_eq!(p.visible_node_mask, 3);
}

#[test]
fn heap_desc_carries_fields_unchanged() {
    let p = HeapProperties::new(HeapType::Default, CpuPageProperty::Unknown, MemoryPool::Unknown, 0, 0);
    let d = HeapDesc::new(65536, p, 4096, d3d12::heap::HEAP_FLAG_SHARED);
    assert_eq!(d.size_in_bytes, 65536);
    assert_eq!(d.alignment, 4096);
    assert_eq!(d.flags, 0x1);
    assert_eq!(d.properties, p);
}

#[test]
fn list_and_queue_enums_use_the_foreign_codes() {
    assert_eq!(CmdListType::Direct.to_raw(), 0);
    assert_eq!(CmdListType::Bundle.to_raw(), 1);
    assert_eq!(CmdListType::Compute.to_raw(), 2);
    assert_eq!(CmdListType::Copy.to_raw(), 3);
    assert_eq!(Priority::Normal.to_raw(), 0);
    assert_eq!(Priority::High.to_raw(), 100);
    assert_eq!(Priority::GlobalRealtime.to_raw(), 10000);
}

#[test]
fn command_queue_desc_marshals_every_field() {
    let d = CommandQueueDesc::new(
        CmdListType::Compute,
        Priority::High,
        d3d12::queue::COMMAND_QUEUE_FLAG_DISABLE_GPU_TIMEOUT,
        2,
    );
    assert_eq!(d.list_type, 2);
    assert_eq!(d.priority, 100);
    assert_eq!(d.flags, 0x1);
    assert_eq!(d.node_mask, 2);
}

#[test]
fn descriptor_enums_use_the_foreign_codes() {
    assert_eq!(DescriptorHeapType::CbvSrvUav.to_raw(), 0);
    assert_eq!(DescriptorHeapType::Sampler.to_raw(), 1);
    assert_eq!(DescriptorHeapType::Rtv.to_raw(), 2);
    assert_eq!(DescriptorHeapType::Dsv.to_raw(), 3);
    assert_eq!(ShaderVisibility::All.to_raw(), 0);
    assert_eq!(ShaderVisibility::VS.to_raw(), 1);
    assert_eq!(ShaderVisibility::HS.to_raw(), 2);
    assert_eq!(ShaderVisibility::DS.to_raw(), 3);
    assert_eq!(ShaderVisibility::GS.to_raw(), 4);
    assert_eq!(ShaderVisibility::PS.to_raw(), 5);
    assert_eq!(DescriptorRangeType::SRV.to_raw(), 0);
    assert_eq!(DescriptorRangeType::UAV.to_raw(), 1);
    assert_eq!(DescriptorRangeType::CBV.to_raw(), 2);
    assert_eq!(DescriptorRangeType::Sampler.to_raw(), 3);
    assert_eq!(StaticBorderColor::TransparentBlack.to_raw(), 0);
    assert_eq!(StaticBorderColor::OpaqueBlack.to_raw(), 1);
    assert_eq!(StaticBorderColor::OpaqueWhite.to_raw(), 2);
    assert_eq!(RootSignatureVersion::V1_0.to_raw(), 1);
    assert_eq!(RootSignatureVersion::V1_1.to_raw(), 2);
}

#[test]
fn descriptor_heap_desc_marshals_every_field() {
    let d = DescriptorHeapDesc::new(
        DescriptorHeapType::Rtv,
        64,
        d3d12::descriptor::DESCRIPTOR_HEAP_FLAG_SHADER_VISIBLE,
        0,
    );
    assert_eq!(d.heap_type, 2);
    assert_eq!(d.num_descriptors, 64);
    assert_eq!(d.flags, 0x1);
    assert_eq!(d.node_mask, 0);
}

#[test]
fn descriptor_range_splits_the_binding() {
    let r = DescriptorRange::new(
        DescriptorRangeType::CBV,
        4,
        Binding { space: 7, register: 11 },
        2,
    );
    assert_eq!(r.range_type, 2);
    assert_eq!(r.count, 4);
    assert_eq!(r.base_register, 11);
    assert_eq!(r.register_space, 7);
    assert_eq!(r.offset, 2);
}

#[test]
fn root_parameters_keep_their_payloads() {
    let b = Binding { space: 1, register: 2 };
    let table = RootParameter::descriptor_table(
        ShaderVisibility::PS,
        vec![DescriptorRange::new(DescriptorRangeType::SRV, 8, b, 0)],
    );
    assert_eq!(table.raw_kind(), 0);
    match &table.kind {
        RootParameterKind::DescriptorTable { ranges } => {
            assert_eq!(ranges.len(), 1);
            assert_eq!(ranges[0].count, 8);
        }
        other => panic!("expected a descriptor table, got {:?}", other),
    }

    let consts = RootParameter::constants(ShaderVisibility::All, b, 3);
    assert_eq!(consts.raw_kind(), 1);
    match consts.kind {
        RootParameterKind::Constants { binding, num } => {
            assert_eq!(binding, b);
            assert_eq!(num, 3);
        }
        other => panic!("expected constants, got {:?}", other),
    }

    assert_eq!(RootParameter::cbv_descriptor(ShaderVisibility::VS, b).raw_kind(), 2);
    assert_eq!(RootParameter::srv_descriptor(ShaderVisibility::VS, b).raw_kind(), 3);
    assert_eq!(RootParameter::uav_descriptor(ShaderVisibility::VS, b).raw_kind(), 4);
}

#[test]
fn static_sampler_marshals_every_field() {
    let s = StaticSampler::new(
        ShaderVisibility::PS,
        Binding { space: 0, register: 5 },
        0x15,
        [1, 2, 3],
        0,
        16,
        8,
        StaticBorderColor::OpaqueWhite,
        0,
        0x7F7FFFFF,
    );
    assert_eq!(s.filter, 0x15);
    assert_eq!(s.address_u, 1);
    assert_eq!(s.address_v, 2);
    assert_eq!(s.address_w, 3);
    assert_eq!(s.max_anisotropy, 16);
    assert_eq!(s.comparison_op, 8);
    assert_eq!(s.border_color, 2);
    assert_eq!(s.max_lod_bits, 0x7F7FFFFF);
    assert_eq!(s.shader_register, 5);
    assert_eq!(s.register_space, 0);
    assert_eq!(s.visibility, 5);
}

#[test]
fn root_signature_desc_counts_its_elements() {
    let b = Binding { space: 0, register: 0 };
    let d = RootSignatureDesc::new(
        vec![
            RootParameter::constants(ShaderVisibility::All, b, 1),
            RootParameter::cbv_descriptor(ShaderVisibility::VS, b),
        ],
        vec![],
        d3d12::descriptor::ROOT_SIGNATURE_FLAG_ALLOW_IA_INPUT_LAYOUT,
    );
    assert_eq!(d.counts(), (2, 0));
    assert_eq!(d.flags, 0x1);
}

#[test]
fn render_target_view_texture_2d_tags_the_dimension() {
    let v = RenderTargetViewDesc::texture_2d(28, 1, 0);
    assert_eq!(v.format, 28);
    assert_eq!(v.view_dimension, 4);
    assert_eq!(v.mip_slice, 1);
    assert_eq!(v.plane_slice, 0);
}

#[test]
fn indirect_arguments_use_the_foreign_tags() {
    assert_eq!(IndirectArgument::draw().raw_kind(), 0);
    assert_eq!(IndirectArgument::draw_indexed().raw_kind(), 1);
    assert_eq!(IndirectArgument::dispatch().raw_kind(), 2);
    assert_eq!(IndirectArgument::vertex_buffer(3).raw_kind(), 3);
    assert_eq!(IndirectArgument::constant(0, 1, 2).raw_kind(), 5);
    assert_eq!(IndirectArgument::constant_buffer_view(0).raw_kind(), 6);
    assert_eq!(IndirectArgument::shader_resource_view(0).raw_kind(), 7);
    assert_eq!(IndirectArgument::unordered_access_view(0).raw_kind(), 8);
    assert_eq!(
        IndirectArgument::constant(9, 4, 2),
        IndirectArgument::Constant { root_index: 9, dest_offset_words: 4, count: 2 }
    );
}

#[test]
fn transition_barrier_carries_the_resource_address() {
    let res = d3d12::Resource::from_raw(0x8000);
    let b = ResourceBarrier::transition(res, 0, 0x1, 0x4, 0);
    assert_eq!(b.barrier_type, 0);
    assert_eq!(b.resource, 0x8000);
    assert_eq!(b.subresource, 0);
    assert_eq!(b.state_before, 0x1);
    assert_eq!(b.state_after, 0x4);
    assert_eq!(b.flags, 0);
}

#[test]
fn discard_region_counts_the_whole_subresource_range() {
    let region = DiscardRegion {
        rects: vec![Rect { left: 0, top: 0, right: 4, bottom: 4 }],
        subregion_start: 2,
        subregion_end: 5,
    };
    let raw = region.to_raw();
    assert_eq!(raw.num_rects, 1);
    assert_eq!(raw.first_subresource, 2);
    assert_eq!(raw.num_subresources, 3);
}

#[test]
fn query_heap_desc_marshals_every_field() {
    assert_eq!(QueryHeapType::Occlusion.to_raw(), 0);
    assert_eq!(QueryHeapType::Timestamp.to_raw(), 1);
    assert_eq!(QueryHeapType::PipelineStatistics.to_raw(), 2);
    assert_eq!(QueryHeapType::SOStatistics.to_raw(), 3);
    let d = QueryHeapDesc::new(QueryHeapType::Timestamp, 32, 0);
    assert_eq!(d.heap_type, 1);
    assert_eq!(d.count, 32);
    assert_eq!(d.node_mask, 0);
}

#[test]
fn shader_references_mark_null_with_zeroes() {
    let none = Shader::null();
    assert_eq!(none.pointer, 0);
    assert_eq!(none.size, 0);
    let some = Shader::from_raw(0x9000, 128);
    assert_eq!(some.pointer, 0x9000);
    assert_eq!(some.size, 128);
    let cache = CachedPSO::null();
    assert_eq!(cache.pointer, 0);
    assert_eq!(cache.size, 0);
}

#[test]
fn compile_result_decides_by_the_status_code() {
    let ok = Shader::compile_result(S_OK, 0x9000, 0);
    let (blob, err) = ok.expect("success must yield the buffers");
    assert_eq!(blob.as_ptr(), 0x9000);
    assert!(err.is_null());
    let failed = Shader::compile_result(E_FAIL, 0, 0xA000);
    assert_eq!(failed.unwrap_err().code, E_FAIL);
}

#[test]
fn compute_pipeline_desc_carries_the_root_signature_address() {
    let rs = RootSignature::from_raw(0xB000);
    let d = ComputePipelineStateDesc::new(rs, Shader::from_raw(0x9000, 64), 0, CachedPSO::null(), 0);
    assert_eq!(d.root_signature, 0xB000);
    assert_eq!(d.cs.pointer, 0x9000);
    assert_eq!(d.cs.size, 64);
    assert_eq!(d.cached_pso.pointer, 0);
}

#[test]
fn command_signature_desc_counts_its_arguments() {
    let d = CommandSignatureDesc::new(16, vec![IndirectArgument::draw(), IndirectArgument::dispatch()], 0);
    assert_eq!(d.byte_stride, 16);
    assert_eq!(d.num_argument_descs(), 2);
}

#[test]
fn pipeline_subobjects_use_the_foreign_tags() {
    assert_eq!(Subobject::RootSignature.to_raw(), 0);
    assert_eq!(Subobject::VS.to_raw(), 1);
    assert_eq!(Subobject::CS.to_raw(), 6);
    assert_eq!(Subobject::SampleMask.to_raw(), 9);
    assert_eq!(Subobject::SampleDesc.to_raw(), 17);
    assert_eq!(Subobject::CachedPSO.to_raw(), 19);
    assert_eq!(Subobject::DepthStencil1.to_raw(), 21);
    let tagged = d3d12::PipelineStateSubobject::new(Subobject::SampleMask, 0xFFFF_u32);
    assert_eq!(tagged.subobject_type, 9);
    assert_eq!(tagged.subobject, 0xFFFF);
}

#[test]
fn feature_levels_use_the_foreign_codes() {
    assert_eq!(FeatureLevel::L9_1.to_raw(), 0x9100);
    assert_eq!(FeatureLevel::L11_0.to_raw(), 0xB000);
    assert_eq!(FeatureLevel::L12_1.to_raw(), 0xC100);
}

#[test]
fn swapchain_desc_marshals_enums_and_booleans() {
    let desc = SwapchainDesc {
        width: 1920,
        height: 1080,
        format: 28,
        stereo: false,
        sample: SampleDesc { count: 1, quality: 0 },
        buffer_usage: d3d12::dxgi::USAGE_RENDER_TARGET_OUTPUT,
        buffer_count: 3,
        scaling: Scaling::Identity,
        swap_effect: SwapEffect::FlipDiscard,
        alpha_mode: AlphaMode::Ignore,
        flags: 0,
    };
    let raw = desc.to_raw();
    assert_eq!(raw.width, 1920);
    assert_eq!(raw.height, 1080);
    assert_eq!(raw.format, 28);
    assert_eq!(raw.stereo, 0);
    assert_eq!(raw.sample_count, 1);
    assert_eq!(raw.sample_quality, 0);
    assert_eq!(raw.buffer_usage, 0x20);
    assert_eq!(raw.buffer_count, 3);
    assert_eq!(raw.scaling, 1);
    assert_eq!(raw.swap_effect, 4);
    assert_eq!(raw.alpha_mode, 3);

    let stereo = SwapchainDesc { stereo: true, ..desc };
    assert_eq!(stereo.to_raw().stereo, 1);
}

#[test]
fn dxgi_enums_use_the_foreign_codes() {
    assert_eq!(Scaling::Stretch.to_raw(), 0);
    assert_eq!(Scaling::Identity.to_raw(), 1);
    assert_eq!(Scaling::Aspect.to_raw(), 2);
    assert_eq!(SwapEffect::Discard.to_raw(), 0);
    assert_eq!(SwapEffect::Sequential.to_raw(), 1);
    assert_eq!(SwapEffect::FlipSequential.to_raw(), 3);
    assert_eq!(SwapEffect::FlipDiscard.to_raw(), 4);
    assert_eq!(AlphaMode::Unspecified.to_raw(), 0);
    assert_eq!(AlphaMode::Premultiplied.to_raw(), 1);
    assert_eq!(AlphaMode::Straight.to_raw(), 2);
    assert_eq!(AlphaMode::Ignore.to_raw(), 3);
    assert_eq!(AlphaMode::ForceDword.to_raw(), 0xFFFFFFFF);
}

#[test]
fn interface_identifiers_follow_the_registered_layout() {
    let g = WeakPtr::<d3d12::ID3D12Device>::null();
    let _ = g;
    let iid = d3d12::ID3D12Device::iid();
    assert_eq!(iid.data1, 0x189819f1);
    assert_eq!(iid.data2, 0x1db6);
    assert_eq!(iid.data3, 0x4b57);
    assert_eq!(iid.data4, 0xbe54_1821_339b_85f7);
    let unknown = d3d12::IUnknown::iid();
    assert_eq!(unknown.data1, 0);
    assert_eq!(unknown.data4, 0xC000_0000_0000_0046);
}
