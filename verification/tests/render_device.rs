use voxel_shading::dvs::deferred_voxel_shading::DeferredVoxelShading;
use voxel_shading::point_cloud::point_cloud_renderer::PointCloudRenderer;
use voxel_shading::render_client::render_device::{
    AdapterCapabilities, DownlevelCapabilities, DownlevelFlags, Features, InitError, Limits,
    RenderDevice, RenderDeviceContext, ShaderModel, BUFFER_BINDING_ARRAY, COMPUTE_SHADERS,
    PUSH_CONSTANTS, STORAGE_RESOURCE_BINDING_ARRAY,
};

fn all() -> Features {
    Features { bits: BUFFER_BINDING_ARRAY | STORAGE_RESOURCE_BINDING_ARRAY | PUSH_CONSTANTS }
}

fn only_push() -> Features {
    Features { bits: PUSH_CONSTANTS }
}

fn adapter(features: Features, compute: bool, model: ShaderModel) -> AdapterCapabilities {
    let mut limits = Limits::downlevel(16, 128);
    limits.max_texture_dimension_1d = 16384;
    limits.max_texture_dimension_2d = 8192;
    limits.max_texture_dimension_3d = 1024;
    limits.max_bind_groups = 8;
    AdapterCapabilities {
        features,
        downlevel: DownlevelCapabilities {
            flags: DownlevelFlags { bits: if compute { COMPUTE_SHADERS | 0x6 } else { 0x6 } },
            shader_model: model,
        },
        limits,
    }
}

struct Demanding;

impl RenderDevice for Demanding {
    type Assets = ();

    fn spec_srgb() -> bool {
        Self::srgb()
    }

    fn spec_optional_features() -> Features {
        Self::optional_features()
    }

    fn spec_required_features() -> Features {
        Self::required_features()
    }

    fn spec_required_downlevel_capabilities() -> DownlevelCapabilities {
        Self::required_downlevel_capabilities()
    }

    fn spec_required_limits() -> Limits {
        Self::required_limits()
    }

    fn srgb() -> bool {
        false
    }

    fn optional_features() -> Features {
        Features { bits: BUFFER_BINDING_ARRAY }
    }

    fn required_features() -> Features {
        Features { bits: STORAGE_RESOURCE_BINDING_ARRAY | PUSH_CONSTANTS }
    }

    fn required_downlevel_capabilities() -> DownlevelCapabilities {
        DownlevelCapabilities {
            flags: DownlevelFlags { bits: COMPUTE_SHADERS },
            shader_model: ShaderModel::Sm4,
        }
    }

    fn required_limits() -> Limits {
        Limits::downlevel(2, 16)
    }

    fn init(
        _config: &voxel_shading::render_client::surface_wrapper::SurfaceConfig,
        _device_context: &mut RenderDeviceContext,
        _assets: (),
    ) -> Result<Self, voxel_shading::error::Error> {
        Ok(Demanding)
    }

    fn resize(
        &mut self,
        _config: &voxel_shading::render_client::surface_wrapper::SurfaceConfig,
        _device_context: &mut RenderDeviceContext,
    ) {
    }

    fn process_event(&mut self, _event: voxel_shading::render_client::event::InputEvent) {}

    fn update_render(&mut self, _device_context: &mut RenderDeviceContext) {}

    fn render(
        &mut self,
        _back_buffer_view: voxel_shading::render_client::command::RenderTarget,
        device_context: &mut RenderDeviceContext,
    ) {
        let encoder = voxel_shading::render_client::command::CommandEncoder::new();
        device_context.queue.submit(encoder.finish());
    }
}

#[test]
fn feature_bits_are_those_of_the_graphics_library() {
    assert_eq!(BUFFER_BINDING_ARRAY, wgpu::Features::BUFFER_BINDING_ARRAY.bits());
    assert_eq!(
        STORAGE_RESOURCE_BINDING_ARRAY,
        wgpu::Features::STORAGE_RESOURCE_BINDING_ARRAY.bits()
    );
    assert_eq!(PUSH_CONSTANTS, wgpu::Features::PUSH_CONSTANTS.bits());
    assert_eq!(COMPUTE_SHADERS, wgpu::DownlevelFlags::COMPUTE_SHADERS.bits());
    assert_eq!(Features::empty().bits, wgpu::Features::empty().bits());
}

#[test]
fn feature_sets() {
    let a = Features { bits: BUFFER_BINDING_ARRAY | PUSH_CONSTANTS };
    let b = Features { bits: STORAGE_RESOURCE_BINDING_ARRAY | PUSH_CONSTANTS };
    assert_eq!(a.union(b), all());
    assert_eq!(a.intersection(b), only_push());
    assert_eq!(a.difference(b), Features { bits: BUFFER_BINDING_ARRAY });
    assert!(all().contains(a));
    assert!(a.contains(only_push()));
    assert!(!a.contains(b));
    assert!(a.contains(Features::empty()));
    assert!(Features::empty().contains(Features::empty()));
    assert!(!Features::empty().contains(only_push()));
    assert_eq!(Features::empty().union(Features::empty()), Features::empty());
    assert_eq!(Features::empty(), Features { bits: 0 });
}

#[test]
fn feature_sets_agree_with_the_graphics_library() {
    let samples = [0u64, 1, 0x1000_0000, 0x3000_0000, 0x8_3000_0000, 0xffff, u64::MAX];
    for x in samples {
        for y in samples {
            let (a, b) = (Features { bits: x }, Features { bits: y });
            let (wa, wb) =
                (wgpu::Features::from_bits_retain(x), wgpu::Features::from_bits_retain(y));
            assert_eq!(a.contains(b), wa.contains(wb));
            assert_eq!(a.union(b).bits, (wa | wb).bits());
            assert_eq!(a.intersection(b).bits, (wa & wb).bits());
            assert_eq!(a.difference(b).bits, (wa - wb).bits());
        }
    }
}

#[test]
fn a_feature_of_another_kind_can_be_named() {
    let timestamps = Features { bits: wgpu::Features::TIMESTAMP_QUERY.bits() };
    assert!(!all().contains(timestamps));
    assert!(all().union(timestamps).contains(timestamps));
    assert_eq!(all().union(timestamps).difference(all()), timestamps);
}

#[test]
fn shader_models_are_ordered() {
    assert!(ShaderModel::Sm2.rank() < ShaderModel::Sm4.rank());
    assert!(ShaderModel::Sm4.rank() < ShaderModel::Sm5.rank());
}

#[test]
fn downlevel_flags() {
    let with = DownlevelFlags { bits: COMPUTE_SHADERS };
    let without = DownlevelFlags { bits: 0 };
    assert!(with.contains(with));
    assert!(with.contains(without));
    assert!(without.contains(without));
    assert!(!without.contains(with));
    assert_eq!(with.difference(without), with);
    assert_eq!(with.difference(with), without);
    assert_eq!(DownlevelFlags { bits: 0x7 }.difference(with), DownlevelFlags { bits: 0x6 });
}

#[test]
fn downlevel_limits_table() {
    let l = Limits::downlevel(8, 32);
    assert_eq!(l.max_texture_dimension_1d, 2048);
    assert_eq!(l.max_texture_dimension_2d, 2048);
    assert_eq!(l.max_texture_dimension_3d, 256);
    assert_eq!(l.max_texture_array_layers, 256);
    assert_eq!(l.max_bind_groups, 4);
    assert_eq!(l.max_bindings_per_bind_group, 1000);
    assert_eq!(l.max_dynamic_uniform_buffers_per_pipeline_layout, 8);
    assert_eq!(l.max_dynamic_storage_buffers_per_pipeline_layout, 4);
    assert_eq!(l.max_sampled_textures_per_shader_stage, 16);
    assert_eq!(l.max_samplers_per_shader_stage, 16);
    assert_eq!(l.max_storage_buffers_per_shader_stage, 8);
    assert_eq!(l.max_storage_textures_per_shader_stage, 4);
    assert_eq!(l.max_uniform_buffers_per_shader_stage, 12);
    assert_eq!(l.max_uniform_buffer_binding_size, 16 << 10);
    assert_eq!(l.max_storage_buffer_binding_size, 128 << 20);
    assert_eq!(l.max_vertex_buffers, 8);
    assert_eq!(l.max_vertex_attributes, 16);
    assert_eq!(l.max_vertex_buffer_array_stride, 2048);
    assert_eq!(l.max_push_constant_size, 32);
    assert_eq!(l.min_uniform_buffer_offset_alignment, 256);
    assert_eq!(l.min_storage_buffer_offset_alignment, 256);
    assert_eq!(l.max_inter_stage_shader_components, 60);
    assert_eq!(l.max_compute_workgroup_storage_size, 16352);
    assert_eq!(l.max_compute_invocations_per_workgroup, 256);
    assert_eq!(l.max_compute_workgroup_size_x, 256);
    assert_eq!(l.max_compute_workgroup_size_y, 256);
    assert_eq!(l.max_compute_workgroup_size_z, 64);
    assert_eq!(l.max_compute_workgroups_per_dimension, 65535);
    assert_eq!(l.max_buffer_size, 256 << 20);
    assert_eq!(l.max_non_sampler_bindings, 1_000_000);
}

#[test]
fn downlevel_limits_match_the_graphics_library() {
    let ours = Limits::downlevel(4, 0);
    let theirs = wgpu::Limits::downlevel_defaults();
    assert_eq!(ours.max_texture_dimension_1d, theirs.max_texture_dimension_1d);
    assert_eq!(ours.max_texture_dimension_2d, theirs.max_texture_dimension_2d);
    assert_eq!(ours.max_texture_dimension_3d, theirs.max_texture_dimension_3d);
    assert_eq!(ours.max_bind_groups, theirs.max_bind_groups);
    assert_eq!(
        ours.max_storage_buffers_per_shader_stage,
        theirs.max_storage_buffers_per_shader_stage
    );
    assert_eq!(ours.max_uniform_buffer_binding_size, theirs.max_uniform_buffer_binding_size);
    assert_eq!(ours.max_storage_buffer_binding_size, theirs.max_storage_buffer_binding_size);
    assert_eq!(ours.max_push_constant_size, theirs.max_push_constant_size);
    assert_eq!(
        ours.max_compute_workgroup_storage_size,
        theirs.max_compute_workgroup_storage_size
    );
    assert_eq!(ours.max_buffer_size, theirs.max_buffer_size);
}

#[test]
fn using_resolution_takes_only_the_texture_dimensions() {
    let ours = Limits::downlevel(8, 32);
    let other = adapter(all(), true, ShaderModel::Sm5).limits;
    let merged = ours.using_resolution(other);
    assert_eq!(merged.max_texture_dimension_1d, 16384);
    assert_eq!(merged.max_texture_dimension_2d, 8192);
    assert_eq!(merged.max_texture_dimension_3d, 1024);
    let mut expected = ours;
    expected.max_texture_dimension_1d = 16384;
    expected.max_texture_dimension_2d = 8192;
    expected.max_texture_dimension_3d = 1024;
    assert_eq!(merged, expected);
    assert_eq!(merged.max_bind_groups, 4);
    assert_eq!(merged.max_push_constant_size, 32);
}

#[test]
fn voxel_renderer_requirements() {
    assert!(DeferredVoxelShading::srgb());
    assert_eq!(DeferredVoxelShading::optional_features(), all());
    assert_eq!(DeferredVoxelShading::optional_features().bits, 0x8_3000_0000);
    assert_eq!(DeferredVoxelShading::required_features(), Features::empty());
    assert_eq!(
        DeferredVoxelShading::required_downlevel_capabilities(),
        DownlevelCapabilities {
            flags: DownlevelFlags { bits: COMPUTE_SHADERS },
            shader_model: ShaderModel::Sm5,
        }
    );
    assert_eq!(DeferredVoxelShading::required_limits(), Limits::downlevel(8, 32));
}

#[test]
fn point_cloud_renderer_requirements() {
    assert!(PointCloudRenderer::srgb());
    assert_eq!(
        PointCloudRenderer::optional_features(),
        Features { bits: BUFFER_BINDING_ARRAY | STORAGE_RESOURCE_BINDING_ARRAY }
    );
    assert_eq!(PointCloudRenderer::required_features(), Features::empty());
    assert_eq!(PointCloudRenderer::required_limits(), Limits::downlevel(4, 0));
    assert_eq!(
        PointCloudRenderer::required_downlevel_capabilities().flags,
        DownlevelFlags { bits: COMPUTE_SHADERS }
    );
}

#[test]
fn device_gets_required_and_available_optional_features() {
    let capabilities = adapter(
        Features { bits: PUSH_CONSTANTS | wgpu::Features::TIMESTAMP_QUERY.bits() },
        true,
        ShaderModel::Sm5,
    );
    assert_eq!(RenderDeviceContext::check_adapter::<DeferredVoxelShading>(&capabilities), None);
    let context = RenderDeviceContext::init_async::<DeferredVoxelShading>(&capabilities);
    assert_eq!(context.features, only_push());
    assert_eq!(context.device.len(), 0);
    let mut expected = Limits::downlevel(8, 32);
    expected.max_texture_dimension_1d = 16384;
    expected.max_texture_dimension_2d = 8192;
    expected.max_texture_dimension_3d = 1024;
    assert_eq!(context.limits, expected);

    let capabilities = adapter(all(), true, ShaderModel::Sm4);
    assert_eq!(RenderDeviceContext::check_adapter::<Demanding>(&capabilities), None);
    let mut context = RenderDeviceContext::init_async::<Demanding>(&capabilities);
    assert_eq!(context.features, all());
    assert!(context.queue.take().is_empty());

    let capabilities = adapter(
        Features { bits: STORAGE_RESOURCE_BINDING_ARRAY | PUSH_CONSTANTS },
        true,
        ShaderModel::Sm5,
    );
    assert_eq!(RenderDeviceContext::check_adapter::<Demanding>(&capabilities), None);
    let context = RenderDeviceContext::init_async::<Demanding>(&capabilities);
    assert_eq!(
        context.features,
        Features { bits: STORAGE_RESOURCE_BINDING_ARRAY | PUSH_CONSTANTS }
    );
}

#[test]
fn adapter_without_required_features_is_refused() {
    let r = RenderDeviceContext::check_adapter::<Demanding>(&adapter(
        Features { bits: BUFFER_BINDING_ARRAY | PUSH_CONSTANTS },
        false,
        ShaderModel::Sm2,
    ));
    assert_eq!(
        r,
        Some(InitError::MissingFeatures(Features { bits: STORAGE_RESOURCE_BINDING_ARRAY }))
    );
}

#[test]
fn adapter_with_low_shader_model_is_refused() {
    let r = RenderDeviceContext::check_adapter::<DeferredVoxelShading>(&adapter(
        all(),
        false,
        ShaderModel::Sm4,
    ));
    assert_eq!(r, Some(InitError::ShaderModel(ShaderModel::Sm5)));
    let r = RenderDeviceContext::check_adapter::<Demanding>(&adapter(
        all(),
        true,
        ShaderModel::Sm2,
    ));
    assert_eq!(r, Some(InitError::ShaderModel(ShaderModel::Sm4)));
}

#[test]
fn adapter_without_compute_is_refused() {
    let r = RenderDeviceContext::check_adapter::<DeferredVoxelShading>(&adapter(
        Features::empty(),
        false,
        ShaderModel::Sm5,
    ));
    assert_eq!(r, Some(InitError::MissingDownlevelFlags(DownlevelFlags { bits: COMPUTE_SHADERS })));
}
