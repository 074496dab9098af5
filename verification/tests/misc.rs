use voxel_shading::error::Error;
use voxel_shading::point_cloud::point_cloud::{organize_batch, PointCloud};
use voxel_shading::point_cloud::point_cloud_renderer::{PointCloudAssets, PointCloudRenderer};
use voxel_shading::render_client::command::{
    Color, Command, CommandEncoder, Queue, QueueOp, RenderTarget,
};
use voxel_shading::render_client::event::InputEvent;
use voxel_shading::render_client::render_device::{
    Features, Limits, RenderDevice, RenderDeviceContext,
};
use voxel_shading::render_client::resource::{
    BindGroupDescriptor, BindGroupId, BindGroupLayoutDescriptor, BindGroupLayoutEntry,
    BindGroupLayoutId, BufferBindingType, BufferId, BufferInitDescriptor, BufferUsage,
    ComputePipelineDescriptor, ComputePipelineId, Device, PipelineLayoutDescriptor,
    PipelineLayoutId, Resource, ShaderModuleDescriptor, ShaderModuleId, ShaderSource,
    ShaderStages, TextureDescriptor, TextureDimension, TextureId, TextureViewDescriptor,
    TextureViewId,
};
use voxel_shading::render_client::surface_wrapper::SurfaceConfig;
use voxel_shading::render_client::texture::Texture;
use voxel_shading::shader_pipeline::shader::{compile_glsl, create_shader_module, Compilation};
use voxel_shading::utils::counter::{FrameCounter, FrameReport};
use voxel_shading::utils::float_bits::Vec3Bits;

fn context() -> RenderDeviceContext {
    RenderDeviceContext {
        features: Features::empty(),
        limits: Limits::downlevel(4, 0),
        device: Device::new(),
        queue: Queue::new(),
    }
}

fn config() -> SurfaceConfig {
    SurfaceConfig {
        width: 10,
        height: 10,
        format: wgpu::TextureFormat::Rgba8Unorm,
        view_formats: vec![],
    }
}

fn texture_desc(label: &str) -> TextureDescriptor {
    TextureDescriptor {
        label: Some(String::from(label)),
        width: 64,
        height: 64,
        depth_or_array_layers: 64,
        mip_level_count: 1,
        sample_count: 1,
        dimension: TextureDimension::D3,
        format: wgpu::TextureFormat::Rgba8Unorm,
        storage_binding: true,
        texture_binding: true,
        render_attachment: false,
    }
}

fn view_desc(level: u32) -> TextureViewDescriptor {
    TextureViewDescriptor {
        label: None,
        format: None,
        base_mip_level: level,
        mip_level_count: Some(1),
        base_array_layer: 0,
        array_layer_count: None,
    }
}

fn p(x: f32, y: f32, z: f32) -> Vec3Bits {
    Vec3Bits { x: x.to_bits(), y: y.to_bits(), z: z.to_bits() }
}

#[test]
fn error_messages() {
    assert_eq!(Error::ShaderCompilerUnavailable.message(), "Failed to create shaderc compiler");
    assert_eq!(Error::ShaderOptionsUnavailable.message(), "Failed to create shaderc Options");
    assert_eq!(Error::ShaderCompilation(String::from("bad")).message(), "bad");
}

#[test]
fn compile_glsl_hands_on_the_words() {
    assert_eq!(compile_glsl(Compilation::Binary(vec![1, 2, 3])), Ok(vec![1, 2, 3]));
    assert_eq!(compile_glsl(Compilation::Binary(vec![])), Ok(vec![]));
}

#[test]
fn compile_glsl_names_each_failure() {
    assert_eq!(compile_glsl(Compilation::NoCompiler), Err(Error::ShaderCompilerUnavailable));
    assert_eq!(compile_glsl(Compilation::NoOptions), Err(Error::ShaderOptionsUnavailable));
    assert_eq!(
        compile_glsl(Compilation::Failed(String::from("oops"))),
        Err(Error::ShaderCompilation(String::from("oops")))
    );
}

#[test]
fn shader_module_is_labelled_with_name_and_entry_point() {
    let mut device = Device::new();
    let id = create_shader_module(&mut device, Compilation::Binary(vec![9, 8]), "blur.glsl", "cs")
        .unwrap();
    assert_eq!(id, ShaderModuleId(0));
    assert_eq!(
        device.get(0),
        Some(&Resource::ShaderModule(ShaderModuleDescriptor {
            label: Some(String::from("blur.glsl_cs")),
            source: ShaderSource::SpirV(vec![9, 8]),
        }))
    );
    let id = create_shader_module(&mut device, Compilation::Binary(vec![]), "", "").unwrap();
    assert_eq!(id, ShaderModuleId(1));
    match device.get(1) {
        Some(Resource::ShaderModule(desc)) => assert_eq!(desc.label.as_deref(), Some("_")),
        other => panic!("unexpected {:?}", other),
    }
}

#[test]
fn shader_module_of_a_failed_compilation_is_not_created() {
    let mut device = Device::new();
    assert_eq!(
        create_shader_module(&mut device, Compilation::NoCompiler, "a", "b"),
        Err(Error::ShaderCompilerUnavailable)
    );
    assert_eq!(
        create_shader_module(&mut device, Compilation::Failed(String::from("x")), "a", "b"),
        Err(Error::ShaderCompilation(String::from("x")))
    );
    assert_eq!(device.len(), 0);
}

#[test]
fn device_hands_out_handles_in_creation_order() {
    let mut device = Device::new();
    assert_eq!(device.len(), 0);
    assert_eq!(device.get(0), None);
    let module = device.create_shader_module(ShaderModuleDescriptor {
        label: None,
        source: ShaderSource::Wgsl(String::from("x")),
    });
    let entry = BindGroupLayoutEntry {
        binding: 0,
        visibility: ShaderStages::compute(),
        ty: BufferBindingType::Uniform,
        has_dynamic_offset: false,
        min_binding_size: 64,
    };
    let layout = device.create_bind_group_layout(BindGroupLayoutDescriptor {
        label: None,
        entries: vec![entry],
    });
    let pipeline_layout = device.create_pipeline_layout(PipelineLayoutDescriptor {
        label: None,
        bind_group_layouts: vec![layout],
        push_constant_ranges: vec![],
    });
    let pipeline = device.create_compute_pipeline(ComputePipelineDescriptor {
        label: None,
        layout: Some(pipeline_layout),
        module,
        entry_point: String::from("main"),
    });
    let buffer = device.create_buffer_init(BufferInitDescriptor {
        label: None,
        contents: vec![1, 2, 3, 4],
        usage: BufferUsage::Uniform,
    });
    let group = device.create_bind_group(BindGroupDescriptor {
        label: None,
        layout,
        entries: vec![voxel_shading::render_client::resource::BindGroupEntry {
            binding: 0,
            buffer,
        }],
    });
    assert_eq!(module, ShaderModuleId(0));
    assert_eq!(layout, BindGroupLayoutId(1));
    assert_eq!(pipeline_layout, PipelineLayoutId(2));
    assert_eq!(pipeline, ComputePipelineId(3));
    assert_eq!(buffer, BufferId(4));
    assert_eq!(group, BindGroupId(5));
    assert_eq!(device.len(), 6);
    assert!(matches!(device.get(4), Some(Resource::Buffer(_))));
    assert_eq!(device.get(6), None);
    assert_eq!(ShaderStages::compute(), ShaderStages { vertex: false, fragment: false, compute: true });
}

#[test]
fn encoder_keeps_commands_in_order() {
    let mut encoder = CommandEncoder::new();
    let clear = Color { r: 1, g: 2, b: 3, a: 4 };
    encoder.begin_render_pass(RenderTarget::View(TextureViewId(3)), clear);
    encoder.end_render_pass();
    encoder.begin_compute_pass();
    encoder.dispatch_workgroups(1, 2, 3);
    encoder.end_compute_pass();
    let buffer = encoder.finish();
    assert_eq!(
        buffer.commands(),
        &vec![
            Command::BeginRenderPass { target: RenderTarget::View(TextureViewId(3)), clear },
            Command::EndRenderPass,
            Command::BeginComputePass,
            Command::DispatchWorkgroups { x: 1, y: 2, z: 3 },
            Command::EndComputePass,
        ]
    );
}

#[test]
fn queue_hands_work_over_oldest_first_and_once() {
    let mut queue = Queue::new();
    assert!(queue.take().is_empty());
    let camera = voxel_shading::render_client::camera::Camera::default();
    queue.write_view_projection(BufferId(2), camera);
    queue.submit(CommandEncoder::new().finish());
    queue.write_view_projection(BufferId(5), camera);
    let work = queue.take();
    assert_eq!(work.len(), 3);
    assert_eq!(work[0], QueueOp::WriteViewProjection { buffer: BufferId(2), camera });
    assert!(matches!(work[1], QueueOp::Submit(_)));
    assert_eq!(work[2], QueueOp::WriteViewProjection { buffer: BufferId(5), camera });
    assert!(queue.take().is_empty());
}

#[test]
fn texture_views_are_numbered_from_zero() {
    let mut device = Device::new();
    device.create_buffer_init(BufferInitDescriptor {
        label: None,
        contents: vec![],
        usage: BufferUsage::Vertex,
    });
    let mut texture = Texture::new(&mut device, texture_desc("grid"));
    assert_eq!(texture.id(), TextureId(1));
    assert_eq!(texture.view_count(), 0);
    assert_eq!(device.get(1), Some(&Resource::Texture(texture_desc("grid"))));

    assert_eq!(texture.create_view(&mut device, view_desc(0)), Ok(0));
    assert_eq!(texture.create_view(&mut device, view_desc(1)), Ok(1));
    assert_eq!(texture.view_count(), 2);
    assert_eq!(texture.get_view(0), Some(&TextureViewId(2)));
    assert_eq!(texture.get_view(1), Some(&TextureViewId(3)));
    assert_eq!(
        device.get(3),
        Some(&Resource::TextureView { texture: TextureId(1), desc: view_desc(1) })
    );
    assert_eq!(texture.id(), TextureId(1));
}

#[test]
fn frame_counter_reports_after_more_than_a_second() {
    let mut counter = FrameCounter::new();
    assert_eq!(counter.frames(), 0);
    assert_eq!(counter.update(0.0f32.to_bits()), None);
    assert_eq!(counter.update(0.5f32.to_bits()), None);
    assert_eq!(counter.update(1.0f32.to_bits()), None);
    assert_eq!(counter.frames(), 3);
    let elapsed = 1.25f32;
    let report = counter.update(elapsed.to_bits()).unwrap();
    assert_eq!(report, FrameReport { elapsed_secs: elapsed.to_bits(), frame_count: 4 });
    let frame_time = f32::from_bits(report.elapsed_secs) * 1000.0 / report.frame_count as f32;
    let fps = report.frame_count as f32 / f32::from_bits(report.elapsed_secs);
    assert_eq!(frame_time, 312.5);
    assert_eq!(fps, 3.2);
    assert_eq!(counter.frames(), 0);
    assert_eq!(counter.update(0.0f32.to_bits()), None);
    assert_eq!(counter.frames(), 1);
}

#[test]
fn frame_counter_threshold_is_the_floating_point_comparison() {
    let just_above = f32::from_bits(1.0f32.to_bits() + 1);
    for v in [0.0f32, 1e-30, 0.999_999_94, 1.0, just_above, 2.0, 3.4e38, f32::INFINITY] {
        let mut counter = FrameCounter::new();
        assert_eq!(counter.update(v.to_bits()).is_some(), v > 1.0, "{}", v);
    }
}

#[test]
fn points_are_not_batched_yet() {
    assert_eq!(organize_batch(&vec![]), Ok(vec![]));
    assert_eq!(organize_batch(&vec![p(1.0, 2.0, 3.0), p(4.0, 5.0, 6.0)]), Ok(vec![]));
}

#[test]
fn unreadable_scan_is_an_empty_cloud() {
    let cloud = PointCloud::from(None);
    assert!(cloud.point_xyz_list.is_empty());
    assert!(cloud.batches.is_empty());
    let cloud = PointCloud::from(Some(vec![p(1.0, 2.0, 3.0)]));
    assert_eq!(cloud.point_xyz_list, vec![p(1.0, 2.0, 3.0)]);
    assert!(cloud.batches.is_empty());
}

#[test]
fn point_cloud_renderer_creates_seven_resources() {
    let mut context = context();
    let renderer = PointCloudRenderer::init(
        &config(),
        &mut context,
        PointCloudAssets { points: Some(vec![p(0.0, 0.0, 0.0)]), shader: String::from("cs") },
    )
    .unwrap();
    assert_eq!(context.device.len(), 7);
    assert_eq!(renderer.bind_group_global, BindGroupId(2));
    assert_eq!(renderer.bind_group_per_pass, BindGroupId(3));
    assert_eq!(renderer.pipeline, ComputePipelineId(6));
    assert_eq!(renderer.point_cloud.point_xyz_list.len(), 1);

    let compute = ShaderStages::compute();
    let entry = |binding: u32, ty: BufferBindingType, size: u64| BindGroupLayoutEntry {
        binding,
        visibility: compute,
        ty,
        has_dynamic_offset: false,
        min_binding_size: size,
    };
    assert_eq!(
        context.device.get(0),
        Some(&Resource::BindGroupLayout(BindGroupLayoutDescriptor {
            label: None,
            entries: vec![
                entry(0, BufferBindingType::Uniform, 64),
                entry(1, BufferBindingType::Storage { read_only: false }, 8),
            ],
        }))
    );
    assert_eq!(
        context.device.get(1),
        Some(&Resource::BindGroupLayout(BindGroupLayoutDescriptor {
            label: None,
            entries: vec![
                entry(0, BufferBindingType::Storage { read_only: true }, 12),
                entry(1, BufferBindingType::Storage { read_only: true }, 12),
            ],
        }))
    );
    assert_eq!(
        context.device.get(2),
        Some(&Resource::BindGroup(BindGroupDescriptor {
            label: None,
            layout: BindGroupLayoutId(0),
            entries: vec![],
        }))
    );
    assert_eq!(
        context.device.get(3),
        Some(&Resource::BindGroup(BindGroupDescriptor {
            label: None,
            layout: BindGroupLayoutId(1),
            entries: vec![],
        }))
    );
    assert_eq!(
        context.device.get(4),
        Some(&Resource::PipelineLayout(PipelineLayoutDescriptor {
            label: None,
            bind_group_layouts: vec![BindGroupLayoutId(0), BindGroupLayoutId(1)],
            push_constant_ranges: vec![],
        }))
    );
    assert_eq!(
        context.device.get(5),
        Some(&Resource::ShaderModule(ShaderModuleDescriptor {
            label: None,
            source: ShaderSource::Wgsl(String::from("cs")),
        }))
    );
    assert_eq!(
        context.device.get(6),
        Some(&Resource::ComputePipeline(ComputePipelineDescriptor {
            label: None,
            layout: Some(PipelineLayoutId(4)),
            module: ShaderModuleId(5),
            entry_point: String::from("render_point_cs"),
        }))
    );
}

#[test]
fn point_cloud_renderer_starts_without_points_when_the_scan_is_unreadable() {
    let mut context = context();
    let renderer = PointCloudRenderer::init(
        &config(),
        &mut context,
        PointCloudAssets { points: None, shader: String::new() },
    )
    .unwrap();
    assert!(renderer.point_cloud.point_xyz_list.is_empty());
    assert_eq!(context.device.len(), 7);
}

#[test]
fn point_cloud_renderer_clears_the_frame_in_one_submission() {
    let mut context = context();
    let mut renderer = PointCloudRenderer::init(
        &config(),
        &mut context,
        PointCloudAssets { points: None, shader: String::new() },
    )
    .unwrap();
    renderer.update_render(&mut context);
    renderer.resize(&config(), &mut context);
    renderer.process_event(InputEvent::Other);
    assert!(context.queue.take().is_empty());
    renderer.render(RenderTarget::BackBuffer, &mut context);
    let work = context.queue.take();
    assert_eq!(work.len(), 1);
    match &work[0] {
        QueueOp::Submit(buffer) => assert_eq!(
            buffer.commands(),
            &vec![
                Command::BeginRenderPass {
                    target: RenderTarget::BackBuffer,
                    clear: Color {
                        r: 0.1f64.to_bits(),
                        g: 0.2f64.to_bits(),
                        b: 0.3f64.to_bits(),
                        a: 1.0f64.to_bits(),
                    },
                },
                Command::EndRenderPass,
            ]
        ),
        other => panic!("unexpected {:?}", other),
    }
    assert_eq!(context.device.len(), 7);
}
