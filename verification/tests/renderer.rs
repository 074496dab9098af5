use voxel_shading::dvs::deferred_voxel_shading::{DeferredVoxelShading, SceneAssets};
use voxel_shading::dvs::voxelization::VoxelizationShaders;
use voxel_shading::error::{Error, MaterialField};
use voxel_shading::pass::render_pass::RenderPass;
use voxel_shading::render_client::camera::{AspectRatio, Camera};
use voxel_shading::render_client::camera_controller::{CameraController, MoveDir};
use voxel_shading::render_client::command::{Command, Queue, QueueOp, RenderTarget};
use voxel_shading::render_client::event::{ElementState, InputEvent, MouseButton};
use voxel_shading::render_client::render_device::{
    Features, Limits, RenderDevice, RenderDeviceContext,
};
use voxel_shading::render_client::resource::{
    BindGroupId, BufferId, ComputePipelineId, Device, Resource,
};
use voxel_shading::render_client::surface_wrapper::SurfaceConfig;
use voxel_shading::scene::scene_object_loader::{RawMaterial, RawMesh, RawModel};
use voxel_shading::shader_pipeline::shader::Compilation;
use voxel_shading::utils::float_bits::Vec3Bits;

fn v3(x: f32, y: f32, z: f32) -> Vec3Bits {
    Vec3Bits { x: x.to_bits(), y: y.to_bits(), z: z.to_bits() }
}

fn config(width: u32, height: u32) -> SurfaceConfig {
    SurfaceConfig {
        width,
        height,
        format: wgpu::TextureFormat::Bgra8Unorm,
        view_formats: vec![wgpu::TextureFormat::Bgra8UnormSrgb],
    }
}

fn context() -> RenderDeviceContext {
    RenderDeviceContext {
        features: Features::empty(),
        limits: Limits::downlevel(8, 32),
        device: Device::new(),
        queue: Queue::new(),
    }
}

fn triangle(name: &str, material_id: Option<usize>) -> RawModel {
    RawModel {
        mesh: RawMesh {
            positions: [0.0f32, 0.0, 0.0, 1.0, 0.0, 0.0, 0.0, 1.0, 0.0]
                .iter()
                .map(|v| v.to_bits())
                .collect(),
            indices: vec![0, 1, 2],
            face_arities: vec![],
            material_id,
        },
        name: String::from(name),
    }
}

fn material() -> RawMaterial {
    RawMaterial {
        name: String::from("m"),
        ambient: Some(v3(0.1, 0.1, 0.1)),
        diffuse: Some(v3(0.5, 0.5, 0.5)),
        specular: Some(v3(1.0, 1.0, 1.0)),
        shininess: Some(8.0f32.to_bits()),
    }
}

fn assets(models: Vec<RawModel>, materials: Option<Vec<RawMaterial>>) -> SceneAssets {
    SceneAssets {
        models,
        materials,
        shaders: VoxelizationShaders {
            projection: Compilation::Binary(vec![7, 7, 7]),
            voxelization: String::from("wgsl"),
        },
    }
}

fn renderer(context: &mut RenderDeviceContext, models: usize) -> DeferredVoxelShading {
    let mut list = Vec::new();
    for i in 0..models {
        list.push(triangle(&format!("t{}", i), None));
    }
    DeferredVoxelShading::init(&config(800, 600), context, assets(list, None)).unwrap()
}

fn one_pass_commands(base: usize) -> Vec<Command> {
    vec![
        Command::BeginComputePass,
        Command::SetPipeline { pipeline: ComputePipelineId(base + 5) },
        Command::SetBindGroup { index: 0, bind_group: BindGroupId(base + 6) },
        Command::SetBindGroup { index: 1, bind_group: BindGroupId(base + 7) },
        Command::DispatchWorkgroups { x: 64, y: 1, z: 1 },
        Command::EndComputePass,
    ]
}

#[test]
fn init_loads_the_scene_and_builds_one_pass() {
    let mut context = context();
    let r = DeferredVoxelShading::init(
        &config(800, 600),
        &mut context,
        assets(vec![triangle("a", Some(0)), triangle("b", None)], Some(vec![material()])),
    )
    .unwrap();
    assert_eq!(context.device.len(), 6 + 9);
    assert_eq!(r.passes.len(), 1);
    assert_eq!(r.passes[0].scene_objects.len(), 2);
    assert_eq!(r.passes[0].scene_objects[0].name, "a");
    assert_eq!(r.passes[0].scene_objects[1].vertex_buffer, BufferId(3));
    assert_eq!(r.passes[0].projection_pipeline, ComputePipelineId(11));
    assert_eq!(r.passes[0].extent, (800, 600));
    assert_eq!(r.black_board.get("voxel_grid"), None);
    assert!(context.queue.take().is_empty());
    for i in 0..6 {
        assert!(matches!(context.device.get(i), Some(Resource::Buffer(_))));
    }
}

#[test]
fn init_places_the_camera() {
    let mut context = context();
    let r = renderer(&mut context, 0);
    assert_eq!(r.camera.eye, v3(0.0, 1.0, 3.0));
    assert_eq!(r.camera.dir, v3(0.0, 0.0, 1.0));
    assert_eq!(r.camera.up, v3(0.0, 1.0, 0.0));
    assert_eq!(r.camera.aspect, AspectRatio { width: 800, height: 600 });
    assert_eq!(f32::from_bits(r.camera.fov), 60.0);
    assert_eq!(f32::from_bits(r.camera.z_near), 0.1);
    assert_eq!(f32::from_bits(r.camera.z_far), 100.0);
    assert_eq!(r.camera_controller, CameraController::new(0.05f32.to_bits()));
}

#[test]
fn init_fails_on_incomplete_material_before_creating_anything() {
    let mut context = context();
    let mut broken = material();
    broken.shininess = None;
    let r = DeferredVoxelShading::init(
        &config(800, 600),
        &mut context,
        assets(vec![triangle("a", None)], Some(vec![broken])),
    );
    match r {
        Err(e) => assert_eq!(e, Error::MissingMaterialField(MaterialField::Shininess)),
        Ok(_) => panic!("an incomplete material was accepted"),
    }
    assert_eq!(context.device.len(), 0);
}

#[test]
fn init_fails_on_shader_after_the_scene_was_created() {
    let mut context = context();
    let mut a = assets(vec![triangle("a", None), triangle("b", None)], None);
    a.shaders.projection = Compilation::NoOptions;
    let r = DeferredVoxelShading::init(&config(800, 600), &mut context, a);
    match r {
        Err(e) => {
            assert_eq!(e, Error::ShaderOptionsUnavailable);
            assert_eq!(e.message(), "Failed to create shaderc Options");
        }
        Ok(_) => panic!("a shader that did not compile was accepted"),
    }
    assert_eq!(context.device.len(), 6);
}

#[test]
fn resize_sets_aspect_and_tells_every_pass_once() {
    let mut context = context();
    let mut r = renderer(&mut context, 1);
    assert_eq!(r.camera.aspect, AspectRatio { width: 800, height: 600 });
    let before = r.camera;

    r.resize(&config(1920, 1080), &mut context);

    let aspect = r.camera.aspect.width as f32 / r.camera.aspect.height as f32;
    assert_eq!(aspect, 1920.0f32 / 1080.0f32);
    assert_eq!(r.camera, Camera { aspect: AspectRatio { width: 1920, height: 1080 }, ..before });
    assert_eq!(r.passes.len(), 1);
    for pass in r.passes.iter() {
        assert_eq!(pass.extent, (1920, 1080));
    }
    assert_eq!(context.device.len(), 3 + 9);
    assert!(context.queue.take().is_empty());
}

struct CountingPass {
    resized: Vec<(u32, u32)>,
}

impl RenderPass for CountingPass {
    fn on_resized(&mut self, config: &SurfaceConfig, _device_context: &mut RenderDeviceContext) {
        self.resized.push((config.width, config.height));
    }

    fn process_event(&mut self, _event: &InputEvent) {}

    fn update_render(
        &mut self,
        _device_context: &mut RenderDeviceContext,
        _camera: &Camera,
        _black_board: &mut voxel_shading::pass::black_board::BlackBoard,
    ) {
    }

    fn render(
        &mut self,
        _back_buffer_view: RenderTarget,
        _encoder: &mut voxel_shading::render_client::command::CommandEncoder,
        _device_context: &mut RenderDeviceContext,
        _render_context: &voxel_shading::pass::render_context::RenderContext,
        _black_board: &mut voxel_shading::pass::black_board::BlackBoard,
    ) {
    }
}

#[test]
fn a_pass_of_another_kind_can_stand_behind_the_interface() {
    let mut context = context();
    let mut passes: Vec<Box<dyn RenderPass>> = vec![
        Box::new(CountingPass { resized: vec![] }),
        Box::new(voxel_shading::dvs::voxelization::VoxelizationPass::create_pass(
            &config(800, 600),
            &mut context.device,
            vec![],
            VoxelizationShaders {
                projection: Compilation::Binary(vec![1]),
                voxelization: String::new(),
            },
        )
        .unwrap()),
    ];
    for pass in passes.iter_mut() {
        pass.on_resized(&config(1920, 1080), &mut context);
    }
    let mut counting = CountingPass { resized: vec![] };
    counting.on_resized(&config(1920, 1080), &mut context);
    assert_eq!(counting.resized, vec![(1920, 1080)]);
}

#[test]
fn render_submits_one_command_buffer() {
    let mut context = context();
    let mut r = renderer(&mut context, 1);
    r.render(RenderTarget::BackBuffer, &mut context);
    let work = context.queue.take();
    assert_eq!(work.len(), 1);
    match &work[0] {
        QueueOp::Submit(buffer) => assert_eq!(buffer.commands(), &one_pass_commands(3)),
        other => panic!("unexpected {:?}", other),
    }
    assert!(context.queue.take().is_empty());
}

#[test]
fn render_records_the_passes_in_list_order() {
    let mut context = context();
    let mut r = renderer(&mut context, 0);
    let second = voxel_shading::dvs::voxelization::VoxelizationPass::create_pass(
        &config(800, 600),
        &mut context.device,
        vec![],
        VoxelizationShaders {
            projection: Compilation::Binary(vec![1]),
            voxelization: String::new(),
        },
    )
    .unwrap();
    r.passes.push(second);
    r.render(RenderTarget::BackBuffer, &mut context);
    let work = context.queue.take();
    assert_eq!(work.len(), 1);
    let mut expected = one_pass_commands(0);
    expected.extend(one_pass_commands(9));
    match &work[0] {
        QueueOp::Submit(buffer) => assert_eq!(buffer.commands(), &expected),
        other => panic!("unexpected {:?}", other),
    }
}

#[test]
fn render_without_passes_submits_an_empty_buffer() {
    let mut context = context();
    let mut r = renderer(&mut context, 0);
    r.passes.clear();
    r.render(RenderTarget::BackBuffer, &mut context);
    let work = context.queue.take();
    assert_eq!(work.len(), 1);
    match &work[0] {
        QueueOp::Submit(buffer) => assert!(buffer.commands().is_empty()),
        other => panic!("unexpected {:?}", other),
    }
}

#[test]
fn update_render_comes_before_render_and_submits_nothing() {
    let mut context = context();
    let mut r = renderer(&mut context, 2);
    r.camera.eye = v3(4.0, 5.0, 6.0);
    r.update_render(&mut context);
    r.render(RenderTarget::BackBuffer, &mut context);
    let work = context.queue.take();
    assert_eq!(work.len(), 2);
    assert_eq!(
        work[0],
        QueueOp::WriteViewProjection { buffer: BufferId(6 + 8), camera: r.camera }
    );
    assert!(matches!(work[1], QueueOp::Submit(_)));
}

#[test]
fn update_render_writes_once_for_each_pass() {
    let mut context = context();
    let mut r = renderer(&mut context, 0);
    let second = voxel_shading::dvs::voxelization::VoxelizationPass::create_pass(
        &config(800, 600),
        &mut context.device,
        vec![],
        VoxelizationShaders {
            projection: Compilation::Binary(vec![1]),
            voxelization: String::new(),
        },
    )
    .unwrap();
    r.passes.push(second);
    r.update_render(&mut context);
    assert_eq!(
        context.queue.take(),
        vec![
            QueueOp::WriteViewProjection { buffer: BufferId(8), camera: r.camera },
            QueueOp::WriteViewProjection { buffer: BufferId(17), camera: r.camera },
        ]
    );
}

#[test]
fn process_event_reaches_the_controller() {
    let mut context = context();
    let mut r = renderer(&mut context, 1);
    r.process_event(InputEvent::Character {
        text: String::from("d"),
        state: ElementState::Pressed,
    });
    assert_eq!(r.camera_controller.move_dir, MoveDir { x: 1, y: 0 });
    r.process_event(InputEvent::MouseInput {
        button: MouseButton::Right,
        state: ElementState::Pressed,
    });
    assert!(r.camera_controller.rotate_activated);
    assert_eq!(r.passes.len(), 1);
    assert_eq!(r.passes[0].extent, (800, 600));
    assert_eq!(r.camera.aspect, AspectRatio { width: 800, height: 600 });
}

#[test]
fn init_fails_on_a_material_outside_the_library_before_creating_anything() {
    let mut context = context();
    let r = DeferredVoxelShading::init(
        &config(800, 600),
        &mut context,
        assets(vec![triangle("a", Some(1))], Some(vec![material()])),
    );
    match r {
        Err(e) => assert_eq!(e, Error::UnknownMaterial),
        Ok(_) => panic!("an unknown material was accepted"),
    }
    assert_eq!(context.device.len(), 0);
}

#[test]
fn init_fails_on_a_faulty_mesh_before_creating_anything() {
    let mut context = context();
    let mut model = triangle("a", None);
    model.mesh.indices = vec![0, 1, 2, 0];
    let r = DeferredVoxelShading::init(&config(800, 600), &mut context, assets(vec![model], None));
    match r {
        Err(e) => assert_eq!(e, Error::MalformedFaces),
        Ok(_) => panic!("faces that do not fit were accepted"),
    }
    assert_eq!(context.device.len(), 0);
}

#[test]
fn init_takes_a_mesh_whatever_its_indices_hold() {
    let mut context = context();
    let mut model = triangle("a", None);
    model.mesh.indices = vec![0, 1, 7];
    let r = DeferredVoxelShading::init(&config(800, 600), &mut context, assets(vec![model], None))
        .unwrap();
    assert_eq!(r.passes[0].scene_objects.len(), 1);
    assert_eq!(context.device.len(), 3 + 9);
}
