//! The renderer: a camera, its controller, and the list of passes that make
//! up a frame.

use crate::dvs::voxelization::{VoxelizationPass, VoxelizationShaders, PUSH_CONSTANT_SIZE};
use crate::error::Error;
use crate::pass::black_board::BlackBoard;
use crate::pass::render_context::RenderContext;
use crate::pass::render_pass::RenderPass;
use crate::render_client::camera::{AspectRatio, Camera};
use crate::render_client::camera_controller::CameraController;
use crate::render_client::command::{Command, CommandEncoder, OpenPass, QueueOp, RenderTarget};
use crate::render_client::event::InputEvent;
use crate::render_client::render_device::{
    BUFFER_BINDING_ARRAY, COMPUTE_SHADERS, PUSH_CONSTANTS, STORAGE_RESOURCE_BINDING_ARRAY,
    DownlevelCapabilities, DownlevelFlags, Features, Limits, RenderDevice, RenderDeviceContext,
    ShaderModel,
};
use crate::render_client::surface_wrapper::SurfaceConfig;
use crate::scene::scene_object_loader::{load_scene_objects, RawMaterial, RawModel};
use crate::utils::float_bits::Vec3Bits;
use crate::utils::float_bits::{F32_0_05, F32_ONE, F32_THREE, F32_ZERO};
use vstd::prelude::*;

verus! {

/// Storage buffers that a shader stage of this renderer binds at most.
pub const STORAGE_BUFFERS_PER_STAGE: u32 = 8;

/// What the renderer is built from: the models and materials of the geometry
/// file, and the shaders of the voxelization pass.
#[derive(Debug, PartialEq, Eq)]
pub struct SceneAssets {
    pub models: Vec<RawModel>,
    /// `None` where the material library could not be read.
    pub materials: Option<Vec<RawMaterial>>,
    pub shaders: VoxelizationShaders,
}

#[derive(Debug)]
pub struct DeferredVoxelShading {
    pub passes: Vec<VoxelizationPass>,
    pub camera: Camera,
    pub camera_controller: CameraController,
    pub render_context: RenderContext,
    pub black_board: BlackBoard,
}

/// The commands of a frame: those of each pass, in the order of the passes.
pub open spec fn frame_commands(passes: Seq<VoxelizationPass>) -> Seq<Command>
    decreases passes.len(),
{
    if passes.len() == 0 {
        Seq::empty()
    } else {
        frame_commands(passes.drop_last()) + passes.last().frame_commands()
    }
}

/// What the voxelization pass creates stays within the limits that the
/// renderer asks the device for: its two tiers are no more bind groups than
/// a pipeline may have, each tier has no more buffers of its kind than a stage
/// may see, every binding is smaller than the largest binding, no binding
/// number is too high, and the push constants fit.
pub proof fn lemma_pass_within_required_limits()
    ensures
        ({
            let limits = DeferredVoxelShading::spec_required_limits();
            let global = crate::dvs::voxelization::global_layout_entries();
            let per_mesh = crate::dvs::voxelization::per_mesh_layout_entries();
            &&& 2 <= limits.max_bind_groups
            &&& global.len() <= limits.max_uniform_buffers_per_shader_stage
            &&& per_mesh.len() <= limits.max_storage_buffers_per_shader_stage
            &&& PUSH_CONSTANT_SIZE <= limits.max_push_constant_size
            &&& forall|i: int|
                0 <= i < global.len() ==> {
                    &&& (#[trigger] global[i]).ty is Uniform
                    &&& global[i].binding < limits.max_bindings_per_bind_group
                    &&& global[i].min_binding_size <= limits.max_uniform_buffer_binding_size
                }
            &&& forall|i: int|
                0 <= i < per_mesh.len() ==> {
                    &&& (#[trigger] per_mesh[i]).ty is Storage
                    &&& per_mesh[i].binding < limits.max_bindings_per_bind_group
                    &&& per_mesh[i].min_binding_size <= limits.max_storage_buffer_binding_size
                }
        }),
{
}

/// A frame holds the commands of every pass, whole and in the order of the
/// passes: command `k` of pass `i` stands at place `6 * i + k`.
pub proof fn lemma_frame_commands_in_pass_order(passes: Seq<VoxelizationPass>, i: int, k: int)
    requires
        0 <= i < passes.len(),
        0 <= k < 6,
    ensures
        frame_commands(passes).len() == 6 * passes.len(),
        frame_commands(passes)[6 * i + k] == passes[i].frame_commands()[k],
    decreases passes.len(),
{
    lemma_frame_commands_len(passes);
    lemma_frame_commands_len(passes.drop_last());
    if i < passes.len() - 1 {
        lemma_frame_commands_in_pass_order(passes.drop_last(), i, k);
        assert(passes.drop_last()[i] == passes[i]);
    } else {
        assert(passes.last() == passes[i]);
    }
}

proof fn lemma_frame_commands_len(passes: Seq<VoxelizationPass>)
    ensures
        frame_commands(passes).len() == 6 * passes.len(),
    decreases passes.len(),
{
    if passes.len() > 0 {
        lemma_frame_commands_len(passes.drop_last());
    }
}

/// The commands of a frame are well nested, whatever the passes: each pass
/// ends the compute pass that it begins.
pub proof fn lemma_frame_is_well_nested(passes: Seq<VoxelizationPass>)
    ensures
        crate::render_client::command::well_nested(frame_commands(passes)),
    decreases passes.len(),
{
    if passes.len() > 0 {
        lemma_frame_is_well_nested(passes.drop_last());
        let pass = passes.last();
        let c0 = Seq::<Command>::empty().push(Command::BeginComputePass);
        let c1 = c0.push(Command::SetPipeline { pipeline: pass.projection_pipeline });
        let c2 = c1.push(Command::SetBindGroup { index: 0, bind_group: pass.bind_group });
        let c3 = c2.push(Command::SetBindGroup { index: 1, bind_group: pass.bind_group_per_mesh });
        let c4 = c3.push(
            Command::DispatchWorkgroups {
                x: crate::dvs::voxelization::PROJECTION_WORKGROUPS,
                y: 1,
                z: 1,
            },
        );
        let c5 = c4.push(Command::EndComputePass);
        crate::render_client::command::lemma_open_after_push(
            Seq::<Command>::empty(),
            Command::BeginComputePass,
        );
        crate::render_client::command::lemma_open_after_push(
            c0,
            Command::SetPipeline { pipeline: pass.projection_pipeline },
        );
        crate::render_client::command::lemma_open_after_push(
            c1,
            Command::SetBindGroup { index: 0, bind_group: pass.bind_group },
        );
        crate::render_client::command::lemma_open_after_push(
            c2,
            Command::SetBindGroup { index: 1, bind_group: pass.bind_group_per_mesh },
        );
        crate::render_client::command::lemma_open_after_push(
            c3,
            Command::DispatchWorkgroups {
                x: crate::dvs::voxelization::PROJECTION_WORKGROUPS,
                y: 1,
                z: 1,
            },
        );
        crate::render_client::command::lemma_open_after_push(c4, Command::EndComputePass);
        assert(c5 =~= pass.frame_commands());
        crate::render_client::command::lemma_well_nested_concat(
            frame_commands(passes.drop_last()),
            pass.frame_commands(),
        );
    }
}

/// The writes that come before a frame: for each pass, in the order of the
/// passes, the camera's matrix into the uniform buffer of the pass.
pub open spec fn frame_writes(passes: Seq<VoxelizationPass>, camera: Camera) -> Seq<QueueOp> {
    Seq::new(
        passes.len(),
        |i: int| QueueOp::WriteViewProjection { buffer: passes[i].camera_uniform, camera },
    )
}

/// The camera that the renderer starts with: at (0, 1, 3), looking along the
/// positive z axis, with the aspect ratio of the surface.
pub open spec fn initial_camera(width: u32, height: u32) -> Camera {
    Camera {
        eye: Vec3Bits { x: F32_ZERO, y: F32_ONE, z: F32_THREE },
        dir: Vec3Bits { x: F32_ZERO, y: F32_ZERO, z: F32_ONE },
        aspect: AspectRatio { width, height },
        ..Camera::spec_default()
    }
}

/// `pass` is `before` with the size of its surface set to `extent`.
pub open spec fn resized_pass(
    before: VoxelizationPass,
    extent: (u32, u32),
    pass: VoxelizationPass,
) -> bool {
    &&& pass.extent == extent
    &&& pass.scene_objects == before.scene_objects
    &&& pass.projection_pipeline == before.projection_pipeline
    &&& pass.bind_group == before.bind_group
    &&& pass.bind_group_per_mesh == before.bind_group_per_mesh
    &&& pass.camera_uniform == before.camera_uniform
}

impl RenderDevice for DeferredVoxelShading {
    type Assets = SceneAssets;

    open spec fn spec_srgb() -> bool {
        true
    }

    /// Arrays of buffer bindings and of storage resources, and push constants.
    open spec fn spec_optional_features() -> Features {
        Features { bits: BUFFER_BINDING_ARRAY | STORAGE_RESOURCE_BINDING_ARRAY | PUSH_CONSTANTS }
    }

    open spec fn spec_required_features() -> Features {
        Features::spec_empty()
    }

    /// Compute shaders, at shader model 5.
    open spec fn spec_required_downlevel_capabilities() -> DownlevelCapabilities {
        DownlevelCapabilities {
            flags: DownlevelFlags { bits: COMPUTE_SHADERS },
            shader_model: ShaderModel::Sm5,
        }
    }

    /// Modest limits, with eight storage buffers in a stage and the push
    /// constants of the projection step.
    open spec fn spec_required_limits() -> Limits {
        Limits::spec_downlevel(STORAGE_BUFFERS_PER_STAGE, PUSH_CONSTANT_SIZE)
    }

    fn srgb() -> (srgb: bool) {
        true
    }

    fn optional_features() -> (features: Features) {
        Features { bits: BUFFER_BINDING_ARRAY | STORAGE_RESOURCE_BINDING_ARRAY | PUSH_CONSTANTS }
    }

    fn required_features() -> (features: Features) {
        Features::empty()
    }

    fn required_downlevel_capabilities() -> (capabilities: DownlevelCapabilities) {
        DownlevelCapabilities {
            flags: DownlevelFlags { bits: COMPUTE_SHADERS },
            shader_model: ShaderModel::Sm5,
        }
    }

    fn required_limits() -> (limits: Limits) {
        Limits::downlevel(STORAGE_BUFFERS_PER_STAGE, PUSH_CONSTANT_SIZE)
    }

    /// Loads the scene and builds the renderer around one voxelization pass.
    ///
    /// A scene that cannot be loaded (an incomplete material, a faulty mesh, a
    /// material that the library does not hold) fails before anything is
    /// created. A projection shader that did not compile fails after the
    /// scene's buffers were created. Otherwise the renderer has the camera of
    /// `initial_camera`, a controller of speed 0.05, an empty black board, and
    /// the one pass, which holds the scene's objects.
    fn init(config: &SurfaceConfig, device_context: &mut RenderDeviceContext, assets: SceneAssets) -> (r:
        Result<DeferredVoxelShading, Error>)
        ensures
            final(device_context).queue@ == old(device_context).queue@,
            final(device_context).features == old(device_context).features,
            final(device_context).limits == old(device_context).limits,
            match crate::scene::scene_object_loader::scene_fault(
                assets.models@,
                crate::scene::scene_object_loader::library(assets.materials),
            ) {
                Some(fault) => {
                    &&& r matches Err(e) && e == fault
                    &&& final(device_context).device@ == old(device_context).device@
                },
                None => match crate::shader_pipeline::shader::compiled(assets.shaders.projection) {
                    Err(failure) => {
                        &&& r matches Err(e) && e == failure
                        &&& final(device_context).device@.len() == old(
                            device_context,
                        ).device@.len() + 3 * assets.models@.len()
                    },
                    Ok(words) => r matches Ok(renderer) && {
                        let base = old(device_context).device@.len() as int;
                        let scene_end = base + 3 * assets.models@.len();
                        &&& renderer.camera == initial_camera(config.width, config.height)
                        &&& renderer.camera_controller == CameraController::spec_new(F32_0_05)
                        &&& renderer.black_board@ == Map::<
                            Seq<char>,
                            crate::render_client::resource::TextureId,
                        >::empty()
                        &&& renderer.passes@.len() == 1
                        &&& renderer.passes@[0].wf(final(device_context).device@)
                        &&& renderer.passes@[0].extent == (config.width, config.height)
                        &&& renderer.passes@[0].projection_pipeline.0 == scene_end + 5
                        &&& renderer.passes@[0].bind_group.0 == scene_end + 6
                        &&& renderer.passes@[0].bind_group_per_mesh.0 == scene_end + 7
                        &&& renderer.passes@[0].camera_uniform.0 == scene_end + 8
                        &&& renderer.passes@[0].scene_objects@.len() == assets.models@.len()
                        &&& forall|i: int|
                            0 <= i < assets.models@.len()
                                ==> crate::scene::scene_object::object_at(
                                final(device_context).device@,
                                base + 3 * i,
                                #[trigger] renderer.passes@[0].scene_objects@[i],
                                assets.models@[i].name@,
                                crate::scene::scene_object_loader::mesh_positions(
                                    assets.models@[i].mesh.positions@,
                                ),
                                crate::scene::scene_object_loader::mesh_indices(
                                    assets.models@[i].mesh,
                                ),
                                crate::scene::scene_object_loader::model_material_words(
                                    assets.models@[i],
                                    crate::scene::scene_object_loader::library(assets.materials),
                                ),
                            )
                        &&& VoxelizationPass::resources_at(
                            final(device_context).device@,
                            scene_end,
                            words,
                            assets.shaders.voxelization,
                        )
                    },
                },
            },
    {
        let SceneAssets { models, materials, shaders } = assets;
        let ghost base = device_context.device@.len() as int;
        let scene_objects = match load_scene_objects(&mut device_context.device, &models, materials) {
            Ok(objects) => objects,
            Err(e) => {
                return Err(e);
            },
        };
        let ghost scene_log = device_context.device@;
        let ghost objects = scene_objects@;
        let mut passes: Vec<VoxelizationPass> = Vec::new();

        let camera = Camera {
            eye: Vec3Bits { x: F32_ZERO, y: F32_ONE, z: F32_THREE },
            dir: Vec3Bits { x: F32_ZERO, y: F32_ZERO, z: F32_ONE },
            aspect: AspectRatio { width: config.width, height: config.height },
            ..Camera::default()
        };
        let camera_controller = CameraController::new(F32_0_05);

        let voxelization_pass = match VoxelizationPass::create_pass(
            config,
            &mut device_context.device,
            scene_objects,
            shaders,
        ) {
            Ok(pass) => pass,
            Err(e) => {
                return Err(e);
            },
        };
        passes.push(voxelization_pass);
        proof {
            let log = device_context.device@;
            assert(scene_log.is_prefix_of(log));
            assert forall|i: int| 0 <= i < models@.len() implies crate::scene::scene_object::object_at(
                log,
                base + 3 * i,
                #[trigger] passes@[0].scene_objects@[i],
                models@[i].name@,
                crate::scene::scene_object_loader::mesh_positions(models@[i].mesh.positions@),
                crate::scene::scene_object_loader::mesh_indices(models@[i].mesh),
                crate::scene::scene_object_loader::model_material_words(
                    models@[i],
                    crate::scene::scene_object_loader::library(materials),
                ),
            ) by {
                assert(passes@[0].scene_objects@[i] == objects[i]);
                assert(crate::scene::scene_object::object_at(
                    scene_log,
                    base + 3 * i,
                    objects[i],
                    models@[i].name@,
                    crate::scene::scene_object_loader::mesh_positions(models@[i].mesh.positions@),
                    crate::scene::scene_object_loader::mesh_indices(models@[i].mesh),
                    crate::scene::scene_object_loader::model_material_words(
                        models@[i],
                        crate::scene::scene_object_loader::library(materials),
                    ),
                ));
                assert(log[base + 3 * i] == scene_log[base + 3 * i]);
                assert(log[base + 3 * i + 1] == scene_log[base + 3 * i + 1]);
                assert(log[base + 3 * i + 2] == scene_log[base + 3 * i + 2]);
            }
        }

        Ok(
            DeferredVoxelShading {
                passes,
                camera,
                camera_controller,
                render_context: RenderContext {  },
                black_board: BlackBoard::new(),
            },
        )
    }

    /// The controller takes the event, then every pass is shown it.
    fn process_event(&mut self, event: InputEvent)
        ensures
            final(self).camera_controller == old(self).camera_controller.spec_process_input(
                event,
            ).0,
            final(self).passes@ == old(self).passes@,
            final(self).camera == old(self).camera,
            final(self).black_board == old(self).black_board,
    {
        self.camera_controller.process_input(&event);

        let n = self.passes.len();
        let mut i: usize = 0;
        while i < n
            invariant
                n == self.passes@.len(),
                i <= n,
                self.passes@ == old(self).passes@,
                self.camera == old(self).camera,
                self.black_board == old(self).black_board,
                self.camera_controller == old(self).camera_controller.spec_process_input(event).0,
            decreases n - i,
        {
            let ghost before = self.passes@;
            self.passes[i].process_event(&event);
            assert(self.passes@ =~= before);
            i += 1;
        }
    }

    /// Every pass, in the order of the list, queues its writes for the camera
    /// as it is now. Moving the camera is a step of its own, before this one.
    fn update_render(&mut self, device_context: &mut RenderDeviceContext)
        ensures
            final(device_context).queue@ == old(device_context).queue@ + frame_writes(
                old(self).passes@,
                old(self).camera,
            ),
            final(device_context).device@ == old(device_context).device@,
            final(self).passes@ == old(self).passes@,
            final(self).camera == old(self).camera,
            final(self).camera_controller == old(self).camera_controller,
            final(self).black_board == old(self).black_board,
    {
        let n = self.passes.len();
        let mut i: usize = 0;
        while i < n
            invariant
                n == self.passes@.len(),
                i <= n,
                self.passes@ == old(self).passes@,
                self.camera == old(self).camera,
                self.camera_controller == old(self).camera_controller,
                self.black_board == old(self).black_board,
                device_context.device@ == old(device_context).device@,
                device_context.queue@ == old(device_context).queue@ + frame_writes(
                    old(self).passes@,
                    old(self).camera,
                ).subrange(0, i as int),
            decreases n - i,
        {
            let ghost before = self.passes@;
            let ghost queue = device_context.queue@;
            let camera = self.camera;
            self.passes[i].update_render(device_context, &camera, &mut self.black_board);
            assert(self.passes@ =~= before);
            assert(device_context.queue@ =~= old(device_context).queue@ + frame_writes(
                old(self).passes@,
                old(self).camera,
            ).subrange(0, i + 1));
            i += 1;
        }
        assert(frame_writes(old(self).passes@, old(self).camera).subrange(0, n as int)
            =~= frame_writes(old(self).passes@, old(self).camera));
    }

    /// The camera takes the aspect ratio of the surface, and every pass is
    /// told the new configuration, once.
    fn resize(&mut self, config: &SurfaceConfig, device_context: &mut RenderDeviceContext)
        ensures
            final(self).camera == (Camera {
                aspect: AspectRatio { width: config.width, height: config.height },
                ..old(self).camera
            }),
            final(self).passes@.len() == old(self).passes@.len(),
            forall|i: int|
                0 <= i < old(self).passes@.len() ==> resized_pass(
                    old(self).passes@[i],
                    (config.width, config.height),
                    #[trigger] final(self).passes@[i],
                ),
            final(self).camera_controller == old(self).camera_controller,
            final(self).black_board == old(self).black_board,
            *final(device_context) == *old(device_context),
    {
        self.camera.aspect = AspectRatio { width: config.width, height: config.height };
        let n = self.passes.len();
        let mut i: usize = 0;
        while i < n
            invariant
                n == self.passes@.len(),
                n == old(self).passes@.len(),
                i <= n,
                self.camera == (Camera {
                    aspect: AspectRatio { width: config.width, height: config.height },
                    ..old(self).camera
                }),
                self.camera_controller == old(self).camera_controller,
                self.black_board == old(self).black_board,
                *device_context == *old(device_context),
                forall|j: int|
                    0 <= j < i ==> resized_pass(
                        old(self).passes@[j],
                        (config.width, config.height),
                        #[trigger] self.passes@[j],
                    ),
                forall|j: int| i <= j < n ==> self.passes@[j] == old(self).passes@[j],
            decreases n - i,
        {
            self.passes[i].on_resized(config, device_context);
            i += 1;
        }
    }

    /// Records the frame into one encoder, pass by pass in the order of the
    /// list, and submits it once.
    fn render(&mut self, back_buffer_view: RenderTarget, device_context: &mut RenderDeviceContext)
        ensures
            final(device_context).queue@.last() matches QueueOp::Submit(buffer) && buffer@
                == frame_commands(old(self).passes@),
            final(device_context).device@ == old(device_context).device@,
            final(self).passes@ == old(self).passes@,
            final(self).camera == old(self).camera,
            final(self).camera_controller == old(self).camera_controller,
            final(self).black_board == old(self).black_board,
    {
        let mut encoder = CommandEncoder::new();

        let n = self.passes.len();
        let mut i: usize = 0;
        while i < n
            invariant
                n == self.passes@.len(),
                i <= n,
                self.passes@ == old(self).passes@,
                self.camera == old(self).camera,
                self.camera_controller == old(self).camera_controller,
                self.black_board == old(self).black_board,
                *device_context == *old(device_context),
                encoder.open_pass() == Some(OpenPass::Idle),
                encoder@ == frame_commands(old(self).passes@.subrange(0, i as int)),
            decreases n - i,
        {
            let ghost before = self.passes@;
            self.passes[i].render(
                back_buffer_view,
                &mut encoder,
                device_context,
                &self.render_context,
                &mut self.black_board,
            );
            assert(self.passes@ =~= before);
            proof {
                let done = old(self).passes@.subrange(0, i + 1);
                assert(done.drop_last() =~= old(self).passes@.subrange(0, i as int));
                assert(done.last() == old(self).passes@[i as int]);
            }
            i += 1;
        }
        assert(old(self).passes@.subrange(0, n as int) =~= old(self).passes@);

        device_context.queue.submit(encoder.finish());
    }
}

} // verus!
