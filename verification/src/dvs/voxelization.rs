//! Scene voxelization.
//!
//! There is no geometry shader to pick a projection axis for each triangle, so
//! the pass has two steps. A compute step projects each triangle onto the
//! axis it faces most and writes the projected vertices to a read-write
//! buffer. The voxelization step then takes that buffer as its vertex input
//! and stores albedo, normal and the like into the voxel grid.

use crate::error::Error;
use crate::pass::black_board::BlackBoard;
use crate::pass::render_context::RenderContext;
use crate::pass::render_pass::RenderPass;
use crate::render_client::camera::Camera;
use crate::render_client::command::{Command, CommandEncoder, RenderTarget};
use crate::render_client::event::InputEvent;
use crate::render_client::render_device::RenderDeviceContext;
use crate::render_client::resource::{
    BindGroupDescriptor, BindGroupId, BindGroupLayoutDescriptor, BindGroupLayoutEntry,
    BindGroupLayoutId, BufferBindingType, BufferId, BufferInitDescriptor, BufferUsage,
    ComputePipelineDescriptor, ComputePipelineId, Device, PipelineLayoutDescriptor,
    PipelineLayoutId, PushConstantRange, Resource, ShaderModuleDescriptor, ShaderModuleId,
    ShaderSource, ShaderStages,
};
use crate::render_client::surface_wrapper::SurfaceConfig;
use crate::scene::scene_object::SceneObject;
use crate::shader_pipeline::shader::{create_shader_module, Compilation};
use vstd::prelude::*;

verus! {

/// Bytes of the block of voxel grid parameters, the first global binding.
pub const GRID_PARAMETERS_SIZE: u64 = 256;

/// Bytes of a 4x4 matrix of single-precision numbers.
pub const MATRIX_SIZE: u64 = 64;

/// Bytes of one element of a per-mesh storage buffer.
pub const STORAGE_ELEMENT_SIZE: u64 = 16;

/// Bytes of push constants that the projection step reads.
pub const PUSH_CONSTANT_SIZE: u32 = 32;

/// Number of per-mesh bindings.
pub const PER_MESH_BINDINGS: u32 = 7;

/// Number of per-mesh bindings, from the first on, that are only read.
pub const PER_MESH_READ_ONLY: u32 = 3;

/// Workgroups of the projection step along x; along y and z it is one.
pub const PROJECTION_WORKGROUPS: u32 = 64;

/// A uniform buffer of at least `size` bytes, seen by the compute stage.
pub open spec fn uniform_binding(binding: u32, size: u64) -> BindGroupLayoutEntry {
    BindGroupLayoutEntry {
        binding,
        visibility: ShaderStages::spec_compute(),
        ty: BufferBindingType::Uniform,
        has_dynamic_offset: false,
        min_binding_size: size,
    }
}

/// A storage buffer of at least one element, seen by the compute stage.
pub open spec fn storage_binding(binding: u32, read_only: bool) -> BindGroupLayoutEntry {
    BindGroupLayoutEntry {
        binding,
        visibility: ShaderStages::spec_compute(),
        ty: BufferBindingType::Storage { read_only },
        has_dynamic_offset: false,
        min_binding_size: STORAGE_ELEMENT_SIZE,
    }
}

/// The global tier: the grid parameters, then three matrices.
pub open spec fn global_layout_entries() -> Seq<BindGroupLayoutEntry> {
    seq![
        uniform_binding(0, GRID_PARAMETERS_SIZE),
        uniform_binding(1, MATRIX_SIZE),
        uniform_binding(2, MATRIX_SIZE),
        uniform_binding(3, MATRIX_SIZE),
    ]
}

/// The per-mesh tier: seven storage buffers, of which the first three are
/// only read and the other four are written too.
pub open spec fn per_mesh_layout_entries() -> Seq<BindGroupLayoutEntry> {
    Seq::new(
        PER_MESH_BINDINGS as nat,
        |i: int| storage_binding(i as u32, i < PER_MESH_READ_ONLY),
    )
}

/// `resource` is a bind-group layout with this label and these entries.
pub open spec fn is_layout(
    resource: Resource,
    label: Seq<char>,
    entries: Seq<BindGroupLayoutEntry>,
) -> bool {
    &&& resource matches Resource::BindGroupLayout(desc)
    &&& desc.label matches Some(text)
    &&& text@ == label
    &&& desc.entries@ == entries
}

/// `resource` is the pipeline layout of the projection step: the two tiers
/// `global` and `per_mesh`, in this order and no others, and one range of push
/// constants for the compute stage.
pub open spec fn is_projection_pipeline_layout(
    resource: Resource,
    global: BindGroupLayoutId,
    per_mesh: BindGroupLayoutId,
) -> bool {
    &&& resource matches Resource::PipelineLayout(desc)
    &&& desc.label matches Some(text)
    &&& text@ == "Voxel Axis Projection PipelineLayout"@
    &&& desc.bind_group_layouts@ == seq![global, per_mesh]
    &&& desc.push_constant_ranges@ == seq![
        PushConstantRange {
            stages: ShaderStages::spec_compute(),
            start: 0,
            end: PUSH_CONSTANT_SIZE,
        },
    ]
}

/// `resource` is the pipeline of the projection step: the entry point `main`
/// of `module`, with the layout `layout`.
pub open spec fn is_projection_pipeline(
    resource: Resource,
    layout: PipelineLayoutId,
    module: ShaderModuleId,
) -> bool {
    &&& resource matches Resource::ComputePipeline(desc)
    &&& desc.label matches Some(text)
    &&& text@ == "Voxel Axis Projection Pipeline"@
    &&& desc.layout == Some(layout)
    &&& desc.module == module
    &&& desc.entry_point@ == "main"@
}

/// `resource` is a bind group of the layout `layout` with this label, and
/// binds nothing.
pub open spec fn is_empty_bind_group(
    resource: Resource,
    label: Seq<char>,
    layout: BindGroupLayoutId,
) -> bool {
    &&& resource matches Resource::BindGroup(desc)
    &&& desc.label matches Some(text)
    &&& text@ == label
    &&& desc.layout == layout
    &&& desc.entries@ == Seq::<crate::render_client::resource::BindGroupEntry>::empty()
}

/// `resource` is the shader module of the voxelization step, made of `source`.
pub open spec fn is_voxelization_shader(resource: Resource, source: String) -> bool {
    &&& resource matches Resource::ShaderModule(desc)
    &&& desc.label matches Some(text)
    &&& text@ == "Voxelization Shader"@
    &&& desc.source == ShaderSource::Wgsl(source)
}

/// `resource` is the uniform buffer of the camera: a matrix of zeros that the
/// queue can write to.
pub open spec fn is_camera_uniform(resource: Resource) -> bool {
    &&& resource matches Resource::Buffer(desc)
    &&& desc.label matches Some(text)
    &&& text@ == "Voxelization Camera Uniform"@
    &&& desc.usage == BufferUsage::UniformCopyDst
    &&& desc.contents@ == Seq::new(MATRIX_SIZE as nat, |i: int| 0u8)
}

/// The two shaders of the pass.
#[derive(Debug, PartialEq, Eq)]
pub struct VoxelizationShaders {
    /// The projection step's compute shader, compiled from GLSL.
    pub projection: Compilation,
    /// The voxelization step's shader, as WGSL text.
    pub voxelization: String,
}

#[derive(Debug)]
pub struct VoxelizationPass {
    pub scene_objects: Vec<SceneObject>,
    pub projection_pipeline: ComputePipelineId,
    pub bind_group: BindGroupId,
    pub bind_group_per_mesh: BindGroupId,
    pub camera_uniform: BufferId,
    /// Width and height of the surface that the pass was last configured for.
    pub extent: (u32, u32),
}

fn uniform_entry(binding: u32, size: u64) -> (entry: BindGroupLayoutEntry)
    ensures
        entry == uniform_binding(binding, size),
{
    BindGroupLayoutEntry {
        binding,
        visibility: ShaderStages::compute(),
        ty: BufferBindingType::Uniform,
        has_dynamic_offset: false,
        min_binding_size: size,
    }
}

fn storage_entry(binding: u32, read_only: bool) -> (entry: BindGroupLayoutEntry)
    ensures
        entry == storage_binding(binding, read_only),
{
    BindGroupLayoutEntry {
        binding,
        visibility: ShaderStages::compute(),
        ty: BufferBindingType::Storage { read_only },
        has_dynamic_offset: false,
        min_binding_size: STORAGE_ELEMENT_SIZE,
    }
}

impl VoxelizationPass {
    /// The pass's handles name resources of the right kind in `log`, and each
    /// bind group was made on the layout of the tier that it is bound to: the
    /// pipeline's layout has two tiers, the layout of `bind_group` and the
    /// layout of `bind_group_per_mesh`, in this order.
    pub open spec fn wf(&self, log: Seq<Resource>) -> bool {
        &&& crate::render_client::resource::is_compute_pipeline(log, self.projection_pipeline)
        &&& crate::render_client::resource::is_bind_group(log, self.bind_group)
        &&& crate::render_client::resource::is_bind_group(log, self.bind_group_per_mesh)
        &&& crate::render_client::resource::is_buffer(log, self.camera_uniform)
        &&& forall|i: int|
            0 <= i < self.scene_objects@.len() ==> (#[trigger] self.scene_objects@[i]).wf(log)
        &&& log[self.projection_pipeline.0 as int]->ComputePipeline_0.layout matches Some(layout)
        &&& crate::render_client::resource::is_pipeline_layout(log, layout)
        &&& log[layout.0 as int]->PipelineLayout_0.bind_group_layouts@ == seq![
            log[self.bind_group.0 as int]->BindGroup_0.layout,
            log[self.bind_group_per_mesh.0 as int]->BindGroup_0.layout,
        ]
    }

    /// A pass stays well formed while the device's log grows.
    pub proof fn lemma_wf_extends(&self, before: Seq<Resource>, after: Seq<Resource>)
        requires
            self.wf(before),
            before.is_prefix_of(after),
        ensures
            self.wf(after),
    {
        assert forall|k: int| 0 <= k < before.len() implies after[k] == before[k] by {
            assert(after.subrange(0, before.len() as int)[k] == before[k]);
        }
        assert forall|i: int| 0 <= i < self.scene_objects@.len() implies (
        #[trigger] self.scene_objects@[i]).wf(after) by {
            assert(self.scene_objects@[i].wf(before));
        }
    }

    /// What the pass records in a frame: one compute pass that binds the
    /// projection pipeline and the two tiers, global first, and dispatches a
    /// fixed grid of workgroups. The grid does not depend on the scene, so a
    /// scene without triangles is dispatched for like any other.
    pub open spec fn frame_commands(&self) -> Seq<Command> {
        seq![
            Command::BeginComputePass,
            Command::SetPipeline { pipeline: self.projection_pipeline },
            Command::SetBindGroup { index: 0, bind_group: self.bind_group },
            Command::SetBindGroup { index: 1, bind_group: self.bind_group_per_mesh },
            Command::DispatchWorkgroups { x: PROJECTION_WORKGROUPS, y: 1, z: 1 },
            Command::EndComputePass,
        ]
    }

    /// Creates the compute pipeline of the projection step, and with it the
    /// layouts of its two tiers of bindings.
    ///
    /// Four resources are created, in this order: the global layout, the
    /// per-mesh layout, the pipeline layout and the pipeline. The result names
    /// the two layouts and the pipeline.
    pub fn init_voxel_projection_pipeline(device: &mut Device, shader_module: ShaderModuleId) -> (r:
        Result<(BindGroupLayoutId, BindGroupLayoutId, ComputePipelineId), Error>)
        requires
            crate::render_client::resource::is_shader_module(old(device)@, shader_module),
        ensures
            r matches Ok((global, per_mesh, pipeline)) && {
                let base = old(device)@.len() as int;
                &&& final(device)@.len() == base + 4
                &&& old(device)@.is_prefix_of(final(device)@)
                &&& global.0 == base
                &&& per_mesh.0 == base + 1
                &&& pipeline.0 == base + 3
                &&& is_layout(
                    final(device)@[base],
                    "Voxel Axis Projection BindGroupLayout"@,
                    global_layout_entries(),
                )
                &&& is_layout(
                    final(device)@[base + 1],
                    "Voxel Axis Projection BindGroupLayoutPerMesh"@,
                    per_mesh_layout_entries(),
                )
                &&& is_projection_pipeline_layout(final(device)@[base + 2], global, per_mesh)
                &&& is_projection_pipeline(
                    final(device)@[base + 3],
                    PipelineLayoutId((base + 2) as usize),
                    shader_module,
                )
            },
    {
        let ghost base = device@.len() as int;
        let mut global_entries: Vec<BindGroupLayoutEntry> = Vec::new();
        global_entries.push(uniform_entry(0, GRID_PARAMETERS_SIZE));
        global_entries.push(uniform_entry(1, MATRIX_SIZE));
        global_entries.push(uniform_entry(2, MATRIX_SIZE));
        global_entries.push(uniform_entry(3, MATRIX_SIZE));
        assert(global_entries@ =~= global_layout_entries());
        let bind_group_layout = device.create_bind_group_layout(
            BindGroupLayoutDescriptor {
                label: Some(String::from_str("Voxel Axis Projection BindGroupLayout")),
                entries: global_entries,
            },
        );

        let mut per_mesh_entries: Vec<BindGroupLayoutEntry> = Vec::new();
        let mut binding: u32 = 0;
        while binding < PER_MESH_BINDINGS
            invariant
                binding <= PER_MESH_BINDINGS,
                per_mesh_entries@.len() == binding,
                forall|i: int|
                    0 <= i < binding ==> per_mesh_entries@[i] == storage_binding(
                        i as u32,
                        i < PER_MESH_READ_ONLY,
                    ),
            decreases PER_MESH_BINDINGS - binding,
        {
            per_mesh_entries.push(storage_entry(binding, binding < PER_MESH_READ_ONLY));
            binding += 1;
        }
        assert(per_mesh_entries@ =~= per_mesh_layout_entries());
        let bind_group_layout_per_mesh = device.create_bind_group_layout(
            BindGroupLayoutDescriptor {
                label: Some(String::from_str("Voxel Axis Projection BindGroupLayoutPerMesh")),
                entries: per_mesh_entries,
            },
        );

        let mut tiers: Vec<BindGroupLayoutId> = Vec::new();
        tiers.push(bind_group_layout);
        tiers.push(bind_group_layout_per_mesh);
        assert(tiers@ =~= seq![bind_group_layout, bind_group_layout_per_mesh]);
        let mut push_constant_ranges: Vec<PushConstantRange> = Vec::new();
        push_constant_ranges.push(
            PushConstantRange { stages: ShaderStages::compute(), start: 0, end: PUSH_CONSTANT_SIZE },
        );
        assert(push_constant_ranges@ =~= seq![
            PushConstantRange {
                stages: ShaderStages::spec_compute(),
                start: 0,
                end: PUSH_CONSTANT_SIZE,
            },
        ]);
        let pipeline_layout = device.create_pipeline_layout(
            PipelineLayoutDescriptor {
                label: Some(String::from_str("Voxel Axis Projection PipelineLayout")),
                bind_group_layouts: tiers,
                push_constant_ranges,
            },
        );

        let compute_pipeline = device.create_compute_pipeline(
            ComputePipelineDescriptor {
                label: Some(String::from_str("Voxel Axis Projection Pipeline")),
                layout: Some(pipeline_layout),
                module: shader_module,
                entry_point: String::from_str("main"),
            },
        );
        Ok((bind_group_layout, bind_group_layout_per_mesh, compute_pipeline))
    }

    /// `log` holds, from position `base` on, the nine resources of a pass with these
    /// shaders, in the order of their creation: the two shader modules, the
    /// two layouts, the pipeline layout, the pipeline, the two bind groups and
    /// the camera's uniform buffer.
    pub open spec fn resources_at(
        log: Seq<Resource>,
        base: int,
        projection: Vec<u32>,
        voxelization: String,
    ) -> bool {
        &&& log.len() == base + 9
        &&& crate::shader_pipeline::shader::is_spirv_module(
            log[base],
            crate::shader_pipeline::shader::module_label(
                "voxel_axis_projection.glsl"@,
                "main"@,
            ),
            projection,
        )
        &&& is_voxelization_shader(log[base + 1], voxelization)
        &&& is_layout(
            log[base + 2],
            "Voxel Axis Projection BindGroupLayout"@,
            global_layout_entries(),
        )
        &&& is_layout(
            log[base + 3],
            "Voxel Axis Projection BindGroupLayoutPerMesh"@,
            per_mesh_layout_entries(),
        )
        &&& is_projection_pipeline_layout(
            log[base + 4],
            BindGroupLayoutId((base + 2) as usize),
            BindGroupLayoutId((base + 3) as usize),
        )
        &&& is_projection_pipeline(
            log[base + 5],
            PipelineLayoutId((base + 4) as usize),
            ShaderModuleId(base as usize),
        )
        &&& is_empty_bind_group(
            log[base + 6],
            "VoxelAxisProjection BindGroup"@,
            BindGroupLayoutId((base + 2) as usize),
        )
        &&& is_empty_bind_group(
            log[base + 7],
            "VoxelAxisProjection BindGroupPerMesh"@,
            BindGroupLayoutId((base + 3) as usize),
        )
        &&& is_camera_uniform(log[base + 8])
    }

    /// Builds the pass for a loaded scene.
    ///
    /// If the projection shader did not compile, nothing is created and the
    /// compiler's error is returned. Otherwise nine resources are created (see
    /// `resources_at`), each bind group on the layout of its tier, and the
    /// pass holds the pipeline, the two bind groups, the camera's uniform
    /// buffer, the scene's objects and the size of the surface.
    pub fn create_pass(
        config: &SurfaceConfig,
        device: &mut Device,
        scene_objects_loaded: Vec<SceneObject>,
        shaders: VoxelizationShaders,
    ) -> (r: Result<VoxelizationPass, Error>)
        requires
            forall|i: int|
                0 <= i < scene_objects_loaded@.len() ==> (#[trigger] scene_objects_loaded@[i]).wf(
                    old(device)@,
                ),
        ensures
            match crate::shader_pipeline::shader::compiled(shaders.projection) {
                Err(e) => r matches Err(error) && error == e && final(device)@ == old(device)@,
                Ok(words) => r matches Ok(pass) && {
                    let base = old(device)@.len() as int;
                    &&& old(device)@.is_prefix_of(final(device)@)
                    &&& Self::resources_at(final(device)@, base, words, shaders.voxelization)
                    &&& pass.projection_pipeline.0 == base + 5
                    &&& pass.bind_group.0 == base + 6
                    &&& pass.bind_group_per_mesh.0 == base + 7
                    &&& pass.camera_uniform.0 == base + 8
                    &&& pass.scene_objects == scene_objects_loaded
                    &&& pass.extent == (config.width, config.height)
                    &&& pass.wf(final(device)@)
                },
            },
    {
        let ghost base = device@.len() as int;
        let VoxelizationShaders { projection, voxelization } = shaders;
        let voxel_axis_projection_shader = match create_shader_module(
            device,
            projection,
            "voxel_axis_projection.glsl",
            "main",
        ) {
            Ok(module) => module,
            Err(e) => {
                return Err(e);
            },
        };
        let ghost log1 = device@;

        let _voxelization_shader = device.create_shader_module(
            ShaderModuleDescriptor {
                label: Some(String::from_str("Voxelization Shader")),
                source: ShaderSource::Wgsl(voxelization),
            },
        );
        let ghost log2 = device@;

        let (
            projection_bind_group_layout,
            projection_bind_group_layout_per_mesh,
            projection_pipeline,
        ) = match Self::init_voxel_projection_pipeline(device, voxel_axis_projection_shader) {
            Ok(created) => created,
            Err(e) => {
                return Err(e);
            },
        };
        let ghost log6 = device@;

        let bind_group = device.create_bind_group(
            BindGroupDescriptor {
                label: Some(String::from_str("VoxelAxisProjection BindGroup")),
                layout: projection_bind_group_layout,
                entries: Vec::new(),
            },
        );
        let ghost log7 = device@;

        let bind_group_per_mesh = device.create_bind_group(
            BindGroupDescriptor {
                label: Some(String::from_str("VoxelAxisProjection BindGroupPerMesh")),
                layout: projection_bind_group_layout_per_mesh,
                entries: Vec::new(),
            },
        );
        let ghost log8 = device@;

        let mut zeros: Vec<u8> = Vec::new();
        let mut k: u64 = 0;
        while k < MATRIX_SIZE
            invariant
                k <= MATRIX_SIZE,
                zeros@.len() == k,
                forall|i: int| 0 <= i < k ==> zeros@[i] == 0u8,
            decreases MATRIX_SIZE - k,
        {
            zeros.push(0u8);
            k += 1;
        }
        assert(zeros@ =~= Seq::new(MATRIX_SIZE as nat, |i: int| 0u8));
        let camera_uniform = device.create_buffer_init(
            BufferInitDescriptor {
                label: Some(String::from_str("Voxelization Camera Uniform")),
                contents: zeros,
                usage: BufferUsage::UniformCopyDst,
            },
        );

        let pass = VoxelizationPass {
            scene_objects: scene_objects_loaded,
            projection_pipeline,
            bind_group,
            bind_group_per_mesh,
            camera_uniform,
            extent: (config.width, config.height),
        };
        proof {
            let log = device@;
            assert(log1.is_prefix_of(log2));
            assert(log2.is_prefix_of(log6));
            assert(log6.is_prefix_of(log7));
            assert(log7.is_prefix_of(log8));
            assert(log8.is_prefix_of(log));
            assert(log[base] == log1[base]);
            assert(log[base + 1] == log2[base + 1]);
            assert(log[base + 2] == log6[base + 2]);
            assert(log[base + 3] == log6[base + 3]);
            assert(log[base + 4] == log6[base + 4]);
            assert(log[base + 5] == log6[base + 5]);
            assert(log[base + 6] == log7[base + 6]);
            assert(log[base + 7] == log8[base + 7]);
            assert(old(device)@.is_prefix_of(log));
            assert forall|i: int| 0 <= i < pass.scene_objects@.len() implies (
            #[trigger] pass.scene_objects@[i]).wf(log) by {
                let object = scene_objects_loaded@[i];
                assert(object.wf(old(device)@));
                assert(log[object.vertex_buffer.0 as int] == old(device)@[object.vertex_buffer.0 as int]);
                assert(log[object.index_buffer.0 as int] == old(device)@[object.index_buffer.0 as int]);
                assert(log[object.material.0 as int] == old(device)@[object.material.0 as int]);
            }
        }
        Ok(pass)
    }
}

impl RenderPass for VoxelizationPass {
    /// The pass keeps the new size of the surface. Nothing else changes.
    fn on_resized(&mut self, config: &SurfaceConfig, device_context: &mut RenderDeviceContext)
        ensures
            final(self).extent == (config.width, config.height),
            final(self).scene_objects == old(self).scene_objects,
            final(self).projection_pipeline == old(self).projection_pipeline,
            final(self).bind_group == old(self).bind_group,
            final(self).bind_group_per_mesh == old(self).bind_group_per_mesh,
            final(self).camera_uniform == old(self).camera_uniform,
            *final(device_context) == *old(device_context),
    {
        self.extent = (config.width, config.height);
    }

    /// The pass takes no input.
    fn process_event(&mut self, event: &InputEvent)
        ensures
            *final(self) == *old(self),
    {
    }

    /// Queues one write: the view-projection matrix of `camera` into the
    /// camera's uniform buffer.
    fn update_render(
        &mut self,
        device_context: &mut RenderDeviceContext,
        camera: &Camera,
        black_board: &mut BlackBoard,
    )
        ensures
            *final(self) == *old(self),
            *final(black_board) == *old(black_board),
            final(device_context).queue@ == old(device_context).queue@.push(
                crate::render_client::command::QueueOp::WriteViewProjection {
                    buffer: old(self).camera_uniform,
                    camera: *camera,
                },
            ),
            final(device_context).device == old(device_context).device,
            final(device_context).features == old(device_context).features,
            final(device_context).limits == old(device_context).limits,
    {
        device_context.queue.write_view_projection(self.camera_uniform, *camera);
    }

    /// Records the projection step: the commands of `frame_commands`.
    fn render(
        &mut self,
        back_buffer_view: RenderTarget,
        encoder: &mut CommandEncoder,
        device_context: &mut RenderDeviceContext,
        render_context: &RenderContext,
        black_board: &mut BlackBoard,
    )
        ensures
            *final(self) == *old(self),
            *final(black_board) == *old(black_board),
            final(encoder)@ == old(encoder)@ + old(self).frame_commands(),
            *final(device_context) == *old(device_context),
    {
        encoder.begin_compute_pass();
        encoder.set_pipeline(self.projection_pipeline);
        encoder.set_bind_group(0, self.bind_group);
        encoder.set_bind_group(1, self.bind_group_per_mesh);
        encoder.dispatch_workgroups(PROJECTION_WORKGROUPS, 1, 1);
        encoder.end_compute_pass();
        assert(encoder@ =~= old(encoder)@ + self.frame_commands());
    }
}

} // verus!
