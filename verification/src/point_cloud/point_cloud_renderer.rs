//! A renderer for the points of a scan.

use crate::error::Error;
use crate::point_cloud::point_cloud::PointCloud;
use crate::render_client::command::{Color, Command, CommandEncoder, QueueOp, RenderTarget};
use crate::render_client::event::InputEvent;
use crate::render_client::render_device::{
    BUFFER_BINDING_ARRAY, COMPUTE_SHADERS, STORAGE_RESOURCE_BINDING_ARRAY,
    DownlevelCapabilities, DownlevelFlags, Features, Limits, RenderDevice, RenderDeviceContext,
    ShaderModel,
};
use crate::render_client::resource::{
    BindGroupDescriptor, BindGroupEntry, BindGroupId, BindGroupLayoutDescriptor,
    BindGroupLayoutEntry, BindGroupLayoutId, BufferBindingType, ComputePipelineDescriptor,
    ComputePipelineId, PipelineLayoutDescriptor, PipelineLayoutId, PushConstantRange, Resource,
    ShaderModuleDescriptor, ShaderModuleId, ShaderSource, ShaderStages,
};
use crate::render_client::surface_wrapper::SurfaceConfig;
use crate::utils::float_bits::Vec3Bits;
use crate::utils::float_bits::{F64_0_1, F64_0_2, F64_0_3, F64_ONE};
use vstd::prelude::*;

verus! {

/// Bytes of a 4x4 matrix of single-precision numbers.
pub const MATRIX_SIZE: u64 = 64;

/// Bytes of the two counters of the global tier.
pub const COUNTERS_SIZE: u64 = 8;

/// Bytes of a point: three single-precision numbers.
pub const POINT_SIZE: u64 = 12;

/// Storage buffers that a shader stage of this renderer binds at most.
pub const STORAGE_BUFFERS_PER_STAGE: u32 = 4;

/// What the renderer is built from.
#[derive(Debug, PartialEq, Eq)]
pub struct PointCloudAssets {
    /// The points of the scan, or `None` where the scan could not be read.
    pub points: Option<Vec<Vec3Bits>>,
    /// The compute shader that draws the points, as WGSL text.
    pub shader: String,
}

#[derive(Debug)]
pub struct PointCloudRenderer {
    pub point_cloud: PointCloud,
    pub bind_group_global: BindGroupId,
    pub bind_group_per_pass: BindGroupId,
    pub pipeline: ComputePipelineId,
}

/// A buffer slot seen by the compute stage.
pub open spec fn compute_binding(binding: u32, ty: BufferBindingType, size: u64) -> BindGroupLayoutEntry {
    BindGroupLayoutEntry {
        binding,
        visibility: ShaderStages::spec_compute(),
        ty,
        has_dynamic_offset: false,
        min_binding_size: size,
    }
}

/// The global tier: a matrix, and two counters that the shader writes.
pub open spec fn global_layout_entries() -> Seq<BindGroupLayoutEntry> {
    seq![
        compute_binding(0, BufferBindingType::Uniform, MATRIX_SIZE),
        compute_binding(1, BufferBindingType::Storage { read_only: false }, COUNTERS_SIZE),
    ]
}

/// The tier of a pass: two buffers of points that are only read.
pub open spec fn per_pass_layout_entries() -> Seq<BindGroupLayoutEntry> {
    seq![
        compute_binding(0, BufferBindingType::Storage { read_only: true }, POINT_SIZE),
        compute_binding(1, BufferBindingType::Storage { read_only: true }, POINT_SIZE),
    ]
}

/// The colour that a frame is cleared to: (0.1, 0.2, 0.3), opaque.
pub open spec fn clear_color() -> Color {
    Color { r: F64_0_1, g: F64_0_2, b: F64_0_3, a: F64_ONE }
}

/// What a frame records: one render pass that clears the target.
pub open spec fn frame_commands(target: RenderTarget) -> Seq<Command> {
    seq![Command::BeginRenderPass { target, clear: clear_color() }, Command::EndRenderPass]
}

/// `log` holds, from position `base` on, the seven resources of a renderer with
/// this shader, in the order of their creation: the two layouts, a bind group
/// on each that binds nothing, the pipeline layout of the two tiers, the
/// shader module and the pipeline. None of them has a label.
pub open spec fn resources_at(log: Seq<Resource>, base: int, shader: String) -> bool {
    &&& log.len() == base + 7
    &&& log[base] matches Resource::BindGroupLayout(global)
    &&& global.label is None
    &&& global.entries@ == global_layout_entries()
    &&& log[base + 1] matches Resource::BindGroupLayout(per_pass)
    &&& per_pass.label is None
    &&& per_pass.entries@ == per_pass_layout_entries()
    &&& log[base + 2] matches Resource::BindGroup(group_global)
    &&& group_global.label is None
    &&& group_global.layout == BindGroupLayoutId(base as usize)
    &&& group_global.entries@ == Seq::<BindGroupEntry>::empty()
    &&& log[base + 3] matches Resource::BindGroup(group_per_pass)
    &&& group_per_pass.label is None
    &&& group_per_pass.layout == BindGroupLayoutId((base + 1) as usize)
    &&& group_per_pass.entries@ == Seq::<BindGroupEntry>::empty()
    &&& log[base + 4] matches Resource::PipelineLayout(layout)
    &&& layout.label is None
    &&& layout.bind_group_layouts@ == seq![
        BindGroupLayoutId(base as usize),
        BindGroupLayoutId((base + 1) as usize),
    ]
    &&& layout.push_constant_ranges@ == Seq::<PushConstantRange>::empty()
    &&& log[base + 5] matches Resource::ShaderModule(module)
    &&& module.label is None
    &&& module.source == ShaderSource::Wgsl(shader)
    &&& log[base + 6] matches Resource::ComputePipeline(pipeline)
    &&& pipeline.label is None
    &&& pipeline.layout == Some(PipelineLayoutId((base + 4) as usize))
    &&& pipeline.module == ShaderModuleId((base + 5) as usize)
    &&& pipeline.entry_point@ == "render_point_cs"@
}

fn compute_entry(binding: u32, ty: BufferBindingType, size: u64) -> (entry: BindGroupLayoutEntry)
    ensures
        entry == compute_binding(binding, ty, size),
{
    BindGroupLayoutEntry {
        binding,
        visibility: ShaderStages::compute(),
        ty,
        has_dynamic_offset: false,
        min_binding_size: size,
    }
}

impl RenderDevice for PointCloudRenderer {
    type Assets = PointCloudAssets;

    open spec fn spec_srgb() -> bool {
        true
    }

    /// Arrays of buffer bindings and of storage resources.
    open spec fn spec_optional_features() -> Features {
        Features { bits: BUFFER_BINDING_ARRAY | STORAGE_RESOURCE_BINDING_ARRAY }
    }

    open spec fn spec_required_features() -> Features {
        Features::spec_empty()
    }

    /// Compute shaders, at shader model 5.
    open spec fn spec_required_downlevel_capabilities() -> DownlevelCapabilities {
        DownlevelCapabilities {
            flags: DownlevelFlags { bits: COMPUTE_SHADERS },
            shader_model: ShaderModel::Sm5,
        }
    }

    /// Modest limits, with four storage buffers in a stage and no push
    /// constants.
    open spec fn spec_required_limits() -> Limits {
        Limits::spec_downlevel(STORAGE_BUFFERS_PER_STAGE, 0)
    }

    fn srgb() -> (srgb: bool) {
        true
    }

    fn optional_features() -> (features: Features) {
        Features { bits: BUFFER_BINDING_ARRAY | STORAGE_RESOURCE_BINDING_ARRAY }
    }

    fn required_features() -> (features: Features) {
        Features::empty()
    }

    fn required_downlevel_capabilities() -> (capabilities: DownlevelCapabilities) {
        DownlevelCapabilities {
            flags: DownlevelFlags { bits: COMPUTE_SHADERS },
            shader_model: ShaderModel::Sm5,
        }
    }

    fn required_limits() -> (limits: Limits) {
        Limits::downlevel(STORAGE_BUFFERS_PER_STAGE, 0)
    }

    /// Builds the renderer. It never fails: a scan that could not be read
    /// gives a renderer with no points. Seven resources are created (see
    /// `resources_at`).
    fn init(config: &SurfaceConfig, device_context: &mut RenderDeviceContext, assets: PointCloudAssets) -> (r:
        Result<PointCloudRenderer, Error>)
        ensures
            final(device_context).queue@ == old(device_context).queue@,
            final(device_context).features == old(device_context).features,
            final(device_context).limits == old(device_context).limits,
            r matches Ok(renderer) && {
                let base = old(device_context).device@.len() as int;
                &&& resources_at(final(device_context).device@, base, assets.shader)
                &&& renderer.bind_group_global.0 == base + 2
                &&& renderer.bind_group_per_pass.0 == base + 3
                &&& renderer.pipeline.0 == base + 6
                &&& renderer.point_cloud.batches@ == Seq::<
                    crate::point_cloud::point_cloud::Batch,
                >::empty()
                &&& renderer.point_cloud.point_xyz_list@ == match assets.points {
                    Some(points) => points@,
                    None => Seq::<Vec3Bits>::empty(),
                }
            },
    {
        let PointCloudAssets { points, shader } = assets;
        let ghost base = device_context.device@.len() as int;
        let point_cloud = PointCloud::from(points);
        let device = &mut device_context.device;

        let mut global_entries: Vec<BindGroupLayoutEntry> = Vec::new();
        global_entries.push(compute_entry(0, BufferBindingType::Uniform, MATRIX_SIZE));
        global_entries.push(
            compute_entry(1, BufferBindingType::Storage { read_only: false }, COUNTERS_SIZE),
        );
        assert(global_entries@ =~= global_layout_entries());
        let bind_group_layout_global = device.create_bind_group_layout(
            BindGroupLayoutDescriptor { label: None, entries: global_entries },
        );

        let mut per_pass_entries: Vec<BindGroupLayoutEntry> = Vec::new();
        per_pass_entries.push(
            compute_entry(0, BufferBindingType::Storage { read_only: true }, POINT_SIZE),
        );
        per_pass_entries.push(
            compute_entry(1, BufferBindingType::Storage { read_only: true }, POINT_SIZE),
        );
        assert(per_pass_entries@ =~= per_pass_layout_entries());
        let bind_group_layout_per_pass = device.create_bind_group_layout(
            BindGroupLayoutDescriptor { label: None, entries: per_pass_entries },
        );

        let bind_group_global = device.create_bind_group(
            BindGroupDescriptor {
                label: None,
                layout: bind_group_layout_global,
                entries: Vec::new(),
            },
        );

        let bind_group_per_pass = device.create_bind_group(
            BindGroupDescriptor {
                label: None,
                layout: bind_group_layout_per_pass,
                entries: Vec::new(),
            },
        );

        let mut tiers: Vec<BindGroupLayoutId> = Vec::new();
        tiers.push(bind_group_layout_global);
        tiers.push(bind_group_layout_per_pass);
        assert(tiers@ =~= seq![bind_group_layout_global, bind_group_layout_per_pass]);
        let pipeline_layout = device.create_pipeline_layout(
            PipelineLayoutDescriptor {
                label: None,
                bind_group_layouts: tiers,
                push_constant_ranges: Vec::new(),
            },
        );

        let shader = device.create_shader_module(
            ShaderModuleDescriptor { label: None, source: ShaderSource::Wgsl(shader) },
        );

        let pipeline = device.create_compute_pipeline(
            ComputePipelineDescriptor {
                label: None,
                layout: Some(pipeline_layout),
                module: shader,
                entry_point: String::from_str("render_point_cs"),
            },
        );

        Ok(PointCloudRenderer { point_cloud, bind_group_global, bind_group_per_pass, pipeline })
    }

    /// The renderer takes no input.
    fn process_event(&mut self, event: InputEvent)
        ensures
            *final(self) == *old(self),
    {
    }

    /// Nothing is written before a frame.
    fn update_render(&mut self, device_context: &mut RenderDeviceContext)
        ensures
            *final(self) == *old(self),
            *final(device_context) == *old(device_context),
    {
    }

    /// Nothing depends on the size of the surface.
    fn resize(&mut self, config: &SurfaceConfig, device_context: &mut RenderDeviceContext)
        ensures
            *final(self) == *old(self),
            *final(device_context) == *old(device_context),
    {
    }

    /// Clears the target, in one render pass of one submission.
    fn render(&mut self, back_buffer_view: RenderTarget, device_context: &mut RenderDeviceContext)
        ensures
            *final(self) == *old(self),
            final(device_context).device@ == old(device_context).device@,
            final(device_context).queue@.last() matches QueueOp::Submit(buffer) && buffer@
                == frame_commands(back_buffer_view),
    {
        let mut encoder = CommandEncoder::new();
        encoder.begin_render_pass(
            back_buffer_view,
            Color { r: F64_0_1, g: F64_0_2, b: F64_0_3, a: F64_ONE },
        );
        encoder.end_render_pass();
        assert(encoder@ =~= frame_commands(back_buffer_view));

        device_context.queue.submit(encoder.finish());
    }
}

} // verus!
