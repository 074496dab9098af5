//! Resource handles, descriptors and the device's creation log.

use vstd::prelude::*;

verus! {

#[verifier::external_type_specification]
#[verifier::external_body]
pub struct ExTextureFormat(wgpu::TextureFormat);

/// Handle of a buffer: its position in the device's creation log.
#[derive(Clone, Copy, Debug, PartialEq, Eq, Structural)]
pub struct BufferId(pub usize);

/// Handle of a texture.
#[derive(Clone, Copy, Debug, PartialEq, Eq, Structural)]
pub struct TextureId(pub usize);

/// Handle of a texture view.
#[derive(Clone, Copy, Debug, PartialEq, Eq, Structural)]
pub struct TextureViewId(pub usize);

/// Handle of a shader module.
#[derive(Clone, Copy, Debug, PartialEq, Eq, Structural)]
pub struct ShaderModuleId(pub usize);

/// Handle of a bind-group layout.
#[derive(Clone, Copy, Debug, PartialEq, Eq, Structural)]
pub struct BindGroupLayoutId(pub usize);

/// Handle of a pipeline layout.
#[derive(Clone, Copy, Debug, PartialEq, Eq, Structural)]
pub struct PipelineLayoutId(pub usize);

/// Handle of a compute pipeline.
#[derive(Clone, Copy, Debug, PartialEq, Eq, Structural)]
pub struct ComputePipelineId(pub usize);

/// Handle of a bind group.
#[derive(Clone, Copy, Debug, PartialEq, Eq, Structural)]
pub struct BindGroupId(pub usize);

/// The shader stages that can see a binding or a push-constant range.
#[derive(Clone, Copy, Debug, PartialEq, Eq, Structural)]
pub struct ShaderStages {
    pub vertex: bool,
    pub fragment: bool,
    pub compute: bool,
}

impl ShaderStages {
    /// Visible to the compute stage and to no other.
    pub open spec fn spec_compute() -> ShaderStages {
        ShaderStages { vertex: false, fragment: false, compute: true }
    }

    #[verifier::when_used_as_spec(spec_compute)]
    pub fn compute() -> (s: ShaderStages)
        ensures
            s == Self::spec_compute(),
    {
        ShaderStages { vertex: false, fragment: false, compute: true }
    }
}

/// What kind of buffer a binding slot takes.
#[derive(Clone, Copy, Debug, PartialEq, Eq, Structural)]
pub enum BufferBindingType {
    Uniform,
    Storage { read_only: bool },
}

/// One slot of a bind-group layout.
///
/// `min_binding_size` is in bytes; 0 stands for "no minimum".
#[derive(Clone, Copy, Debug, PartialEq, Eq, Structural)]
pub struct BindGroupLayoutEntry {
    pub binding: u32,
    pub visibility: ShaderStages,
    pub ty: BufferBindingType,
    pub has_dynamic_offset: bool,
    pub min_binding_size: u64,
}

#[derive(Debug, PartialEq, Eq)]
pub struct BindGroupLayoutDescriptor {
    pub label: Option<String>,
    pub entries: Vec<BindGroupLayoutEntry>,
}

/// A byte range `start..end` of push constants and the stages that read it.
#[derive(Clone, Copy, Debug, PartialEq, Eq, Structural)]
pub struct PushConstantRange {
    pub stages: ShaderStages,
    pub start: u32,
    pub end: u32,
}

#[derive(Debug, PartialEq, Eq)]
pub struct PipelineLayoutDescriptor {
    pub label: Option<String>,
    pub bind_group_layouts: Vec<BindGroupLayoutId>,
    pub push_constant_ranges: Vec<PushConstantRange>,
}

#[derive(Debug, PartialEq, Eq)]
pub struct ComputePipelineDescriptor {
    pub label: Option<String>,
    pub layout: Option<PipelineLayoutId>,
    pub module: ShaderModuleId,
    pub entry_point: String,
}

/// A buffer bound whole to one slot.
#[derive(Clone, Copy, Debug, PartialEq, Eq, Structural)]
pub struct BindGroupEntry {
    pub binding: u32,
    pub buffer: BufferId,
}

#[derive(Debug, PartialEq, Eq)]
pub struct BindGroupDescriptor {
    pub label: Option<String>,
    pub layout: BindGroupLayoutId,
    pub entries: Vec<BindGroupEntry>,
}

#[derive(Debug, PartialEq, Eq)]
pub enum ShaderSource {
    /// SPIR-V words.
    SpirV(Vec<u32>),
    /// WGSL text.
    Wgsl(String),
}

#[derive(Debug, PartialEq, Eq)]
pub struct ShaderModuleDescriptor {
    pub label: Option<String>,
    pub source: ShaderSource,
}

/// How a buffer may be used.
#[derive(Clone, Copy, Debug, PartialEq, Eq, Structural)]
pub enum BufferUsage {
    Vertex,
    Index,
    Uniform,
    /// A uniform buffer that the queue writes to after creation.
    UniformCopyDst,
}

/// A buffer created with its initial contents.
#[derive(Debug, PartialEq, Eq)]
pub struct BufferInitDescriptor {
    pub label: Option<String>,
    pub contents: Vec<u8>,
    pub usage: BufferUsage,
}

#[derive(Clone, Copy, Debug, PartialEq, Eq, Structural)]
pub enum TextureDimension {
    D1,
    D2,
    D3,
}

#[derive(Debug, PartialEq, Eq)]
pub struct TextureDescriptor {
    pub label: Option<String>,
    pub width: u32,
    pub height: u32,
    pub depth_or_array_layers: u32,
    pub mip_level_count: u32,
    pub sample_count: u32,
    pub dimension: TextureDimension,
    pub format: wgpu::TextureFormat,
    pub storage_binding: bool,
    pub texture_binding: bool,
    pub render_attachment: bool,
}

#[derive(Debug, PartialEq, Eq)]
pub struct TextureViewDescriptor {
    pub label: Option<String>,
    pub format: Option<wgpu::TextureFormat>,
    pub base_mip_level: u32,
    pub mip_level_count: Option<u32>,
    pub base_array_layer: u32,
    pub array_layer_count: Option<u32>,
}

/// One entry of the creation log.
#[derive(Debug, PartialEq, Eq)]
pub enum Resource {
    ShaderModule(ShaderModuleDescriptor),
    BindGroupLayout(BindGroupLayoutDescriptor),
    PipelineLayout(PipelineLayoutDescriptor),
    ComputePipeline(ComputePipelineDescriptor),
    BindGroup(BindGroupDescriptor),
    Buffer(BufferInitDescriptor),
    Texture(TextureDescriptor),
    TextureView { texture: TextureId, desc: TextureViewDescriptor },
}

/// `id` names a buffer of `log`.
pub open spec fn is_buffer(log: Seq<Resource>, id: BufferId) -> bool {
    id.0 < log.len() && log[id.0 as int] is Buffer
}

/// `id` names a texture of `log`.
pub open spec fn is_texture(log: Seq<Resource>, id: TextureId) -> bool {
    id.0 < log.len() && log[id.0 as int] is Texture
}

/// `id` names a shader module of `log`.
pub open spec fn is_shader_module(log: Seq<Resource>, id: ShaderModuleId) -> bool {
    id.0 < log.len() && log[id.0 as int] is ShaderModule
}

/// `id` names a bind-group layout of `log`.
pub open spec fn is_bind_group_layout(log: Seq<Resource>, id: BindGroupLayoutId) -> bool {
    id.0 < log.len() && log[id.0 as int] is BindGroupLayout
}

/// `id` names a pipeline layout of `log`.
pub open spec fn is_pipeline_layout(log: Seq<Resource>, id: PipelineLayoutId) -> bool {
    id.0 < log.len() && log[id.0 as int] is PipelineLayout
}

/// `id` names a compute pipeline of `log`.
pub open spec fn is_compute_pipeline(log: Seq<Resource>, id: ComputePipelineId) -> bool {
    id.0 < log.len() && log[id.0 as int] is ComputePipeline
}

/// `id` names a bind group of `log`.
pub open spec fn is_bind_group(log: Seq<Resource>, id: BindGroupId) -> bool {
    id.0 < log.len() && log[id.0 as int] is BindGroup
}

/// The entry at `i` refers only to entries before it, and to entries of the
/// kind that it needs: a pipeline layout to bind-group layouts, a pipeline to a
/// shader module and a pipeline layout, a bind group to a bind-group layout
/// and to buffers, a texture view to a texture.
pub open spec fn refers_back(log: Seq<Resource>, i: int) -> bool {
    let earlier = log.subrange(0, i);
    match log[i] {
        Resource::PipelineLayout(desc) => forall|k: int|
            0 <= k < desc.bind_group_layouts@.len() ==> is_bind_group_layout(
                earlier,
                #[trigger] desc.bind_group_layouts@[k],
            ),
        Resource::ComputePipeline(desc) => {
            &&& is_shader_module(earlier, desc.module)
            &&& desc.layout matches Some(layout) ==> is_pipeline_layout(earlier, layout)
        },
        Resource::BindGroup(desc) => {
            &&& is_bind_group_layout(earlier, desc.layout)
            &&& forall|k: int|
                0 <= k < desc.entries@.len() ==> is_buffer(
                    earlier,
                    (#[trigger] desc.entries@[k]).buffer,
                )
        },
        Resource::TextureView { texture, .. } => is_texture(earlier, texture),
        _ => true,
    }
}

/// Every entry of the log refers only to entries before it, of the right kind.
/// A log can therefore be replayed from the first entry on: what an entry
/// needs has been created by then.
pub open spec fn valid_log(log: Seq<Resource>) -> bool {
    forall|i: int| 0 <= i < log.len() ==> #[trigger] refers_back(log, i)
}

/// The device as the library sees it: the log of everything created on it, in
/// creation order. A handle is the position of its resource in the log, so
/// handles stay valid for as long as the device lives. The log is always a
/// valid log.
#[derive(Debug)]
pub struct Device {
    resources: Vec<Resource>,
}

impl View for Device {
    type V = Seq<Resource>;

    closed spec fn view(&self) -> Seq<Resource> {
        self.resources@
    }
}

impl Device {
    #[verifier::type_invariant]
    spec fn valid(self) -> bool {
        valid_log(self.resources@)
    }

    /// A device on which nothing has been created.
    pub fn new() -> (device: Device)
        ensures
            device@ == Seq::<Resource>::empty(),
    {
        Device { resources: Vec::new() }
    }

    /// Number of resources created so far.
    pub fn len(&self) -> (n: usize)
        ensures
            n == self@.len(),
            valid_log(self@),
    {
        proof {
            use_type_invariant(self);
        }
        self.resources.len()
    }

    /// The resource created at position `index`.
    pub fn get(&self, index: usize) -> (r: Option<&Resource>)
        ensures
            index < self@.len() ==> r == Some(&self@[index as int]),
            index >= self@.len() ==> r is None,
            valid_log(self@),
    {
        proof {
            use_type_invariant(self);
        }
        if index < self.resources.len() {
            Some(&self.resources[index])
        } else {
            None
        }
    }

    fn record(&mut self, resource: Resource) -> (index: usize)
        requires
            refers_back(old(self)@.push(resource), old(self)@.len() as int),
        ensures
            final(self)@ == old(self)@.push(resource),
            index == old(self)@.len(),
    {
        proof {
            use_type_invariant(&*self);
        }
        let ghost before = self.resources@;
        let mut resources: Vec<Resource> = Vec::new();
        std::mem::swap(&mut resources, &mut self.resources);
        let index = resources.len();
        resources.push(resource);
        proof {
            let after = resources@;
            assert forall|i: int| 0 <= i < after.len() implies #[trigger] refers_back(after, i) by {
                if i < before.len() {
                    assert(refers_back(before, i));
                    assert(after.subrange(0, i) =~= before.subrange(0, i));
                    assert(after[i] == before[i]);
                }
            }
        }
        self.resources = resources;
        index
    }

    pub fn create_shader_module(&mut self, desc: ShaderModuleDescriptor) -> (id: ShaderModuleId)
        ensures
            final(self)@ == old(self)@.push(Resource::ShaderModule(desc)),
            id.0 == old(self)@.len(),
    {
        ShaderModuleId(self.record(Resource::ShaderModule(desc)))
    }

    pub fn create_bind_group_layout(&mut self, desc: BindGroupLayoutDescriptor) -> (id:
        BindGroupLayoutId)
        ensures
            final(self)@ == old(self)@.push(Resource::BindGroupLayout(desc)),
            id.0 == old(self)@.len(),
    {
        BindGroupLayoutId(self.record(Resource::BindGroupLayout(desc)))
    }

    /// Every tier of the layout has to name a bind-group layout of this device.
    pub fn create_pipeline_layout(&mut self, desc: PipelineLayoutDescriptor) -> (id:
        PipelineLayoutId)
        requires
            forall|i: int|
                0 <= i < desc.bind_group_layouts@.len() ==> is_bind_group_layout(
                    old(self)@,
                    #[trigger] desc.bind_group_layouts@[i],
                ),
        ensures
            final(self)@ == old(self)@.push(Resource::PipelineLayout(desc)),
            id.0 == old(self)@.len(),
    {
        PipelineLayoutId(self.record(Resource::PipelineLayout(desc)))
    }

    /// The module, and the layout if one is given, have to be of this device.
    pub fn create_compute_pipeline(&mut self, desc: ComputePipelineDescriptor) -> (id:
        ComputePipelineId)
        requires
            is_shader_module(old(self)@, desc.module),
            desc.layout matches Some(layout) ==> is_pipeline_layout(old(self)@, layout),
        ensures
            final(self)@ == old(self)@.push(Resource::ComputePipeline(desc)),
            id.0 == old(self)@.len(),
    {
        ComputePipelineId(self.record(Resource::ComputePipeline(desc)))
    }

    /// The layout and every bound buffer have to be of this device.
    pub fn create_bind_group(&mut self, desc: BindGroupDescriptor) -> (id: BindGroupId)
        requires
            is_bind_group_layout(old(self)@, desc.layout),
            forall|i: int|
                0 <= i < desc.entries@.len() ==> is_buffer(
                    old(self)@,
                    (#[trigger] desc.entries@[i]).buffer,
                ),
        ensures
            final(self)@ == old(self)@.push(Resource::BindGroup(desc)),
            id.0 == old(self)@.len(),
    {
        BindGroupId(self.record(Resource::BindGroup(desc)))
    }

    pub fn create_buffer_init(&mut self, desc: BufferInitDescriptor) -> (id: BufferId)
        ensures
            final(self)@ == old(self)@.push(Resource::Buffer(desc)),
            id.0 == old(self)@.len(),
    {
        BufferId(self.record(Resource::Buffer(desc)))
    }

    pub fn create_texture(&mut self, desc: TextureDescriptor) -> (id: TextureId)
        ensures
            final(self)@ == old(self)@.push(Resource::Texture(desc)),
            id.0 == old(self)@.len(),
    {
        TextureId(self.record(Resource::Texture(desc)))
    }

    /// The texture has to be of this device.
    pub fn create_texture_view(&mut self, texture: TextureId, desc: TextureViewDescriptor) -> (id:
        TextureViewId)
        requires
            is_texture(old(self)@, texture),
        ensures
            final(self)@ == old(self)@.push(Resource::TextureView { texture, desc }),
            id.0 == old(self)@.len(),
    {
        TextureViewId(self.record(Resource::TextureView { texture, desc }))
    }
}

} // verus!
