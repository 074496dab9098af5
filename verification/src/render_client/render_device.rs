//! What a renderer asks of an adapter, and the device context that comes of it.

use crate::error::Error;
use crate::render_client::command::{Queue, QueueOp, RenderTarget};
use crate::render_client::event::InputEvent;
use crate::render_client::resource::Device;
use crate::render_client::surface_wrapper::SurfaceConfig;
use vstd::prelude::*;

verus! {

/// The bit of the feature that allows arrays of buffer bindings.
pub const BUFFER_BINDING_ARRAY: u64 = 0x1000_0000;

/// The bit of the feature that allows arrays of storage buffers and textures.
pub const STORAGE_RESOURCE_BINDING_ARRAY: u64 = 0x2000_0000;

/// The bit of the feature that allows push constants.
pub const PUSH_CONSTANTS: u64 = 0x8_0000_0000;

/// A set of optional capabilities of an adapter: one bit for each feature,
/// numbered as the graphics library numbers them, so that every feature can
/// be named.
#[derive(Clone, Copy, Debug, PartialEq, Eq, Structural)]
pub struct Features {
    pub bits: u64,
}

impl Features {
    /// No feature.
    pub open spec fn spec_empty() -> Features {
        Features { bits: 0 }
    }

    /// Whether every feature of `other` is one of `self`.
    pub open spec fn spec_contains(self, other: Features) -> bool {
        self.bits & other.bits == other.bits
    }

    /// The features of either.
    pub open spec fn spec_union(self, other: Features) -> Features {
        Features { bits: self.bits | other.bits }
    }

    /// The features of both.
    pub open spec fn spec_intersection(self, other: Features) -> Features {
        Features { bits: self.bits & other.bits }
    }

    /// The features of `self` that `other` lacks.
    pub open spec fn spec_difference(self, other: Features) -> Features {
        Features { bits: self.bits & !other.bits }
    }

    #[verifier::when_used_as_spec(spec_empty)]
    pub fn empty() -> (features: Features)
        ensures
            features == Self::spec_empty(),
    {
        Features { bits: 0 }
    }

    #[verifier::when_used_as_spec(spec_contains)]
    pub fn contains(self, other: Features) -> (all: bool)
        ensures
            all == self.spec_contains(other),
    {
        self.bits & other.bits == other.bits
    }

    #[verifier::when_used_as_spec(spec_union)]
    pub fn union(self, other: Features) -> (features: Features)
        ensures
            features == self.spec_union(other),
    {
        Features { bits: self.bits | other.bits }
    }

    #[verifier::when_used_as_spec(spec_intersection)]
    pub fn intersection(self, other: Features) -> (features: Features)
        ensures
            features == self.spec_intersection(other),
    {
        Features { bits: self.bits & other.bits }
    }

    #[verifier::when_used_as_spec(spec_difference)]
    pub fn difference(self, other: Features) -> (features: Features)
        ensures
            features == self.spec_difference(other),
    {
        Features { bits: self.bits & !other.bits }
    }
}

/// What the set operations mean for single features: a set contains another
/// exactly when it has every bit of it; a union has the bits of either, an
/// intersection those of both, a difference those of the first alone; and
/// what is missing of a set is empty exactly when the set is contained.
pub proof fn lemma_feature_sets(a: Features, b: Features, bit: u64)
    requires
        bit < 64,
    ensures
        a.spec_contains(b) ==> ((b.bits >> bit) & 1 == 1 ==> (a.bits >> bit) & 1 == 1),
        (a.spec_union(b).bits >> bit) & 1 == 1 <==> (a.bits >> bit) & 1 == 1 || (b.bits >> bit)
            & 1 == 1,
        (a.spec_intersection(b).bits >> bit) & 1 == 1 <==> (a.bits >> bit) & 1 == 1 && (b.bits
            >> bit) & 1 == 1,
        (a.spec_difference(b).bits >> bit) & 1 == 1 <==> (a.bits >> bit) & 1 == 1 && (b.bits
            >> bit) & 1 != 1,
        b.spec_difference(a) == Features::spec_empty() <==> a.spec_contains(b),
{
    let x = a.bits;
    let y = b.bits;
    assert(x & y == y ==> ((y >> bit) & 1 == 1 ==> (x >> bit) & 1 == 1)) by (bit_vector)
        requires
            bit < 64,
    ;
    assert((((x | y) >> bit) & 1 == 1) <==> ((x >> bit) & 1 == 1 || (y >> bit) & 1 == 1))
        by (bit_vector)
        requires
            bit < 64,
    ;
    assert((((x & y) >> bit) & 1 == 1) <==> ((x >> bit) & 1 == 1 && (y >> bit) & 1 == 1))
        by (bit_vector)
        requires
            bit < 64,
    ;
    assert((((x & !y) >> bit) & 1 == 1) <==> ((x >> bit) & 1 == 1 && (y >> bit) & 1 != 1))
        by (bit_vector)
        requires
            bit < 64,
    ;
    assert((y & !x == 0) <==> (x & y == y)) by (bit_vector);
}

/// The shader feature levels, from the most limited up.
#[derive(Clone, Copy, Debug, PartialEq, Eq, Structural)]
pub enum ShaderModel {
    Sm2,
    Sm4,
    Sm5,
}

impl ShaderModel {
    /// The place of the model in the order `Sm2 < Sm4 < Sm5`.
    pub open spec fn spec_rank(self) -> u8 {
        match self {
            ShaderModel::Sm2 => 0,
            ShaderModel::Sm4 => 1,
            ShaderModel::Sm5 => 2,
        }
    }

    #[verifier::when_used_as_spec(spec_rank)]
    pub fn rank(self) -> (rank: u8)
        ensures
            rank == self.spec_rank(),
    {
        match self {
            ShaderModel::Sm2 => 0,
            ShaderModel::Sm4 => 1,
            ShaderModel::Sm5 => 2,
        }
    }
}

/// The bit of the downlevel flag for compute shaders.
pub const COMPUTE_SHADERS: u32 = 0x1;

/// A set of parts of the baseline that an adapter may lack: one bit for each
/// flag, numbered as the graphics library numbers them.
#[derive(Clone, Copy, Debug, PartialEq, Eq, Structural)]
pub struct DownlevelFlags {
    pub bits: u32,
}

impl DownlevelFlags {
    /// Whether every flag of `other` is one of `self`.
    pub open spec fn spec_contains(self, other: DownlevelFlags) -> bool {
        self.bits & other.bits == other.bits
    }

    /// The flags of `self` that `other` lacks.
    pub open spec fn spec_difference(self, other: DownlevelFlags) -> DownlevelFlags {
        DownlevelFlags { bits: self.bits & !other.bits }
    }

    #[verifier::when_used_as_spec(spec_contains)]
    pub fn contains(self, other: DownlevelFlags) -> (all: bool)
        ensures
            all == self.spec_contains(other),
    {
        self.bits & other.bits == other.bits
    }

    #[verifier::when_used_as_spec(spec_difference)]
    pub fn difference(self, other: DownlevelFlags) -> (flags: DownlevelFlags)
        ensures
            flags == self.spec_difference(other),
    {
        DownlevelFlags { bits: self.bits & !other.bits }
    }
}

#[derive(Clone, Copy, Debug, PartialEq, Eq, Structural)]
pub struct DownlevelCapabilities {
    pub flags: DownlevelFlags,
    pub shader_model: ShaderModel,
}

/// The limits of a device that a renderer fixes.
#[derive(Clone, Copy, Debug, PartialEq, Eq, Structural)]
pub struct Limits {
    pub max_texture_dimension_1d: u32,
    pub max_texture_dimension_2d: u32,
    pub max_texture_dimension_3d: u32,
    pub max_texture_array_layers: u32,
    pub max_bind_groups: u32,
    pub max_bindings_per_bind_group: u32,
    pub max_dynamic_uniform_buffers_per_pipeline_layout: u32,
    pub max_dynamic_storage_buffers_per_pipeline_layout: u32,
    pub max_sampled_textures_per_shader_stage: u32,
    pub max_samplers_per_shader_stage: u32,
    pub max_storage_buffers_per_shader_stage: u32,
    pub max_storage_textures_per_shader_stage: u32,
    pub max_uniform_buffers_per_shader_stage: u32,
    pub max_uniform_buffer_binding_size: u32,
    pub max_storage_buffer_binding_size: u32,
    pub max_vertex_buffers: u32,
    pub max_vertex_attributes: u32,
    pub max_vertex_buffer_array_stride: u32,
    pub max_push_constant_size: u32,
    pub min_uniform_buffer_offset_alignment: u32,
    pub min_storage_buffer_offset_alignment: u32,
    pub max_inter_stage_shader_components: u32,
    pub max_compute_workgroup_storage_size: u32,
    pub max_compute_invocations_per_workgroup: u32,
    pub max_compute_workgroup_size_x: u32,
    pub max_compute_workgroup_size_y: u32,
    pub max_compute_workgroup_size_z: u32,
    pub max_compute_workgroups_per_dimension: u32,
    pub max_buffer_size: u64,
    pub max_non_sampler_bindings: u32,
}

impl Limits {
    /// The limits of a modest device that can run compute shaders, with room
    /// for `storage_buffers` storage buffers in a shader stage and
    /// `push_constant_size` bytes of push constants.
    pub open spec fn spec_downlevel(storage_buffers: u32, push_constant_size: u32) -> Limits {
        Limits {
            max_texture_dimension_1d: 2048,
            max_texture_dimension_2d: 2048,
            max_texture_dimension_3d: 256,
            max_texture_array_layers: 256,
            max_bind_groups: 4,
            max_bindings_per_bind_group: 1000,
            max_dynamic_uniform_buffers_per_pipeline_layout: 8,
            max_dynamic_storage_buffers_per_pipeline_layout: 4,
            max_sampled_textures_per_shader_stage: 16,
            max_samplers_per_shader_stage: 16,
            max_storage_buffers_per_shader_stage: storage_buffers,
            max_storage_textures_per_shader_stage: 4,
            max_uniform_buffers_per_shader_stage: 12,
            max_uniform_buffer_binding_size: 16_384,
            max_storage_buffer_binding_size: 134_217_728,
            max_vertex_buffers: 8,
            max_vertex_attributes: 16,
            max_vertex_buffer_array_stride: 2048,
            max_push_constant_size: push_constant_size,
            min_uniform_buffer_offset_alignment: 256,
            min_storage_buffer_offset_alignment: 256,
            max_inter_stage_shader_components: 60,
            max_compute_workgroup_storage_size: 16352,
            max_compute_invocations_per_workgroup: 256,
            max_compute_workgroup_size_x: 256,
            max_compute_workgroup_size_y: 256,
            max_compute_workgroup_size_z: 64,
            max_compute_workgroups_per_dimension: 65535,
            max_buffer_size: 268_435_456,
            max_non_sampler_bindings: 1_000_000,
        }
    }

    /// These limits with the three texture dimension limits of `other`, so
    /// that an image of the size of the surface can be had.
    pub open spec fn spec_using_resolution(self, other: Limits) -> Limits {
        Limits {
            max_texture_dimension_1d: other.max_texture_dimension_1d,
            max_texture_dimension_2d: other.max_texture_dimension_2d,
            max_texture_dimension_3d: other.max_texture_dimension_3d,
            ..self
        }
    }

    #[verifier::when_used_as_spec(spec_downlevel)]
    pub fn downlevel(storage_buffers: u32, push_constant_size: u32) -> (limits: Limits)
        ensures
            limits == Self::spec_downlevel(storage_buffers, push_constant_size),
    {
        Limits {
            max_texture_dimension_1d: 2048,
            max_texture_dimension_2d: 2048,
            max_texture_dimension_3d: 256,
            max_texture_array_layers: 256,
            max_bind_groups: 4,
            max_bindings_per_bind_group: 1000,
            max_dynamic_uniform_buffers_per_pipeline_layout: 8,
            max_dynamic_storage_buffers_per_pipeline_layout: 4,
            max_sampled_textures_per_shader_stage: 16,
            max_samplers_per_shader_stage: 16,
            max_storage_buffers_per_shader_stage: storage_buffers,
            max_storage_textures_per_shader_stage: 4,
            max_uniform_buffers_per_shader_stage: 12,
            max_uniform_buffer_binding_size: 16_384,
            max_storage_buffer_binding_size: 134_217_728,
            max_vertex_buffers: 8,
            max_vertex_attributes: 16,
            max_vertex_buffer_array_stride: 2048,
            max_push_constant_size: push_constant_size,
            min_uniform_buffer_offset_alignment: 256,
            min_storage_buffer_offset_alignment: 256,
            max_inter_stage_shader_components: 60,
            max_compute_workgroup_storage_size: 16352,
            max_compute_invocations_per_workgroup: 256,
            max_compute_workgroup_size_x: 256,
            max_compute_workgroup_size_y: 256,
            max_compute_workgroup_size_z: 64,
            max_compute_workgroups_per_dimension: 65535,
            max_buffer_size: 268_435_456,
            max_non_sampler_bindings: 1_000_000,
        }
    }

    #[verifier::when_used_as_spec(spec_using_resolution)]
    pub fn using_resolution(self, other: Limits) -> (limits: Limits)
        ensures
            limits == self.spec_using_resolution(other),
    {
        Limits {
            max_texture_dimension_1d: other.max_texture_dimension_1d,
            max_texture_dimension_2d: other.max_texture_dimension_2d,
            max_texture_dimension_3d: other.max_texture_dimension_3d,
            ..self
        }
    }
}

/// What is known of an adapter.
#[derive(Clone, Copy, Debug, PartialEq, Eq, Structural)]
pub struct AdapterCapabilities {
    pub features: Features,
    pub downlevel: DownlevelCapabilities,
    pub limits: Limits,
}

/// Why an adapter cannot run a renderer.
#[derive(Clone, Copy, Debug, PartialEq, Eq, Structural)]
pub enum InitError {
    /// The adapter lacks these required features.
    MissingFeatures(Features),
    /// The adapter's shader model is below this one, which is required.
    ShaderModel(ShaderModel),
    /// The adapter lacks these required parts of the baseline.
    MissingDownlevelFlags(DownlevelFlags),
}

/// A renderer: what it asks of the adapter, and its life from `init` on.
pub trait RenderDevice: Sized {
    /// What `init` is given besides the surface and the device.
    type Assets;

    /// Whether the renderer draws into an sRGB view of the surface.
    spec fn spec_srgb() -> bool;

    /// Features that are used where the adapter has them.
    spec fn spec_optional_features() -> Features;

    /// Features without which the renderer cannot run.
    spec fn spec_required_features() -> Features;

    /// Parts of the baseline without which the renderer cannot run.
    spec fn spec_required_downlevel_capabilities() -> DownlevelCapabilities;

    /// The limits that the device is asked for.
    spec fn spec_required_limits() -> Limits;

    fn srgb() -> (srgb: bool)
        ensures
            srgb == Self::spec_srgb(),
    ;

    fn optional_features() -> (features: Features)
        ensures
            features == Self::spec_optional_features(),
    ;

    fn required_features() -> (features: Features)
        ensures
            features == Self::spec_required_features(),
    ;

    fn required_downlevel_capabilities() -> (capabilities: DownlevelCapabilities)
        ensures
            capabilities == Self::spec_required_downlevel_capabilities(),
    ;

    fn required_limits() -> (limits: Limits)
        ensures
            limits == Self::spec_required_limits(),
    ;

    /// Builds the renderer. The device's log only grows.
    fn init(config: &SurfaceConfig, device_context: &mut RenderDeviceContext, assets: Self::Assets) -> (r:
        Result<Self, Error>)
        ensures
            old(device_context).device@.is_prefix_of(final(device_context).device@),
    ;

    /// The surface has the new configuration `config`.
    fn resize(&mut self, config: &SurfaceConfig, device_context: &mut RenderDeviceContext)
        ensures
            old(device_context).device@.is_prefix_of(final(device_context).device@),
    ;

    /// An event of the window.
    fn process_event(&mut self, event: InputEvent)
    ;

    /// Brings the GPU's view of the scene up to date, before anything is
    /// recorded: only writes are queued, nothing is submitted.
    fn update_render(&mut self, device_context: &mut RenderDeviceContext)
        ensures
            old(device_context).queue@.is_prefix_of(final(device_context).queue@),
            forall|i: int|
                old(device_context).queue@.len() <= i < final(device_context).queue@.len()
                    ==> !(#[trigger] final(device_context).queue@[i] is Submit),
    ;

    /// Records one frame and submits it: the queue gets exactly one more
    /// entry, which is a submission.
    fn render(&mut self, back_buffer_view: RenderTarget, device_context: &mut RenderDeviceContext)
        ensures
            final(device_context).queue@.len() == old(device_context).queue@.len() + 1,
            old(device_context).queue@.is_prefix_of(final(device_context).queue@),
            final(device_context).queue@.last() is Submit,
    ;
}

/// The device and its queue, with what the device was made with.
#[derive(Debug)]
pub struct RenderDeviceContext {
    pub features: Features,
    pub limits: Limits,
    pub device: Device,
    pub queue: Queue,
}

impl RenderDeviceContext {
    /// Whether the adapter can run the renderer `E`, and if not, the first
    /// reason in the order features, shader model, downlevel flags.
    pub open spec fn refusal<E: RenderDevice>(adapter: AdapterCapabilities) -> Option<InitError> {
        let required_features = E::spec_required_features();
        let required = E::spec_required_downlevel_capabilities();
        if !adapter.features.spec_contains(required_features) {
            Some(InitError::MissingFeatures(required_features.spec_difference(adapter.features)))
        } else if adapter.downlevel.shader_model.spec_rank() < required.shader_model.spec_rank() {
            Some(InitError::ShaderModel(required.shader_model))
        } else if !adapter.downlevel.flags.spec_contains(required.flags) {
            Some(
                InitError::MissingDownlevelFlags(
                    required.flags.spec_difference(adapter.downlevel.flags),
                ),
            )
        } else {
            None
        }
    }

    /// Why the adapter cannot run the renderer `E`, if it cannot.
    pub fn check_adapter<E: RenderDevice>(adapter: &AdapterCapabilities) -> (refused: Option<
        InitError,
    >)
        ensures
            refused == Self::refusal::<E>(*adapter),
    {
        let required_features = E::required_features();
        let adapter_features = adapter.features;
        if !adapter_features.contains(required_features) {
            return Some(
                InitError::MissingFeatures(required_features.difference(adapter_features)),
            );
        }
        let required_downlevel_capabilities = E::required_downlevel_capabilities();
        let downlevel_capabilities = adapter.downlevel;
        if downlevel_capabilities.shader_model.rank()
            < required_downlevel_capabilities.shader_model.rank() {
            return Some(InitError::ShaderModel(required_downlevel_capabilities.shader_model));
        }
        if !downlevel_capabilities.flags.contains(required_downlevel_capabilities.flags) {
            return Some(
                InitError::MissingDownlevelFlags(
                    required_downlevel_capabilities.flags.difference(downlevel_capabilities.flags),
                ),
            );
        }
        None
    }

    /// Decides what device the renderer `E` gets on an adapter that can run
    /// it.
    ///
    /// An adapter that lacks a required feature, whose shader model is below
    /// the required one, or that lacks a required downlevel flag cannot run
    /// the renderer; `check_adapter` tells. On any other adapter the device
    /// has the required features and those optional ones that the adapter has,
    /// and the renderer's limits with the texture dimensions of the adapter.
    /// Nothing has been created on it yet.
    ///
    /// Asking the system for the adapter and the device takes time and is the
    /// device layer's part, before and after this.
    pub fn init_async<E: RenderDevice>(adapter: &AdapterCapabilities) -> (context:
        RenderDeviceContext)
        requires
            Self::refusal::<E>(*adapter) is None,
        ensures
            context.features == E::spec_optional_features().spec_intersection(
                adapter.features,
            ).spec_union(E::spec_required_features()),
            context.limits == E::spec_required_limits().spec_using_resolution(adapter.limits),
            context.device@ == Seq::<crate::render_client::resource::Resource>::empty(),
            context.queue@ == Seq::<QueueOp>::empty(),
            context.features.spec_contains(E::spec_required_features()),
            adapter.features.spec_contains(context.features),
    {
        let optional_features = E::optional_features();
        let required_features = E::required_features();
        let adapter_features = adapter.features;
        let needed_limits = E::required_limits().using_resolution(adapter.limits);
        proof {
            let o = optional_features.bits;
            let r = required_features.bits;
            let a = adapter_features.bits;
            assert(a & r == r);
            assert(((o & a) | r) & r == r) by (bit_vector);
            assert(a & ((o & a) | r) == (o & a) | r) by (bit_vector)
                requires
                    a & r == r,
            ;
        }
        RenderDeviceContext {
            features: optional_features.intersection(adapter_features).union(required_features),
            limits: needed_limits,
            device: Device::new(),
            queue: Queue::new(),
        }
    }
}

} // verus!
