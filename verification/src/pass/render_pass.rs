//! The interface of a stage of the frame.

use crate::pass::black_board::BlackBoard;
use crate::pass::render_context::RenderContext;
use crate::render_client::camera::Camera;
use crate::render_client::command::{CommandEncoder, OpenPass, RenderTarget};
use crate::render_client::event::InputEvent;
use crate::render_client::render_device::RenderDeviceContext;
use crate::render_client::surface_wrapper::SurfaceConfig;
use vstd::prelude::*;

verus! {

/// A stage of the frame. The renderer treats all of its stages alike, and runs
/// them in the order of its list.
pub trait RenderPass {
    /// The surface has the new configuration `config`. Resources whose size
    /// depends on it are made anew. Nothing is submitted here.
    fn on_resized(&mut self, config: &SurfaceConfig, device_context: &mut RenderDeviceContext)
        ensures
            old(device_context).device@.is_prefix_of(final(device_context).device@),
            old(device_context).queue@.is_prefix_of(final(device_context).queue@),
            forall|i: int|
                old(device_context).queue@.len() <= i < final(device_context).queue@.len()
                    ==> !(#[trigger] final(device_context).queue@[i] is Submit),
    ;

    /// An event of the window.
    fn process_event(&mut self, event: &InputEvent)
    ;

    /// Queues the writes that have to reach the GPU before the frame is
    /// recorded. `camera` is the camera as it is for this frame. Nothing is
    /// submitted here.
    fn update_render(
        &mut self,
        device_context: &mut RenderDeviceContext,
        camera: &Camera,
        black_board: &mut BlackBoard,
    )
        ensures
            old(device_context).device@.is_prefix_of(final(device_context).device@),
            old(device_context).queue@.is_prefix_of(final(device_context).queue@),
            forall|i: int|
                old(device_context).queue@.len() <= i < final(device_context).queue@.len()
                    ==> !(#[trigger] final(device_context).queue@[i] is Submit),
    ;

    /// Records the stage's commands behind those that `encoder` holds. The
    /// stage ends every pass it begins, and hands nothing to the queue: to
    /// submit is the renderer's part.
    fn render(
        &mut self,
        back_buffer_view: RenderTarget,
        encoder: &mut CommandEncoder,
        device_context: &mut RenderDeviceContext,
        render_context: &RenderContext,
        black_board: &mut BlackBoard,
    )
        requires
            old(encoder).open_pass() == Some(OpenPass::Idle),
        ensures
            final(encoder).open_pass() == Some(OpenPass::Idle),
            old(encoder)@.is_prefix_of(final(encoder)@),
            old(device_context).device@.is_prefix_of(final(device_context).device@),
            final(device_context).queue@ == old(device_context).queue@,
    ;
}

} // verus!
