//! Command recording and the queue.

use crate::render_client::camera::Camera;
use crate::render_client::resource::{BindGroupId, BufferId, ComputePipelineId, TextureViewId};
use vstd::prelude::*;

verus! {

/// What a render pass draws into.
#[derive(Clone, Copy, Debug, PartialEq, Eq, Structural)]
pub enum RenderTarget {
    /// The view of the frame's swapchain image.
    BackBuffer,
    /// A view created on the device.
    View(TextureViewId),
}

/// A colour of four double-precision channels.
#[derive(Clone, Copy, Debug, PartialEq, Eq, Structural)]
pub struct Color {
    pub r: u64,
    pub g: u64,
    pub b: u64,
    pub a: u64,
}

/// One recorded GPU command.
#[derive(Clone, Copy, Debug, PartialEq, Eq, Structural)]
pub enum Command {
    BeginComputePass,
    SetPipeline { pipeline: ComputePipelineId },
    SetBindGroup { index: u32, bind_group: BindGroupId },
    DispatchWorkgroups { x: u32, y: u32, z: u32 },
    EndComputePass,
    /// Begins a render pass with one colour attachment that is cleared and stored.
    BeginRenderPass { target: RenderTarget, clear: Color },
    EndRenderPass,
}

/// Which pass of an encoder is being recorded.
#[derive(Clone, Copy, Debug, PartialEq, Eq, Structural)]
pub enum OpenPass {
    Idle,
    Compute,
    Render,
}

/// The pass that is open once `command` is recorded in the state `state`, or
/// `None` if the command is out of place there: a pass begins only while none
/// is open, pipeline, bind groups and dispatches belong inside a compute
/// pass, and a pass is ended only while it is open.
pub open spec fn after(state: OpenPass, command: Command) -> Option<OpenPass> {
    match (state, command) {
        (OpenPass::Idle, Command::BeginComputePass) => Some(OpenPass::Compute),
        (OpenPass::Compute, Command::SetPipeline { .. }) => Some(OpenPass::Compute),
        (OpenPass::Compute, Command::SetBindGroup { .. }) => Some(OpenPass::Compute),
        (OpenPass::Compute, Command::DispatchWorkgroups { .. }) => Some(OpenPass::Compute),
        (OpenPass::Compute, Command::EndComputePass) => Some(OpenPass::Idle),
        (OpenPass::Idle, Command::BeginRenderPass { .. }) => Some(OpenPass::Render),
        (OpenPass::Render, Command::EndRenderPass) => Some(OpenPass::Idle),
        _ => None,
    }
}

/// The pass that is open after `commands`, recorded from the first on with no
/// pass open at the start, or `None` if one of them is out of place.
pub open spec fn open_after(commands: Seq<Command>) -> Option<OpenPass>
    decreases commands.len(),
{
    if commands.len() == 0 {
        Some(OpenPass::Idle)
    } else {
        match open_after(commands.drop_last()) {
            Some(state) => after(state, commands.last()),
            None => None,
        }
    }
}

/// Every command is in place, and every pass that begins is ended.
pub open spec fn well_nested(commands: Seq<Command>) -> bool {
    open_after(commands) == Some(OpenPass::Idle)
}

/// Recording one more command moves the state by that command.
pub proof fn lemma_open_after_push(commands: Seq<Command>, command: Command)
    ensures
        open_after(commands.push(command)) == match open_after(commands) {
            Some(state) => after(state, command),
            None => None,
        },
{
    assert(commands.push(command).drop_last() =~= commands);
}

/// Well-nested commands followed by well-nested commands are well nested:
/// what one pass records can stand behind what another has recorded.
pub proof fn lemma_well_nested_concat(first: Seq<Command>, second: Seq<Command>)
    requires
        well_nested(first),
    ensures
        open_after(first + second) == open_after(second),
    decreases second.len(),
{
    if second.len() == 0 {
        assert(first + second =~= first);
    } else {
        lemma_well_nested_concat(first, second.drop_last());
        assert((first + second).drop_last() =~= first + second.drop_last());
        assert((first + second).last() == second.last());
    }
}

/// Records commands in order. Pass commands can only be recorded inside a
/// compute pass, and a pass has to be ended before the next begins.
#[derive(Debug)]
pub struct CommandEncoder {
    commands: Vec<Command>,
}

impl View for CommandEncoder {
    type V = Seq<Command>;

    closed spec fn view(&self) -> Seq<Command> {
        self.commands@
    }
}

impl CommandEncoder {
    /// The pass that is open, if every command so far was in place.
    pub open spec fn open_pass(&self) -> Option<OpenPass> {
        open_after(self@)
    }

    /// An encoder with nothing recorded and no pass open.
    pub fn new() -> (encoder: CommandEncoder)
        ensures
            encoder@ == Seq::<Command>::empty(),
            encoder.open_pass() == Some(OpenPass::Idle),
    {
        CommandEncoder { commands: Vec::new() }
    }

    fn record(&mut self, command: Command)
        ensures
            final(self)@ == old(self)@.push(command),
            final(self).open_pass() == match old(self).open_pass() {
                Some(state) => after(state, command),
                None => None,
            },
    {
        proof {
            lemma_open_after_push(self@, command);
        }
        self.commands.push(command);
    }

    pub fn begin_compute_pass(&mut self)
        requires
            old(self).open_pass() == Some(OpenPass::Idle),
        ensures
            final(self)@ == old(self)@.push(Command::BeginComputePass),
            final(self).open_pass() == Some(OpenPass::Compute),
    {
        self.record(Command::BeginComputePass);
    }

    pub fn set_pipeline(&mut self, pipeline: ComputePipelineId)
        requires
            old(self).open_pass() == Some(OpenPass::Compute),
        ensures
            final(self)@ == old(self)@.push(Command::SetPipeline { pipeline }),
            final(self).open_pass() == Some(OpenPass::Compute),
    {
        self.record(Command::SetPipeline { pipeline });
    }

    pub fn set_bind_group(&mut self, index: u32, bind_group: BindGroupId)
        requires
            old(self).open_pass() == Some(OpenPass::Compute),
        ensures
            final(self)@ == old(self)@.push(Command::SetBindGroup { index, bind_group }),
            final(self).open_pass() == Some(OpenPass::Compute),
    {
        self.record(Command::SetBindGroup { index, bind_group });
    }

    pub fn dispatch_workgroups(&mut self, x: u32, y: u32, z: u32)
        requires
            old(self).open_pass() == Some(OpenPass::Compute),
        ensures
            final(self)@ == old(self)@.push(Command::DispatchWorkgroups { x, y, z }),
            final(self).open_pass() == Some(OpenPass::Compute),
    {
        self.record(Command::DispatchWorkgroups { x, y, z });
    }

    pub fn end_compute_pass(&mut self)
        requires
            old(self).open_pass() == Some(OpenPass::Compute),
        ensures
            final(self)@ == old(self)@.push(Command::EndComputePass),
            final(self).open_pass() == Some(OpenPass::Idle),
    {
        self.record(Command::EndComputePass);
    }

    pub fn begin_render_pass(&mut self, target: RenderTarget, clear: Color)
        requires
            old(self).open_pass() == Some(OpenPass::Idle),
        ensures
            final(self)@ == old(self)@.push(Command::BeginRenderPass { target, clear }),
            final(self).open_pass() == Some(OpenPass::Render),
    {
        self.record(Command::BeginRenderPass { target, clear });
    }

    pub fn end_render_pass(&mut self)
        requires
            old(self).open_pass() == Some(OpenPass::Render),
        ensures
            final(self)@ == old(self)@.push(Command::EndRenderPass),
            final(self).open_pass() == Some(OpenPass::Idle),
    {
        self.record(Command::EndRenderPass);
    }

    /// Closes the encoder. Every pass has to be ended.
    pub fn finish(self) -> (buffer: CommandBuffer)
        requires
            self.open_pass() == Some(OpenPass::Idle),
        ensures
            buffer@ == self@,
    {
        CommandBuffer { commands: self.commands }
    }
}

/// The commands of a finished encoder, in recording order. They are well
/// nested: there is no other way to make a command buffer than to finish an
/// encoder.
#[derive(Debug, PartialEq, Eq)]
pub struct CommandBuffer {
    commands: Vec<Command>,
}

impl View for CommandBuffer {
    type V = Seq<Command>;

    closed spec fn view(&self) -> Seq<Command> {
        self.commands@
    }
}

impl CommandBuffer {
    #[verifier::type_invariant]
    spec fn nested(self) -> bool {
        well_nested(self.commands@)
    }

    /// The recorded commands.
    pub fn commands(&self) -> (commands: &Vec<Command>)
        ensures
            commands@ == self@,
            well_nested(self@),
    {
        proof {
            use_type_invariant(self);
        }
        &self.commands
    }
}

/// One piece of work handed to the queue.
#[derive(Debug, PartialEq, Eq)]
pub enum QueueOp {
    /// Write the camera's view-projection matrix at the start of `buffer`.
    WriteViewProjection { buffer: BufferId, camera: Camera },
    /// Execute a command buffer.
    Submit(CommandBuffer),
}

/// The queue as the library sees it: the work handed to it and not yet taken
/// by the device layer, oldest first.
#[derive(Debug)]
pub struct Queue {
    pending: Vec<QueueOp>,
}

impl View for Queue {
    type V = Seq<QueueOp>;

    closed spec fn view(&self) -> Seq<QueueOp> {
        self.pending@
    }
}

impl Queue {
    /// A queue with no work pending.
    pub fn new() -> (queue: Queue)
        ensures
            queue@ == Seq::<QueueOp>::empty(),
    {
        Queue { pending: Vec::new() }
    }

    /// Schedules a write of `camera`'s view-projection matrix into `buffer`.
    pub fn write_view_projection(&mut self, buffer: BufferId, camera: Camera)
        ensures
            final(self)@ == old(self)@.push(QueueOp::WriteViewProjection { buffer, camera }),
    {
        self.pending.push(QueueOp::WriteViewProjection { buffer, camera });
    }

    /// Submits a command buffer.
    pub fn submit(&mut self, buffer: CommandBuffer)
        ensures
            final(self)@ == old(self)@.push(QueueOp::Submit(buffer)),
    {
        self.pending.push(QueueOp::Submit(buffer));
    }

    /// Hands the pending work over, oldest first, and leaves the queue empty.
    pub fn take(&mut self) -> (work: Vec<QueueOp>)
        ensures
            work@ == old(self)@,
            final(self)@ == Seq::<QueueOp>::empty(),
    {
        let mut work: Vec<QueueOp> = Vec::new();
        std::mem::swap(&mut work, &mut self.pending);
        work
    }
}

} // verus!
