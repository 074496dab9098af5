//! What the event loop does on each event.
//!
//! The loop itself belongs to the windowing system. On every event it asks
//! [`FrameLoop::handle`] what to do, and carries the answer out in order.

use crate::render_client::event::{InputEvent, LoopEvent, Platform};
use crate::render_client::surface_wrapper::SurfaceWrapper;
use vstd::prelude::*;
use vstd::string::StrSliceExecFns;

verus! {

/// One step that the loop carries out.
#[derive(Debug, PartialEq, Eq)]
pub enum LoopAction {
    /// Make the surface ready for the window as it is now.
    ResumeSurface,
    /// Build the renderer for the surface's configuration.
    InitRenderer,
    /// Let go of the surface where the platform takes it away.
    SuspendSurface,
    /// Give the surface the window's new size.
    ResizeSurface { width: u32, height: u32 },
    /// Tell the renderer the surface's new configuration.
    ResizeRenderer,
    /// Ask the window for another redraw.
    RequestRedraw,
    /// Leave the loop.
    Exit,
    /// Print a report on the graphics instance.
    PrintReport,
    /// Count the frame.
    CountFrame,
    /// Take the next image of the swapchain.
    AcquireFrame,
    /// Move the camera by what its controller holds.
    MoveCamera,
    /// Let the renderer queue its writes.
    UpdateRender,
    /// Let the renderer record and submit the frame.
    Render,
    /// Show the image.
    Present,
    /// Hand the event to the renderer.
    ProcessEvent(InputEvent),
}

/// The loop's own state: whether the renderer has been built.
#[derive(Clone, Copy, Debug, PartialEq, Eq, Structural)]
pub enum FrameLoop {
    Uninitialized,
    Initialized,
}

/// Whether `e` is the event on which the surface is resumed: the start of the
/// loop, except on Android, where it is the resume event.
pub open spec fn is_start(e: LoopEvent, platform: Platform) -> bool {
    match e {
        LoopEvent::Init => platform != Platform::Android,
        LoopEvent::Resumed => platform == Platform::Android,
        _ => false,
    }
}

/// Whether `e` is the key that asks for a report: `r`, outside a browser.
pub open spec fn is_report_key(e: LoopEvent, platform: Platform) -> bool {
    &&& platform != Platform::Web
    &&& e matches LoopEvent::Window(InputEvent::Character { text, .. })
    &&& text@ == seq!['r']
}

/// Whether `e` can only be answered once the renderer is built: a new size of
/// the window, and every event that is handed to the renderer.
pub open spec fn needs_renderer(e: LoopEvent, platform: Platform) -> bool {
    match e {
        LoopEvent::Resized { .. } => true,
        LoopEvent::Window(_) => !is_report_key(e, platform),
        _ => false,
    }
}

/// The steps of one frame. The camera moves once, before the writes; the
/// writes are queued before anything is recorded, and the image is shown after
/// the frame was submitted.
pub open spec fn frame_steps() -> Seq<LoopAction> {
    seq![
        LoopAction::CountFrame,
        LoopAction::AcquireFrame,
        LoopAction::MoveCamera,
        LoopAction::UpdateRender,
        LoopAction::Render,
        LoopAction::Present,
        LoopAction::RequestRedraw,
    ]
}

impl FrameLoop {
    /// The state after `e`: the renderer is built on the first start event and
    /// stays.
    pub open spec fn next(self, e: LoopEvent, platform: Platform) -> FrameLoop {
        if is_start(e, platform) {
            FrameLoop::Initialized
        } else {
            self
        }
    }

    /// The steps that answer `e`.
    ///
    /// - The start event resumes the surface, and builds the renderer if that
    ///   has not been done.
    /// - A suspension suspends the surface.
    /// - A new size resizes the surface, then the renderer, and asks for a
    ///   redraw.
    /// - The escape key and a request to close leave the loop.
    /// - The report key prints the report.
    /// - A redraw runs a frame, or nothing while there is no renderer.
    /// - Any other event of the window goes to the renderer; anything else is
    ///   passed over.
    pub open spec fn steps(self, e: LoopEvent, platform: Platform) -> Seq<LoopAction> {
        if is_start(e, platform) {
            if self == FrameLoop::Uninitialized {
                seq![LoopAction::ResumeSurface, LoopAction::InitRenderer]
            } else {
                seq![LoopAction::ResumeSurface]
            }
        } else {
            match e {
                LoopEvent::Suspended => seq![LoopAction::SuspendSurface],
                LoopEvent::Resized { width, height } => seq![
                    LoopAction::ResizeSurface { width, height },
                    LoopAction::ResizeRenderer,
                    LoopAction::RequestRedraw,
                ],
                LoopEvent::EscapeKey => seq![LoopAction::Exit],
                LoopEvent::CloseRequested => seq![LoopAction::Exit],
                LoopEvent::RedrawRequested => if self == FrameLoop::Initialized {
                    frame_steps()
                } else {
                    Seq::empty()
                },
                LoopEvent::Window(event) => if is_report_key(e, platform) {
                    seq![LoopAction::PrintReport]
                } else {
                    seq![LoopAction::ProcessEvent(event)]
                },
                _ => Seq::empty(),
            }
        }
    }

    /// A loop whose renderer has not been built.
    pub fn new() -> (state: FrameLoop)
        ensures
            state == FrameLoop::Uninitialized,
    {
        FrameLoop::Uninitialized
    }

    /// Whether `handle` can answer `e` in this state.
    pub fn accepts(&self, e: &LoopEvent, platform: Platform) -> (ok: bool)
        ensures
            ok == (needs_renderer(*e, platform) ==> *self == FrameLoop::Initialized),
    {
        match self {
            FrameLoop::Initialized => true,
            FrameLoop::Uninitialized => match e {
                LoopEvent::Resized { .. } => false,
                LoopEvent::Window(event) => report_key(event, platform),
                _ => true,
            },
        }
    }

    /// The steps that answer `e`, in the order in which they are carried out.
    /// An event that needs the renderer has to come after the renderer was
    /// built.
    pub fn handle(&mut self, e: LoopEvent, platform: Platform) -> (actions: Vec<LoopAction>)
        requires
            needs_renderer(e, platform) ==> *old(self) == FrameLoop::Initialized,
        ensures
            actions@ == old(self).steps(e, platform),
            *final(self) == old(self).next(e, platform),
    {
        let mut actions: Vec<LoopAction> = Vec::new();
        if SurfaceWrapper::start_condition(&e, platform) {
            actions.push(LoopAction::ResumeSurface);
            if *self == FrameLoop::Uninitialized {
                actions.push(LoopAction::InitRenderer);
                *self = FrameLoop::Initialized;
            }
            assert(actions@ =~= old(self).steps(e, platform));
            return actions;
        }
        match e {
            LoopEvent::Suspended => {
                actions.push(LoopAction::SuspendSurface);
            },
            LoopEvent::Resized { width, height } => {
                actions.push(LoopAction::ResizeSurface { width, height });
                actions.push(LoopAction::ResizeRenderer);
                actions.push(LoopAction::RequestRedraw);
            },
            LoopEvent::EscapeKey => {
                actions.push(LoopAction::Exit);
            },
            LoopEvent::CloseRequested => {
                actions.push(LoopAction::Exit);
            },
            LoopEvent::RedrawRequested => {
                if *self == FrameLoop::Initialized {
                    actions.push(LoopAction::CountFrame);
                    actions.push(LoopAction::AcquireFrame);
                    actions.push(LoopAction::MoveCamera);
                    actions.push(LoopAction::UpdateRender);
                    actions.push(LoopAction::Render);
                    actions.push(LoopAction::Present);
                    actions.push(LoopAction::RequestRedraw);
                }
            },
            LoopEvent::Window(event) => {
                if report_key(&event, platform) {
                    actions.push(LoopAction::PrintReport);
                } else {
                    actions.push(LoopAction::ProcessEvent(event));
                }
            },
            _ => {},
        }
        assert(actions@ =~= old(self).steps(e, platform));
        actions
    }
}

fn report_key(event: &InputEvent, platform: Platform) -> (report: bool)
    ensures
        report == is_report_key(LoopEvent::Window(*event), platform),
{
    if platform == Platform::Web {
        return false;
    }
    match event {
        InputEvent::Character { text, .. } => {
            let s = text.as_str();
            if s.unicode_len() != 1 {
                return false;
            }
            let c = s.get_char(0);
            assert(text@ =~= seq![c]);
            assert(seq!['r'][0] == 'r');
            c == 'r'
        },
        _ => false,
    }
}

/// The state after a run of events, from the first on.
pub open spec fn state_after(state: FrameLoop, events: Seq<LoopEvent>, platform: Platform) -> FrameLoop
    decreases events.len(),
{
    if events.len() == 0 {
        state
    } else {
        state_after(state, events.drop_last(), platform).next(events.last(), platform)
    }
}

/// How often the renderer is built over a run of events.
pub open spec fn times_built(state: FrameLoop, events: Seq<LoopEvent>, platform: Platform) -> nat
    decreases events.len(),
{
    if events.len() == 0 {
        0
    } else {
        let before = state_after(state, events.drop_last(), platform);
        let built: nat = if before.steps(events.last(), platform).contains(
            LoopAction::InitRenderer,
        ) {
            1
        } else {
            0
        };
        times_built(state, events.drop_last(), platform) + built
    }
}

/// The renderer is built once: over any run of events from the start, it is
/// built exactly once if a start event is among them, on the first of them,
/// and not at all otherwise.
pub proof fn lemma_built_once(events: Seq<LoopEvent>, platform: Platform)
    ensures
        times_built(FrameLoop::Uninitialized, events, platform) == if exists|i: int|
            0 <= i < events.len() && is_start(#[trigger] events[i], platform) {
            1nat
        } else {
            0nat
        },
        state_after(FrameLoop::Uninitialized, events, platform) == if exists|i: int|
            0 <= i < events.len() && is_start(#[trigger] events[i], platform) {
            FrameLoop::Initialized
        } else {
            FrameLoop::Uninitialized
        },
    decreases events.len(),
{
    if events.len() > 0 {
        let head = events.drop_last();
        let e = events.last();
        lemma_built_once(head, platform);
        let before = state_after(FrameLoop::Uninitialized, head, platform);
        let steps = before.steps(e, platform);
        if exists|i: int| 0 <= i < head.len() && is_start(#[trigger] head[i], platform) {
            let i = choose|i: int| 0 <= i < head.len() && is_start(#[trigger] head[i], platform);
            assert(events[i] == head[i]);
            assert(before == FrameLoop::Initialized);
            lemma_no_init_when_initialized(e, platform);
        } else {
            assert(before == FrameLoop::Uninitialized);
            if is_start(e, platform) {
                assert(events[events.len() - 1] == e);
                assert(steps[1] == LoopAction::InitRenderer);
            } else {
                lemma_no_init_without_start(before, e, platform);
                assert forall|i: int| 0 <= i < events.len() implies !is_start(
                    #[trigger] events[i],
                    platform,
                ) by {
                    if i < head.len() {
                        assert(events[i] == head[i]);
                    }
                }
            }
        }
    }
}

proof fn lemma_no_init_when_initialized(e: LoopEvent, platform: Platform)
    ensures
        !FrameLoop::Initialized.steps(e, platform).contains(LoopAction::InitRenderer),
{
    let steps = FrameLoop::Initialized.steps(e, platform);
    assert forall|k: int| 0 <= k < steps.len() implies steps[k] != LoopAction::InitRenderer by {}
}

proof fn lemma_no_init_without_start(state: FrameLoop, e: LoopEvent, platform: Platform)
    requires
        !is_start(e, platform),
    ensures
        !state.steps(e, platform).contains(LoopAction::InitRenderer),
{
    let steps = state.steps(e, platform);
    assert forall|k: int| 0 <= k < steps.len() implies steps[k] != LoopAction::InitRenderer by {}
}

} // verus!
