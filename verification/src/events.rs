//! The render loop's decisions.
//!
//! The platform layer owns the window and the event queue; it hands
//! every event here, normalized, and performs the actions handed
//! back: render a frame, request a redraw, push the surface
//! configuration to the driver, or exit. All loop state — the surface
//! configuration, the animator, the exit flag — lives in one explicit
//! value, mutated only through these functions. Once a close request
//! or the escape key has been seen, the state is exiting and no event
//! yields any further action: no frame is acquired after the tick in
//! flight.

use vstd::prelude::*;
use crate::algebra::mat4_of;
use crate::animator::TransformAnimator;
use crate::codec::{matrix_to_bytes, bytes_of_words};
use crate::error::RenderError;
use crate::frame::{FramePlan, RenderCommand, frame_commands, record_frame};
use crate::scalar::{TENTH_BITS, ge_bits};
use crate::surface::{SurfaceManager, AcquireOutcome, FrameTexture, spec_on_resize,
    spec_acquired_frame};

verus! {

/// A normalized window event, as the platform layer delivers it.
#[derive(Clone, Copy, Debug, PartialEq, Eq, Structural)]
pub enum LoopEvent {
    /// The window wants to be repainted.
    RedrawRequested,
    /// All pending redraws were processed; a steady-state tick may
    /// request the next one.
    RedrawsCleared,
    /// The window's drawable size changed.
    WindowResized { width: u32, height: u32 },
    /// The window's close button was pressed.
    CloseRequested,
    /// The escape key was pressed; equivalent to a close request.
    EscapePressed,
    /// Anything else; ignored.
    Other,
}

/// An action the platform layer must perform in order.
#[derive(Clone, Copy, Debug, PartialEq, Eq, Structural)]
pub enum LoopAction {
    /// Run one render tick and present the frame.
    RenderFrame,
    /// Ask the window for another redraw.
    RequestRedraw,
    /// Push the surface configuration to the driver before the next
    /// acquire.
    ReconfigureSurface,
    /// Stop the loop.
    Exit,
}

/// All state the loop mutates across ticks, owned explicitly.
#[derive(Clone, Copy, Debug)]
pub struct RenderLoopState {
    pub surface: SurfaceManager,
    pub animator: TransformAnimator,
    /// Whether the variant repaints continuously: each time the
    /// pending redraws are cleared, it asks for the next one.
    pub continuous: bool,
    pub exiting: bool,
}

/// The state after one event. An exiting state absorbs everything; a
/// valid resize reconfigures the surface synchronously; close and
/// escape set the exit flag; nothing else changes the state.
pub open spec fn spec_next_state(s: RenderLoopState, e: LoopEvent) -> RenderLoopState {
    if s.exiting {
        s
    } else {
        match e {
            LoopEvent::WindowResized { width, height } => {
                if width >= 1 && height >= 1 {
                    RenderLoopState { surface: spec_on_resize(s.surface, width, height), ..s }
                } else {
                    s
                }
            },
            LoopEvent::CloseRequested => RenderLoopState { exiting: true, ..s },
            LoopEvent::EscapePressed => RenderLoopState { exiting: true, ..s },
            _ => s,
        }
    }
}

/// The actions one event demands. An exiting state demands nothing —
/// in particular no frame is rendered; a redraw request renders; a
/// cleared-redraws notification requests the next redraw when the
/// variant repaints continuously; a valid resize reconfigures and
/// then forces a redraw; close and escape exit.
pub open spec fn spec_actions(s: RenderLoopState, e: LoopEvent) -> Seq<LoopAction> {
    if s.exiting {
        Seq::empty()
    } else {
        match e {
            LoopEvent::RedrawRequested => seq![LoopAction::RenderFrame],
            LoopEvent::RedrawsCleared => {
                if s.continuous {
                    seq![LoopAction::RequestRedraw]
                } else {
                    Seq::empty()
                }
            },
            LoopEvent::WindowResized { width, height } => {
                if width >= 1 && height >= 1 {
                    seq![LoopAction::ReconfigureSurface, LoopAction::RequestRedraw]
                } else {
                    Seq::empty()
                }
            },
            LoopEvent::CloseRequested => seq![LoopAction::Exit],
            LoopEvent::EscapePressed => seq![LoopAction::Exit],
            LoopEvent::Other => Seq::empty(),
        }
    }
}

/// What one render tick came to.
pub enum TickOutcome {
    /// The frame was rendered: upload the matrix payload, run the
    /// commands, present the frame.
    Rendered { matrix_bytes: Vec<u8>, commands: Vec<RenderCommand>, frame: FrameTexture },
    /// A transient acquire failure: the tick is skipped and another
    /// redraw must be requested; never terminates the loop.
    Skipped { retry: RenderError },
    /// A fatal acquire failure: the process must terminate.
    Failed { error: RenderError },
}

impl RenderLoopState {
    /// A fresh loop over a configured surface: identity transform,
    /// time zero, not exiting.
    pub fn new(surface: SurfaceManager, continuous: bool) -> (s: RenderLoopState)
        requires
            surface.well_formed(),
        ensures
            s.surface == surface,
            s.animator.transform == crate::transform::identity_transform(),
            s.continuous == continuous,
            !s.exiting,
            s.surface.well_formed(),
    {
        RenderLoopState { surface, animator: TransformAnimator::new(), continuous, exiting: false }
    }

    /// Reacts to one normalized event: updates the state exactly as
    /// `spec_next_state` says and hands back exactly the actions of
    /// `spec_actions`, in order.
    pub fn handle_event(&mut self, e: LoopEvent) -> (actions: Vec<LoopAction>)
        requires
            old(self).surface.well_formed(),
        ensures
            *final(self) == spec_next_state(*old(self), e),
            actions@ == spec_actions(*old(self), e),
            final(self).surface.well_formed(),
    {
        if self.exiting {
            return Vec::new();
        }
        match e {
            LoopEvent::RedrawRequested => {
                let actions = vec![LoopAction::RenderFrame];
                proof {
                    assert(actions@ =~= spec_actions(*old(self), e));
                }
                actions
            },
            LoopEvent::RedrawsCleared => {
                if self.continuous {
                    let actions = vec![LoopAction::RequestRedraw];
                    proof {
                        assert(actions@ =~= spec_actions(*old(self), e));
                    }
                    actions
                } else {
                    Vec::new()
                }
            },
            LoopEvent::WindowResized { width, height } => {
                if width >= 1 && height >= 1 {
                    self.surface.on_resize(width, height);
                    let actions = vec![LoopAction::ReconfigureSurface, LoopAction::RequestRedraw];
                    proof {
                        assert(actions@ =~= spec_actions(*old(self), e));
                    }
                    actions
                } else {
                    Vec::new()
                }
            },
            LoopEvent::CloseRequested => {
                self.exiting = true;
                let actions = vec![LoopAction::Exit];
                proof {
                    assert(actions@ =~= spec_actions(*old(self), e));
                }
                actions
            },
            LoopEvent::EscapePressed => {
                self.exiting = true;
                let actions = vec![LoopAction::Exit];
                proof {
                    assert(actions@ =~= spec_actions(*old(self), e));
                }
                actions
            },
            LoopEvent::Other => Vec::new(),
        }
    }

    /// One render tick: advances the animation, serializes the new
    /// matrix, and interprets the driver's acquire outcome. On
    /// success the frame has the configured size and the commands are
    /// exactly the plan's; the two transient failures skip the tick —
    /// the animation has still advanced — and out-of-memory is fatal.
    pub fn render_tick(&mut self, elapsed: u32, outcome: AcquireOutcome, plan: &FramePlan) -> (r:
        TickOutcome)
        requires
            old(self).surface.well_formed(),
            plan.bind_groups@.len() <= u32::MAX,
            plan.vertex_buffers@.len() <= u32::MAX,
        ensures
            final(self).surface == old(self).surface,
            final(self).exiting == old(self).exiting,
            final(self).animator.last_elapsed == elapsed,
            ge_bits(final(self).animator.transform.scale[0], TENTH_BITS),
            match r {
                TickOutcome::Rendered { matrix_bytes, commands, frame } => {
                    &&& outcome == AcquireOutcome::Success
                    &&& frame == spec_acquired_frame(old(self).surface)
                    &&& commands@ == frame_commands(*plan)
                    &&& matrix_bytes@ == bytes_of_words(
                        mat4_of(
                            final(self).animator.transform.scale,
                            final(self).animator.transform.rotation,
                            final(self).animator.transform.translation,
                        )@,
                    )
                },
                TickOutcome::Skipped { retry } => {
                    &&& (outcome == AcquireOutcome::Lost || outcome == AcquireOutcome::Timeout)
                    &&& retry == (if outcome == AcquireOutcome::Lost {
                        RenderError::SurfaceLost
                    } else {
                        RenderError::SurfaceTimeout
                    })
                },
                TickOutcome::Failed { error } => {
                    &&& outcome == AcquireOutcome::OutOfMemory
                    &&& error == RenderError::SurfaceOutOfMemory
                },
            },
    {
        let f = self.animator.tick(elapsed);
        let matrix_bytes = matrix_to_bytes(&f.matrix);
        match self.surface.acquire_frame(outcome) {
            Ok(frame) => TickOutcome::Rendered {
                matrix_bytes,
                commands: record_frame(plan),
                frame,
            },
            Err(e) => {
                if e.is_fatal() {
                    TickOutcome::Failed { error: e }
                } else {
                    TickOutcome::Skipped { retry: e }
                }
            },
        }
    }
}

/// Law: a close request (or the escape key) delivered mid-loop stops
/// the loop. Handling it only exits — any tick in flight finishes, no
/// new frame is rendered by it — and in the exiting state that
/// results, every further event yields no action at all and leaves
/// the state as it is: no further frame is ever acquired.
pub proof fn lemma_close_stops_loop(s: RenderLoopState, e: LoopEvent)
    requires
        !s.exiting,
    ensures
        spec_next_state(s, LoopEvent::CloseRequested).exiting,
        spec_next_state(s, LoopEvent::EscapePressed).exiting,
        !spec_actions(s, LoopEvent::CloseRequested).contains(LoopAction::RenderFrame),
        spec_actions(spec_next_state(s, LoopEvent::CloseRequested), e) == Seq::<LoopAction>::empty(),
        spec_next_state(spec_next_state(s, LoopEvent::CloseRequested), e) == spec_next_state(
            s,
            LoopEvent::CloseRequested,
        ),
{
    assert(spec_actions(s, LoopEvent::CloseRequested) =~= seq![LoopAction::Exit]);
    assert(!spec_actions(s, LoopEvent::CloseRequested).contains(LoopAction::RenderFrame));
}

} // verus!
