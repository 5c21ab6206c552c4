//! The render/event loop policy: each iteration renders one frame and then
//! polls once, without blocking, for a protocol event.
//!
//! The loop follows one coherent policy. A failed frame earns one surface
//! reconfiguration and one retry before it is fatal; a presented frame
//! resets that allowance. A polled event is dispatched to the log by its
//! kind, and the loop then stops — this design handles a single event per
//! run.

use vstd::prelude::*;

use crate::errors::RenderError;
use crate::events::EventKind;

verus! {

/// State of the render/event loop.
#[derive(Clone, Copy, PartialEq, Eq, Structural, Debug)]
pub enum LoopState {
    Running {
        /// Whether the one permitted reconfigure-and-retry after a failed
        /// frame has been spent.
        retried: bool,
    },
    Stopped,
}

/// What the shell must do after one loop step.
#[derive(Clone, Copy, PartialEq, Eq, Structural, Debug)]
pub enum LoopAction {
    /// The frame was presented and no event is pending: loop again.
    Continue,
    /// Reconfigure the surface and retry the failed frame once.
    Reconfigure,
    /// Log the event at its severity, then stop cleanly.
    HandleEvent(EventKind),
    /// Stop with the render error: the one retry is already spent.
    Fail(RenderError),
}

/// One loop iteration at the specification level, from the frame result
/// and the (non-blocking) poll result.
pub open spec fn loop_step_spec(state: LoopState, render_ok: bool, event: Option<EventKind>) -> (
    LoopState,
    LoopAction,
)
    recommends
        state is Running,
{
    match state {
        LoopState::Running { retried } => {
            if !render_ok {
                if retried {
                    (LoopState::Stopped, LoopAction::Fail(RenderError::SurfaceUnavailable))
                } else {
                    (LoopState::Running { retried: true }, LoopAction::Reconfigure)
                }
            } else {
                match event {
                    Some(kind) => (LoopState::Stopped, LoopAction::HandleEvent(kind)),
                    None => (LoopState::Running { retried: false }, LoopAction::Continue),
                }
            }
        },
        LoopState::Stopped => (LoopState::Stopped, LoopAction::Continue),
    }
}

/// The initial loop state.
pub fn loop_start() -> (r: LoopState)
    ensures
        r == (LoopState::Running { retried: false }),
{
    LoopState::Running { retried: false }
}

/// Decide one loop iteration: `render_ok` says whether the frame was
/// presented, `event` is the result of one non-blocking poll.
pub fn loop_step(state: LoopState, render_ok: bool, event: Option<EventKind>) -> (r: (
    LoopState,
    LoopAction,
))
    requires
        state is Running,
    ensures
        r == loop_step_spec(state, render_ok, event),
{
    match state {
        LoopState::Running { retried } => {
            if !render_ok {
                if retried {
                    (LoopState::Stopped, LoopAction::Fail(RenderError::SurfaceUnavailable))
                } else {
                    (LoopState::Running { retried: true }, LoopAction::Reconfigure)
                }
            } else {
                match event {
                    Some(kind) => (LoopState::Stopped, LoopAction::HandleEvent(kind)),
                    None => (LoopState::Running { retried: false }, LoopAction::Continue),
                }
            }
        },
        LoopState::Stopped => (LoopState::Stopped, LoopAction::Continue),
    }
}

/// The loop state after `n` steady iterations — every frame presented,
/// no event pending.
pub open spec fn steady_state(state: LoopState, n: nat) -> LoopState
    decreases n,
{
    if n == 0 {
        state
    } else {
        steady_state(loop_step_spec(state, true, None).0, (n - 1) as nat)
    }
}

/// One steady iteration keeps the loop running and only asks the shell to
/// present and poll again.
pub proof fn lemma_steady_step(state: LoopState)
    requires
        state is Running,
    ensures
        loop_step_spec(state, true, None).0 == (LoopState::Running { retried: false }),
        loop_step_spec(state, true, None).1 == LoopAction::Continue,
{
}

/// Law: while the surface stays valid and no event arrives, the loop runs
/// on without stopping and without an unhandled error — every iteration
/// presents its frame and continues.
pub proof fn lemma_steady_loop(state: LoopState, n: nat)
    requires
        state is Running,
    ensures
        steady_state(state, n) is Running,
    decreases n,
{
    if n > 0 {
        lemma_steady_step(state);
        lemma_steady_loop(loop_step_spec(state, true, None).0, (n - 1) as nat);
    }
}

} // verus!
