//! The compositor session: one state machine that strings the setup phases
//! together in their mandatory order — negotiate, redirect, acquire the
//! overlay, shape its input region, bind the GPU surface — and then runs
//! the render/event loop until it stops.
//!
//! The unverified shell owns the connection and the GPU objects; it asks
//! the session what to do next, performs the round trip, and reports the
//! outcome. The session's well-formedness carries the design's ordering
//! invariants: no request against an extension before its negotiation has
//! completed, and an overlay window that is always nonzero and distinct
//! from the root.

use vstd::prelude::*;

use crate::connect::Screen;
use crate::errors::ProtocolError;
use crate::errors::RenderError;
use crate::errors::SurfaceError;
use crate::events::EventKind;
use crate::negotiate::Extension;
use crate::negotiate::ExtensionVersion;
use crate::negotiate::ExtensionVersions;
use crate::negotiate::NegotiationStep;
use crate::negotiate::Negotiator;
use crate::negotiate::step_extension;
use crate::overlay::OverlayWindow;
use crate::overlay::RedirectMode;
use crate::overlay::RedirectRequest;
use crate::overlay::ShapeRequest;
use crate::overlay::TeardownGuard;
use crate::overlay::TeardownRequest;
use crate::overlay::acquire_overlay;
use crate::overlay::input_shape_requests;
use crate::overlay::shape_step_outcome;
use crate::runloop::LoopAction;
use crate::runloop::LoopState;
use crate::runloop::loop_step;
use crate::runloop::loop_step_spec;
use crate::surface::FrameOutcome;
use crate::surface::ClearPass;
use crate::surface::GpuSurfaceContext;
use crate::surface::SurfaceCaps;
use crate::surface::chosen_format_ok;
use crate::surface::create_inputs_ok;
use crate::surface::create_surface;
use crate::surface::render_spec;
use crate::surface::MAX_FRAME_LATENCY;

verus! {

/// Where the session stands in the mandatory setup order.
#[derive(Clone, Copy, PartialEq, Eq, Structural, Debug)]
pub enum Phase {
    /// Driving the extension version handshake.
    Negotiating,
    /// Negotiation complete; the redirect and overlay round trips are due.
    Redirecting,
    /// Overlay acquired; the input-shape step is due.
    Shaping,
    /// The GPU surface is to be created and configured.
    BindingSurface,
    /// The render/event loop is running.
    Running,
    /// The loop stopped cleanly or with a contained render failure.
    Stopped,
    /// A fatal setup error ended the session.
    Failed,
}

/// The compositor session state.
pub struct Compositor {
    pub phase: Phase,
    /// The screen record read at connect time; immutable for the session.
    pub screen: Screen,
    pub negotiator: Negotiator,
    pub overlay: Option<OverlayWindow>,
    pub surface: Option<GpuSurfaceContext>,
    pub loop_state: LoopState,
    pub teardown: Option<TeardownGuard>,
}

impl Compositor {
    /// Phases that lie beyond the negotiation handshake.
    pub open spec fn past_negotiation(self) -> bool {
        match self.phase {
            Phase::Redirecting | Phase::Shaping | Phase::BindingSurface | Phase::Running
                | Phase::Stopped => true,
            _ => false,
        }
    }

    /// Phases that lie beyond overlay acquisition.
    pub open spec fn past_overlay(self) -> bool {
        match self.phase {
            Phase::Shaping | Phase::BindingSurface | Phase::Running | Phase::Stopped => true,
            _ => false,
        }
    }

    /// The session invariant: the handshake machine is well-formed;
    /// every phase that issues extension requests has negotiation complete
    /// behind it; once acquired, the overlay is nonzero, distinct from the
    /// root, and guarded by a teardown record for exactly it; while the
    /// loop runs, a surface context exists and the loop state is live.
    pub open spec fn wf(self) -> bool {
        &&& self.negotiator.wf()
        &&& (self.past_negotiation() ==> self.negotiator.complete())
        &&& (self.past_overlay() ==> {
            &&& self.overlay matches Some(w) && w.valid_for(self.screen.root)
            &&& self.teardown matches Some(g) && g.root == self.screen.root
            &&& self.overlay matches Some(w) && self.teardown matches Some(g) && g.overlay == w.id
        })
        &&& (self.phase is Running ==> self.surface is Some)
        &&& (self.phase is Running ==> self.loop_state is Running)
    }

    /// A fresh session for the given screen: negotiation is first.
    pub fn new(screen: Screen) -> (c: Compositor)
        ensures
            c.wf(),
            c.phase is Negotiating,
            c.screen == screen,
            c.negotiator.replies_seen() == Seq::<Extension>::empty(),
            c.negotiator.step == NegotiationStep::QueryRedirection,
            c.overlay is None,
            c.surface is None,
            c.teardown is None,
    {
        Compositor {
            phase: Phase::Negotiating,
            screen,
            negotiator: Negotiator::new(),
            overlay: None,
            surface: None,
            loop_state: LoopState::Running { retried: false },
            teardown: None,
        }
    }

    /// The extension whose version query the shell should issue next.
    pub fn pending_query(&self) -> (r: Option<Extension>)
        ensures
            r == self.negotiator.pending_spec(),
    {
        self.negotiator.pending()
    }

    /// Feed one version reply into the handshake. An absent extension
    /// fails the session at once; the third present reply moves the
    /// session on to the redirect phase.
    pub fn extension_reply(&mut self, reply: Option<ExtensionVersion>) -> (r: Result<
        (),
        ProtocolError,
    >)
        requires
            old(self).wf(),
            old(self).phase is Negotiating,
            old(self).negotiator.pending_spec() is Some,
        ensures
            final(self).wf(),
            final(self).screen == old(self).screen,
            final(self).overlay == old(self).overlay,
            final(self).surface == old(self).surface,
            final(self).teardown == old(self).teardown,
            r is Ok <==> reply is Some,
            reply is None ==> {
                &&& final(self).phase is Failed
                &&& r == Err::<(), ProtocolError>(
                    ProtocolError::ExtensionUnavailable(step_extension(old(self).negotiator.step)),
                )
            },
            reply matches Some(v) ==> {
                &&& final(self).negotiator.replies_seen() == old(
                    self,
                ).negotiator.replies_seen().push(step_extension(old(self).negotiator.step))
                &&& (old(self).negotiator.step is QueryDamage ==> final(self).phase is Redirecting
                    && final(self).negotiator.complete() && final(self).negotiator.damage == v)
                &&& (old(self).negotiator.step is QueryRedirection ==> final(self).phase
                    is Negotiating && final(self).negotiator.redirection == v)
                &&& (old(self).negotiator.step is QueryShape ==> final(self).phase is Negotiating
                    && final(self).negotiator.shape == v)
            },
    {
        match self.negotiator.apply_reply(reply) {
            Err(e) => {
                self.phase = Phase::Failed;
                Err(e)
            },
            Ok(()) => {
                match self.negotiator.step {
                    NegotiationStep::Complete => {
                        self.phase = Phase::Redirecting;
                    },
                    _ => {},
                }
                Ok(())
            },
        }
    }

    /// The negotiated versions, available once the handshake is behind.
    pub fn versions(&self) -> (r: ExtensionVersions)
        requires
            self.wf(),
            self.past_negotiation(),
        ensures
            r.redirection == self.negotiator.redirection,
            r.shape == self.negotiator.shape,
            r.damage == self.negotiator.damage,
    {
        self.negotiator.versions()
    }

    /// The redirect-subwindows request due in the redirect phase. That
    /// this function demands the redirect phase is the ordering invariant
    /// at work: no composite request before negotiation completed.
    pub fn redirect_request(&self) -> (r: RedirectRequest)
        requires
            self.wf(),
            self.phase is Redirecting,
        ensures
            r == (RedirectRequest { root: self.screen.root, mode: RedirectMode::Automatic }),
    {
        crate::overlay::redirect_request(self.screen.root)
    }

    /// Decide overlay acquisition from the two round-trip outcomes. On
    /// success the session holds a validated overlay window and a fresh
    /// teardown guard, and moves on to the input-shape step.
    pub fn overlay_outcome(&mut self, redirect_ok: bool, overlay_reply: Option<u32>) -> (r: Result<
        OverlayWindow,
        ProtocolError,
    >)
        requires
            old(self).wf(),
            old(self).phase is Redirecting,
        ensures
            final(self).wf(),
            final(self).screen == old(self).screen,
            r matches Ok(w) ==> {
                &&& w.valid_for(old(self).screen.root)
                &&& final(self).phase is Shaping
                &&& final(self).overlay == Some(w)
                &&& final(self).teardown matches Some(g) && g.root == old(self).screen.root
                    && g.overlay == w.id && !g.released
            },
            r is Err ==> final(self).phase is Failed,
            !redirect_ok ==> r == Err::<OverlayWindow, ProtocolError>(
                ProtocolError::RedirectFailed,
            ),
            redirect_ok && overlay_reply is None ==> r == Err::<OverlayWindow, ProtocolError>(
                ProtocolError::OverlayRequestFailed,
            ),
            overlay_reply matches Some(id) ==> {
                &&& redirect_ok && (id == 0 || id == old(self).screen.root) ==> r == Err::<
                    OverlayWindow,
                    ProtocolError,
                >(ProtocolError::OverlayInvalid)
                &&& redirect_ok && id != 0 && id != old(self).screen.root ==> r == Ok::<
                    OverlayWindow,
                    ProtocolError,
                >(OverlayWindow { id })
            },
    {
        match acquire_overlay(self.screen.root, redirect_ok, overlay_reply) {
            Err(e) => {
                self.phase = Phase::Failed;
                Err(e)
            },
            Ok(w) => {
                self.overlay = Some(w);
                self.teardown = Some(TeardownGuard::new(self.screen.root, w));
                self.phase = Phase::Shaping;
                Ok(w)
            },
        }
    }

    /// The input-shape requests due in the shaping phase, for a region
    /// identifier the shell generated.
    pub fn shape_requests(&self, region: u32) -> (r: Vec<ShapeRequest>)
        requires
            self.wf(),
            self.phase is Shaping,
        ensures
            self.overlay matches Some(w) ==> r@ == seq![
                ShapeRequest::CreateEmptyRegion { region },
                ShapeRequest::SetInputShapeRegion { window: w.id, region },
                ShapeRequest::DestroyRegion { region },
            ],
    {
        let w = match self.overlay {
            Some(w) => w,
            None => {
                proof {
                    assert(false);
                }
                OverlayWindow { id: 1 }
            },
        };
        input_shape_requests(w, region)
    }

    /// Record the outcome of the input-shape step. Failure is non-fatal:
    /// either way the session moves on to surface binding, and a failure
    /// is handed back as a warning-level error.
    pub fn shape_outcome(&mut self, ok: bool) -> (r: Option<ProtocolError>)
        requires
            old(self).wf(),
            old(self).phase is Shaping,
        ensures
            final(self).wf(),
            final(self).phase is BindingSurface,
            final(self).screen == old(self).screen,
            final(self).overlay == old(self).overlay,
            final(self).teardown == old(self).teardown,
            final(self).negotiator == old(self).negotiator,
            ok <==> r is None,
            !ok ==> r == Some(ProtocolError::ShapeFailed),
    {
        self.phase = Phase::BindingSurface;
        shape_step_outcome(ok)
    }

    /// Bind the GPU surface: decide the configuration record from what the
    /// platform reported. On success the session starts the render/event
    /// loop with a configuration whose dimensions equal the screen's pixel
    /// dimensions exactly.
    pub fn bind_surface(
        &mut self,
        screen_index: usize,
        adapter: Option<u64>,
        device: Option<u64>,
        caps: &SurfaceCaps,
    ) -> (r: Result<(), SurfaceError>)
        requires
            old(self).wf(),
            old(self).phase is BindingSurface,
        ensures
            final(self).wf(),
            final(self).screen == old(self).screen,
            final(self).overlay == old(self).overlay,
            final(self).teardown == old(self).teardown,
            old(self).overlay matches Some(w) ==> {
                &&& (r is Ok <==> create_inputs_ok(
                    w,
                    screen_index,
                    adapter,
                    device,
                    caps.format_srgb@,
                    caps.alpha_mode_count,
                ))
            },
            r is Ok ==> {
                &&& final(self).phase is Running
                &&& final(self).loop_state == (LoopState::Running { retried: false })
                &&& final(self).surface matches Some(ctx) && {
                    &&& ctx.config.width == old(self).screen.width as u32
                    &&& ctx.config.height == old(self).screen.height as u32
                    &&& chosen_format_ok(caps.format_srgb@, ctx.config.format_index as int)
                    &&& ctx.config.alpha_mode_index == 0
                    &&& ctx.config.present_mode is Fifo
                    &&& ctx.config.usage is RenderAttachment
                    &&& ctx.config.max_frame_latency == MAX_FRAME_LATENCY
                    &&& Some(ctx.adapter_id) == adapter
                    &&& Some(ctx.device_id) == device
                }
            },
            r is Err ==> final(self).phase is Failed,
    {
        let w = match self.overlay {
            Some(w) => w,
            None => {
                proof {
                    assert(false);
                }
                OverlayWindow { id: 1 }
            },
        };
        match create_surface(
            w,
            screen_index,
            (self.screen.width, self.screen.height),
            adapter,
            device,
            caps,
        ) {
            Err(e) => {
                self.phase = Phase::Failed;
                Err(e)
            },
            Ok(ctx) => {
                self.surface = Some(ctx);
                self.loop_state = LoopState::Running { retried: false };
                self.phase = Phase::Running;
                Ok(())
            },
        }
    }

    /// Decide one render attempt from the frame-acquisition outcome.
    pub fn render(&self, outcome: FrameOutcome) -> (r: Result<ClearPass, RenderError>)
        requires
            self.wf(),
            self.phase is Running,
        ensures
            r == render_spec(outcome),
            r is Ok <==> outcome is Acquired,
    {
        let ctx = match self.surface {
            Some(ctx) => ctx,
            None => {
                proof {
                    assert(false);
                }
                return Err(RenderError::SurfaceUnavailable);
            },
        };
        ctx.render(outcome)
    }

    /// Reconfigure the surface to new dimensions. Only the configuration
    /// record changes; the adapter and device identities stay, so no
    /// recreation can hide behind a resize.
    pub fn resize(&mut self, width: u16, height: u16)
        requires
            old(self).wf(),
            old(self).phase is Running,
        ensures
            final(self).wf(),
            final(self).phase == old(self).phase,
            final(self).screen == old(self).screen,
            final(self).overlay == old(self).overlay,
            final(self).teardown == old(self).teardown,
            final(self).loop_state == old(self).loop_state,
            old(self).surface matches Some(ctx) ==> final(self).surface == Some(
                ctx.resize_spec(width, height),
            ),
    {
        let mut ctx = match self.surface {
            Some(ctx) => ctx,
            None => {
                proof {
                    assert(false);
                }
                return ;
            },
        };
        ctx.resize(width, height);
        self.surface = Some(ctx);
    }

    /// One iteration of the render/event loop: the shell reports the frame
    /// outcome and the result of one non-blocking poll; the returned
    /// action says whether to present, reconfigure and retry, handle the
    /// event and stop, or stop with the error.
    pub fn run_step(&mut self, outcome: FrameOutcome, event: Option<EventKind>) -> (r: LoopAction)
        requires
            old(self).wf(),
            old(self).phase is Running,
        ensures
            final(self).wf(),
            final(self).screen == old(self).screen,
            final(self).overlay == old(self).overlay,
            final(self).surface == old(self).surface,
            final(self).teardown == old(self).teardown,
            (final(self).loop_state, r) == loop_step_spec(
                old(self).loop_state,
                outcome is Acquired,
                event,
            ),
            final(self).phase == (if final(self).loop_state is Stopped {
                Phase::Stopped
            } else {
                Phase::Running
            }),
    {
        let render_ok = match outcome {
            FrameOutcome::Acquired => true,
            _ => false,
        };
        let (next, action) = loop_step(self.loop_state, render_ok, event);
        self.loop_state = next;
        match next {
            LoopState::Stopped => {
                self.phase = Phase::Stopped;
            },
            _ => {},
        }
        action
    }

    /// Trigger teardown: the un-redirect and overlay-release requests the
    /// shell should now issue, best-effort. The guard hands the plan out
    /// on the first trigger only — a second trigger issues nothing.
    pub fn release(&mut self) -> (r: Vec<TeardownRequest>)
        requires
            old(self).teardown is Some,
        ensures
            final(self).phase == old(self).phase,
            final(self).screen == old(self).screen,
            final(self).overlay == old(self).overlay,
            final(self).surface == old(self).surface,
            final(self).negotiator == old(self).negotiator,
            final(self).loop_state == old(self).loop_state,
            old(self).teardown matches Some(g) ==> {
                &&& final(self).teardown == Some(g.release_spec().0)
                &&& r@ == g.release_spec().1
                &&& (!g.released ==> r@ == g.release_plan())
                &&& (g.released ==> r@ == Seq::<TeardownRequest>::empty())
            },
            old(self).wf() ==> final(self).wf(),
    {
        let g = match &mut self.teardown {
            Some(g) => g,
            None => {
                proof {
                    assert(false);
                }
                return Vec::new();
            },
        };
        g.release()
    }
}

/// Law: in a well-formed session, every phase from which composite or
/// shape requests are issued lies beyond a completed negotiation — the
/// version handshake always precedes any other extension request.
pub proof fn lemma_negotiation_precedes_requests(c: Compositor)
    requires
        c.wf(),
        c.past_negotiation(),
    ensures
        c.negotiator.complete(),
        c.negotiator.replies_seen() == crate::negotiate::required_order(),
{
    crate::negotiate::lemma_complete_negotiation_order(c.negotiator);
}

} // verus!
