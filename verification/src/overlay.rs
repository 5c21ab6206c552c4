//! Overlay window management: redirecting the root window's children
//! off-screen, acquiring the server's dedicated overlay window, shaping its
//! input region empty, and releasing everything exactly once at teardown.

use vstd::prelude::*;

use crate::errors::ProtocolError;

verus! {

/// Redirection mode of the redirect-subwindows request. This design always
/// uses automatic mode: the server keeps the off-screen contents current
/// without per-window update requests.
#[derive(Clone, Copy, PartialEq, Eq, Structural, Debug)]
pub enum RedirectMode {
    Automatic,
    Manual,
}

/// The server-assigned overlay window.
#[derive(Clone, Copy, PartialEq, Eq, Structural, Debug)]
pub struct OverlayWindow {
    pub id: u32,
}

impl OverlayWindow {
    /// A usable overlay identifier is nonzero and distinct from the root
    /// window identifier.
    pub open spec fn valid_for(self, root: u32) -> bool {
        self.id != 0 && self.id != root
    }
}

/// The redirect-subwindows request that must precede overlay acquisition.
#[derive(Clone, Copy, PartialEq, Eq, Structural, Debug)]
pub struct RedirectRequest {
    pub root: u32,
    pub mode: RedirectMode,
}

/// The request that diverts all current and future children of `root`
/// off-screen, in automatic mode.
pub fn redirect_request(root: u32) -> (r: RedirectRequest)
    ensures
        r == (RedirectRequest { root, mode: RedirectMode::Automatic }),
{
    RedirectRequest { root, mode: RedirectMode::Automatic }
}

/// Decide the outcome of overlay acquisition from the two server round
/// trips: whether the redirect request succeeded, and the overlay
/// identifier the server returned (`None` when the request was rejected).
/// Success is owed exactly when the redirect succeeded and the server
/// returned an identifier that is nonzero and distinct from `root`.
pub fn acquire_overlay(root: u32, redirect_ok: bool, overlay_reply: Option<u32>) -> (r: Result<
    OverlayWindow,
    ProtocolError,
>)
    ensures
        r matches Ok(w) ==> w.valid_for(root),
        !redirect_ok ==> r == Err::<OverlayWindow, ProtocolError>(ProtocolError::RedirectFailed),
        redirect_ok && overlay_reply is None ==> r == Err::<OverlayWindow, ProtocolError>(
            ProtocolError::OverlayRequestFailed,
        ),
        overlay_reply matches Some(id) ==> {
            &&& redirect_ok && (id == 0 || id == root) ==> r == Err::<OverlayWindow, ProtocolError>(
                ProtocolError::OverlayInvalid,
            )
            &&& redirect_ok && id != 0 && id != root ==> r == Ok::<OverlayWindow, ProtocolError>(
                OverlayWindow { id },
            )
        },
{
    if !redirect_ok {
        return Err(ProtocolError::RedirectFailed);
    }
    match overlay_reply {
        None => Err(ProtocolError::OverlayRequestFailed),
        Some(id) => {
            if id == 0 || id == root {
                Err(ProtocolError::OverlayInvalid)
            } else {
                Ok(OverlayWindow { id })
            }
        },
    }
}

/// One windowing-protocol request of the input-shape step.
#[derive(Clone, Copy, PartialEq, Eq, Structural, Debug)]
pub enum ShapeRequest {
    /// Create region `region` from an empty rectangle list.
    CreateEmptyRegion { region: u32 },
    /// Install `region` as the input-shape region of `window`.
    SetInputShapeRegion { window: u32, region: u32 },
    /// Destroy `region`.
    DestroyRegion { region: u32 },
}

/// The requests that make the overlay transparent to input: create an empty
/// region, install it as the overlay's input shape, and destroy it again.
/// The region is transient — created and destroyed within this one step.
pub fn input_shape_requests(overlay: OverlayWindow, region: u32) -> (r: Vec<ShapeRequest>)
    ensures
        r@ == seq![
            ShapeRequest::CreateEmptyRegion { region },
            ShapeRequest::SetInputShapeRegion { window: overlay.id, region },
            ShapeRequest::DestroyRegion { region },
        ],
{
    let mut r: Vec<ShapeRequest> = Vec::new();
    r.push(ShapeRequest::CreateEmptyRegion { region });
    r.push(ShapeRequest::SetInputShapeRegion { window: overlay.id, region });
    r.push(ShapeRequest::DestroyRegion { region });
    proof {
        assert(r@ =~= seq![
            ShapeRequest::CreateEmptyRegion { region },
            ShapeRequest::SetInputShapeRegion { window: overlay.id, region },
            ShapeRequest::DestroyRegion { region },
        ]);
    }
    r
}

/// Classify the outcome of the input-shape step: a failure is non-fatal to
/// compositing and is surfaced as a warning-level error, never propagated.
pub fn shape_step_outcome(ok: bool) -> (r: Option<ProtocolError>)
    ensures
        ok <==> r is None,
        !ok ==> r == Some(ProtocolError::ShapeFailed),
{
    if ok {
        None
    } else {
        Some(ProtocolError::ShapeFailed)
    }
}

/// One teardown request.
#[derive(Clone, Copy, PartialEq, Eq, Structural, Debug)]
pub enum TeardownRequest {
    /// Un-redirect the subwindows of `root`, in the given mode.
    UnredirectSubwindows { root: u32, mode: RedirectMode },
    /// Release the overlay window back to the server.
    ReleaseOverlayWindow { overlay: u32 },
}

/// Guards teardown so the un-redirect and overlay-release requests are
/// issued exactly once per compositor instance, however often teardown is
/// triggered.
pub struct TeardownGuard {
    pub root: u32,
    pub overlay: u32,
    pub released: bool,
}

impl TeardownGuard {
    /// The two requests teardown owes the server, in order.
    pub open spec fn release_plan(self) -> Seq<TeardownRequest> {
        seq![
            TeardownRequest::UnredirectSubwindows { root: self.root, mode: RedirectMode::Automatic },
            TeardownRequest::ReleaseOverlayWindow { overlay: self.overlay },
        ]
    }

    /// One teardown trigger at the specification level: the guard becomes
    /// released, and the plan is handed out only the first time.
    pub open spec fn release_spec(self) -> (TeardownGuard, Seq<TeardownRequest>) {
        (
            TeardownGuard { released: true, ..self },
            if self.released {
                Seq::empty()
            } else {
                self.release_plan()
            },
        )
    }

    pub fn new(root: u32, overlay: OverlayWindow) -> (g: TeardownGuard)
        ensures
            g.root == root,
            g.overlay == overlay.id,
            !g.released,
    {
        TeardownGuard { root, overlay: overlay.id, released: false }
    }

    /// The requests to issue for this teardown trigger: the full plan on
    /// the first trigger, nothing on every later one.
    pub fn release(&mut self) -> (r: Vec<TeardownRequest>)
        ensures
            (*final(self), r@) == old(self).release_spec(),
            final(self).released,
            !old(self).released ==> r@ == old(self).release_plan(),
            old(self).released ==> r@ == Seq::<TeardownRequest>::empty(),
    {
        let mut r: Vec<TeardownRequest> = Vec::new();
        if !self.released {
            r.push(TeardownRequest::UnredirectSubwindows {
                root: self.root,
                mode: RedirectMode::Automatic,
            });
            r.push(TeardownRequest::ReleaseOverlayWindow { overlay: self.overlay });
        }
        self.released = true;
        proof {
            if !old(self).released {
                assert(r@ =~= old(self).release_plan());
            } else {
                assert(r@ =~= Seq::<TeardownRequest>::empty());
            }
        }
        r
    }
}

/// All requests issued across `n` consecutive teardown triggers starting
/// from `g`.
pub open spec fn requests_after_triggers(g: TeardownGuard, n: nat) -> Seq<TeardownRequest>
    decreases n,
{
    if n == 0 {
        Seq::empty()
    } else {
        g.release_spec().1 + requests_after_triggers(g.release_spec().0, (n - 1) as nat)
    }
}

/// A released guard issues nothing, however often teardown is triggered
/// again.
pub proof fn lemma_released_guard_is_quiet(g: TeardownGuard, n: nat)
    requires
        g.released,
    ensures
        requests_after_triggers(g, n) == Seq::<TeardownRequest>::empty(),
    decreases n,
{
    if n == 0 {
        assert(requests_after_triggers(g, n) =~= Seq::<TeardownRequest>::empty());
    } else {
        lemma_released_guard_is_quiet(g.release_spec().0, (n - 1) as nat);
        assert(requests_after_triggers(g, n) =~= Seq::<TeardownRequest>::empty());
    }
}

/// Law: across any positive number of teardown triggers, a fresh guard
/// issues exactly one un-redirect request and exactly one overlay-release
/// request — the plan once, and nothing more.
pub proof fn lemma_teardown_idempotent(g: TeardownGuard, n: nat)
    requires
        !g.released,
        n >= 1,
    ensures
        requests_after_triggers(g, n) == g.release_plan(),
{
    lemma_released_guard_is_quiet(g.release_spec().0, (n - 1) as nat);
    assert(requests_after_triggers(g, n) =~= g.release_plan());
}

} // verus!
