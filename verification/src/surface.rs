//! GPU surface bridge: choosing a color format and alpha mode from the
//! surface's reported capabilities, building the configuration record,
//! reconfiguring on resize, and deciding one render attempt.
//!
//! The unverified shell owns the real instance/surface/adapter/device
//! objects; it reports what the platform offered as plain values and
//! carries the decisions made here back to the GPU layer.

use vstd::prelude::*;

use crate::errors::RenderError;
use crate::errors::SurfaceError;
use crate::overlay::OverlayWindow;

verus! {

/// The largest screen index representable in the native display handle,
/// whose screen field is a signed 32-bit integer.
pub const MAX_SCREEN_INDEX: usize = 0x7fff_ffff;

/// Frames the presentation queue may buffer (the platform default).
pub const MAX_FRAME_LATENCY: u32 = 2;

/// Presentation mode. The bridge always configures first-in-first-out
/// presentation, the vsync-equivalent mode every platform supports.
#[derive(Clone, Copy, PartialEq, Eq, Structural, Debug)]
pub enum PresentMode {
    Fifo,
    FifoRelaxed,
    Immediate,
    Mailbox,
}

/// Texture usage the surface is configured with; this bridge only ever
/// renders into the surface.
#[derive(Clone, Copy, PartialEq, Eq, Structural, Debug)]
pub enum SurfaceUsage {
    RenderAttachment,
}

/// What the surface reported it supports. `format_srgb[i]` says whether
/// the `i`-th reported color format lies in the sRGB color space;
/// `alpha_mode_count` is the number of reported alpha compositing modes.
/// Indices refer to the platform's reported lists, which the shell keeps.
pub struct SurfaceCaps {
    pub format_srgb: Vec<bool>,
    pub alpha_mode_count: usize,
}

/// The surface configuration record, applied at creation and re-applied on
/// every resize.
#[derive(Clone, Copy, PartialEq, Eq, Structural, Debug)]
pub struct SurfaceConfig {
    pub usage: SurfaceUsage,
    /// Index of the chosen color format in the reported format list.
    pub format_index: usize,
    /// Whether the chosen format is in the sRGB color space.
    pub format_srgb: bool,
    /// Index of the chosen alpha compositing mode in the reported list.
    pub alpha_mode_index: usize,
    pub width: u32,
    pub height: u32,
    pub present_mode: PresentMode,
    /// Highest number of frames the presentation queue may buffer.
    pub max_frame_latency: u32,
}

/// The verified face of the GPU surface binding: the configuration record
/// plus identity tokens for the adapter and logical device the shell
/// selected. Resize must leave both identities untouched — the surface is
/// reconfigured, never recreated.
#[derive(Clone, Copy, PartialEq, Eq, Structural, Debug)]
pub struct GpuSurfaceContext {
    pub config: SurfaceConfig,
    /// Identity of the selected physical adapter.
    pub adapter_id: u64,
    /// Identity of the selected logical device.
    pub device_id: u64,
}

/// Whether `i` is the index `select_format` owes for the reported sRGB
/// flags: the first sRGB format if one exists, the first format otherwise.
pub open spec fn chosen_format_ok(srgb: Seq<bool>, i: int) -> bool {
    &&& 0 <= i < srgb.len()
    &&& if exists|j: int| 0 <= j < srgb.len() && srgb[j] {
        srgb[i] && (forall|j: int| 0 <= j < i ==> !srgb[j])
    } else {
        i == 0
    }
}

/// Choose the color format: the first reported format in the sRGB color
/// space, falling back to the first reported format when none is sRGB.
/// Only an empty capability list leaves nothing to choose.
pub fn select_format(format_srgb: &Vec<bool>) -> (r: Option<usize>)
    ensures
        r is None <==> format_srgb@.len() == 0,
        r matches Some(i) ==> chosen_format_ok(format_srgb@, i as int),
{
    let mut i: usize = 0;
    while i < format_srgb.len()
        invariant
            0 <= i <= format_srgb@.len(),
            forall|j: int| 0 <= j < i ==> !format_srgb@[j],
        decreases format_srgb@.len() - i,
    {
        if format_srgb[i] {
            return Some(i);
        }
        i += 1;
    }
    if format_srgb.len() > 0 {
        Some(0)
    } else {
        None
    }
}

/// Choose the alpha compositing mode: the first reported one. Only an
/// empty capability list leaves nothing to choose.
pub fn select_alpha_mode(alpha_mode_count: usize) -> (r: Option<usize>)
    ensures
        r is None <==> alpha_mode_count == 0,
        alpha_mode_count > 0 ==> r == Some(0usize),
{
    if alpha_mode_count > 0 {
        Some(0)
    } else {
        None
    }
}

/// Whether every platform round trip needed for surface construction came
/// back usable.
pub open spec fn create_inputs_ok(
    overlay: OverlayWindow,
    screen_index: usize,
    adapter: Option<u64>,
    device: Option<u64>,
    format_srgb: Seq<bool>,
    alpha_mode_count: usize,
) -> bool {
    &&& screen_index <= MAX_SCREEN_INDEX
    &&& overlay.id != 0
    &&& adapter is Some
    &&& device is Some
    &&& format_srgb.len() > 0
    &&& alpha_mode_count > 0
}

/// Build the surface context from the overlay window, the screen, and what
/// the platform reported: the adapter and device identities (if the
/// respective requests succeeded) and the surface capabilities. Success is
/// owed exactly when every input is usable; each failure is fatal to
/// compositor startup and names its cause. On success the configuration
/// record has the screen's exact dimensions, the first-sRGB-or-first
/// format, the first alpha mode, first-in-first-out presentation,
/// render-attachment usage, and the default frame latency.
pub fn create_surface(
    overlay: OverlayWindow,
    screen_index: usize,
    screen_size: (u16, u16),
    adapter: Option<u64>,
    device: Option<u64>,
    caps: &SurfaceCaps,
) -> (r: Result<GpuSurfaceContext, SurfaceError>)
    ensures
        r is Ok <==> create_inputs_ok(
            overlay,
            screen_index,
            adapter,
            device,
            caps.format_srgb@,
            caps.alpha_mode_count,
        ),
        screen_index > MAX_SCREEN_INDEX ==> r == Err::<GpuSurfaceContext, SurfaceError>(
            SurfaceError::ScreenIndexTooLarge,
        ),
        screen_index <= MAX_SCREEN_INDEX && overlay.id == 0 ==> r == Err::<
            GpuSurfaceContext,
            SurfaceError,
        >(SurfaceError::WindowIdInvalid),
        screen_index <= MAX_SCREEN_INDEX && overlay.id != 0 && adapter is None ==> r == Err::<
            GpuSurfaceContext,
            SurfaceError,
        >(SurfaceError::NoAdapter),
        screen_index <= MAX_SCREEN_INDEX && overlay.id != 0 && adapter is Some && device is None
            ==> r == Err::<GpuSurfaceContext, SurfaceError>(SurfaceError::DeviceRequestFailed),
        screen_index <= MAX_SCREEN_INDEX && overlay.id != 0 && adapter is Some && device is Some
            && caps.format_srgb@.len() == 0 ==> r == Err::<GpuSurfaceContext, SurfaceError>(
            SurfaceError::NoFormat,
        ),
        screen_index <= MAX_SCREEN_INDEX && overlay.id != 0 && adapter is Some && device is Some
            && caps.format_srgb@.len() > 0 && caps.alpha_mode_count == 0 ==> r == Err::<
            GpuSurfaceContext,
            SurfaceError,
        >(SurfaceError::NoAlphaMode),
        r matches Ok(ctx) ==> {
            &&& chosen_format_ok(caps.format_srgb@, ctx.config.format_index as int)
            &&& ctx.config.format_srgb == caps.format_srgb@[ctx.config.format_index as int]
            &&& ctx.config.alpha_mode_index == 0
            &&& ctx.config.width == screen_size.0 as u32
            &&& ctx.config.height == screen_size.1 as u32
            &&& ctx.config.present_mode is Fifo
            &&& ctx.config.usage is RenderAttachment
            &&& ctx.config.max_frame_latency == MAX_FRAME_LATENCY
            &&& Some(ctx.adapter_id) == adapter
            &&& Some(ctx.device_id) == device
        },
{
    if screen_index > MAX_SCREEN_INDEX {
        return Err(SurfaceError::ScreenIndexTooLarge);
    }
    if overlay.id == 0 {
        return Err(SurfaceError::WindowIdInvalid);
    }
    let adapter_id = match adapter {
        None => {
            return Err(SurfaceError::NoAdapter);
        },
        Some(a) => a,
    };
    let device_id = match device {
        None => {
            return Err(SurfaceError::DeviceRequestFailed);
        },
        Some(d) => d,
    };
    let format_index = match select_format(&caps.format_srgb) {
        None => {
            return Err(SurfaceError::NoFormat);
        },
        Some(i) => i,
    };
    let alpha_mode_index = match select_alpha_mode(caps.alpha_mode_count) {
        None => {
            return Err(SurfaceError::NoAlphaMode);
        },
        Some(i) => i,
    };
    let config = SurfaceConfig {
        usage: SurfaceUsage::RenderAttachment,
        format_index,
        format_srgb: caps.format_srgb[format_index],
        alpha_mode_index,
        width: screen_size.0 as u32,
        height: screen_size.1 as u32,
        present_mode: PresentMode::Fifo,
        max_frame_latency: MAX_FRAME_LATENCY,
    };
    Ok(GpuSurfaceContext { config, adapter_id, device_id })
}

impl GpuSurfaceContext {
    /// `resize` at the specification level: only the configured dimensions
    /// change.
    pub open spec fn resize_spec(self, width: u16, height: u16) -> GpuSurfaceContext {
        GpuSurfaceContext {
            config: SurfaceConfig {
                width: width as u32,
                height: height as u32,
                ..self.config
            },
            ..self
        }
    }

    /// Mutate the configured dimensions; the shell re-applies the record
    /// to the surface. Nothing else changes — in particular the adapter
    /// and device identities, so no recreation can hide behind a resize.
    pub fn resize(&mut self, width: u16, height: u16)
        ensures
            *final(self) == old(self).resize_spec(width, height),
    {
        self.config.width = width as u32;
        self.config.height = height as u32;
    }

    /// Decide one render attempt from the frame-acquisition outcome: an
    /// acquired frame is cleared to the fixed color and presented; any
    /// other outcome means the surface was unavailable for this frame.
    pub fn render(&self, outcome: FrameOutcome) -> (r: Result<ClearPass, RenderError>)
        ensures
            r == render_spec(outcome),
            r is Ok <==> outcome is Acquired,
    {
        match outcome {
            FrameOutcome::Acquired => Ok(clear_pass()),
            _ => Err(RenderError::SurfaceUnavailable),
        }
    }
}

/// Outcome of acquiring the next presentable frame from the surface, as
/// the shell observed it.
#[derive(Clone, Copy, PartialEq, Eq, Structural, Debug)]
pub enum FrameOutcome {
    /// A frame was acquired; recording, submission and presentation follow.
    Acquired,
    /// The platform timed out waiting for a frame.
    Timeout,
    /// The surface no longer matches its configuration.
    Outdated,
    /// The surface was lost.
    Lost,
    /// The platform ran out of memory for the frame.
    OutOfMemory,
}

/// Red channel of the fixed clear color, in thousandths of full scale.
pub const CLEAR_RED_MILLI: u32 = 100;

/// Green channel of the fixed clear color, in thousandths of full scale.
pub const CLEAR_GREEN_MILLI: u32 = 200;

/// Blue channel of the fixed clear color, in thousandths of full scale.
pub const CLEAR_BLUE_MILLI: u32 = 500;

/// Alpha channel of the fixed clear color, in thousandths of full scale.
pub const CLEAR_ALPHA_MILLI: u32 = 1000;

/// The single pass this placeholder renderer records per frame: clear the
/// whole view to a fixed color and store the result. Channel intensities
/// are in thousandths of full scale.
#[derive(Clone, Copy, PartialEq, Eq, Structural, Debug)]
pub struct ClearPass {
    pub red_milli: u32,
    pub green_milli: u32,
    pub blue_milli: u32,
    pub alpha_milli: u32,
}

/// The clear pass every presented frame carries.
pub open spec fn clear_pass_spec() -> ClearPass {
    ClearPass {
        red_milli: CLEAR_RED_MILLI,
        green_milli: CLEAR_GREEN_MILLI,
        blue_milli: CLEAR_BLUE_MILLI,
        alpha_milli: CLEAR_ALPHA_MILLI,
    }
}

/// The clear pass as a value for the shell.
pub fn clear_pass() -> (r: ClearPass)
    ensures
        r == clear_pass_spec(),
{
    ClearPass {
        red_milli: CLEAR_RED_MILLI,
        green_milli: CLEAR_GREEN_MILLI,
        blue_milli: CLEAR_BLUE_MILLI,
        alpha_milli: CLEAR_ALPHA_MILLI,
    }
}

/// One render attempt at the specification level.
pub open spec fn render_spec(outcome: FrameOutcome) -> Result<ClearPass, RenderError> {
    match outcome {
        FrameOutcome::Acquired => Ok(clear_pass_spec()),
        _ => Err(RenderError::SurfaceUnavailable),
    }
}

/// Law: resizing only reconfigures. Afterwards the configuration reports
/// exactly the new dimensions, the adapter and device identities are
/// unchanged, and a render attempt on a valid surface still succeeds with
/// the fixed clear color.
pub proof fn lemma_resize_then_render(ctx: GpuSurfaceContext, width: u16, height: u16)
    ensures
        ctx.resize_spec(width, height).config.width == width as u32,
        ctx.resize_spec(width, height).config.height == height as u32,
        ctx.resize_spec(width, height).adapter_id == ctx.adapter_id,
        ctx.resize_spec(width, height).device_id == ctx.device_id,
        ctx.resize_spec(width, height).config.format_index == ctx.config.format_index,
        ctx.resize_spec(width, height).config.present_mode == ctx.config.present_mode,
        render_spec(FrameOutcome::Acquired) == Ok::<ClearPass, RenderError>(clear_pass_spec()),
{
}

/// Law: while the surface stays valid, repeated render attempts all
/// succeed, each presenting a frame cleared exactly to the configured
/// constant color.
pub proof fn lemma_steady_render(outcomes: Seq<FrameOutcome>)
    requires
        forall|i: int| 0 <= i < outcomes.len() ==> outcomes[i] is Acquired,
    ensures
        forall|i: int|
            0 <= i < outcomes.len() ==> render_spec(outcomes[i]) == Ok::<ClearPass, RenderError>(
                clear_pass_spec(),
            ),
{
}

} // verus!
