//! Error taxonomy of the compositing bridge.
//!
//! Setup-phase errors (`ConnectionError`, `ProtocolError`, `SurfaceError`)
//! are fatal and bubble to the entry point; `RenderError` is a steady-state
//! condition the loop policy decides how to contain.

use vstd::prelude::*;

verus! {

/// The display server could not be reached, or the requested display name
/// cannot be represented as a null-terminated string.
#[derive(Clone, Copy, PartialEq, Eq, Structural, Debug)]
pub enum ConnectionError {
    /// The display name contains an interior zero byte.
    InvalidDisplayName,
    /// The connection attempt itself failed.
    Unreachable,
}

/// A windowing-protocol request was rejected or an extension is missing.
#[derive(Clone, Copy, PartialEq, Eq, Structural, Debug)]
pub enum ProtocolError {
    /// A queried extension is absent from the server.
    ExtensionUnavailable(crate::negotiate::Extension),
    /// The redirect-subwindows request was rejected.
    RedirectFailed,
    /// The overlay-window request was rejected.
    OverlayRequestFailed,
    /// The server handed back an overlay identifier that is zero or equal
    /// to the root window identifier.
    OverlayInvalid,
    /// The input-shape step failed; non-fatal to compositing, surfaced as
    /// a warning.
    ShapeFailed,
}

/// GPU surface construction failed; fatal to compositor startup.
#[derive(Clone, Copy, PartialEq, Eq, Structural, Debug)]
pub enum SurfaceError {
    /// No compatible physical adapter was found.
    NoAdapter,
    /// The surface reported no color format at all.
    NoFormat,
    /// The surface reported no alpha compositing mode.
    NoAlphaMode,
    /// The platform rejected the logical-device request.
    DeviceRequestFailed,
    /// The window identifier cannot be converted into the native handle
    /// width (a zero identifier has no nonzero native form).
    WindowIdInvalid,
    /// The screen index does not fit the native handle's integer width.
    ScreenIndexTooLarge,
}

/// A frame could not be presented; the loop policy decides whether this is
/// fatal.
#[derive(Clone, Copy, PartialEq, Eq, Structural, Debug)]
pub enum RenderError {
    /// The surface is lost or outdated at present time.
    SurfaceUnavailable,
}

impl ConnectionError {
    /// A diagnostic message for the entry point.
    pub fn message(&self) -> String {
        match self {
            ConnectionError::InvalidDisplayName => {
                "display name contains an interior zero byte".to_string()
            },
            ConnectionError::Unreachable => "cannot reach the display server".to_string(),
        }
    }
}

impl ProtocolError {
    /// A diagnostic message for the entry point.
    pub fn message(&self) -> String {
        match self {
            ProtocolError::ExtensionUnavailable(_) => {
                "a required protocol extension is absent".to_string()
            },
            ProtocolError::RedirectFailed => "subwindow redirection was rejected".to_string(),
            ProtocolError::OverlayRequestFailed => "overlay window request was rejected".to_string(),
            ProtocolError::OverlayInvalid => {
                "server returned an unusable overlay window identifier".to_string()
            },
            ProtocolError::ShapeFailed => "input-shape region setup failed".to_string(),
        }
    }
}

impl SurfaceError {
    /// A diagnostic message for the entry point.
    pub fn message(&self) -> String {
        match self {
            SurfaceError::NoAdapter => "no compatible adapter found".to_string(),
            SurfaceError::NoFormat => "no surface color format reported".to_string(),
            SurfaceError::NoAlphaMode => "no alpha compositing mode reported".to_string(),
            SurfaceError::DeviceRequestFailed => "device request rejected".to_string(),
            SurfaceError::WindowIdInvalid => "window identifier not representable".to_string(),
            SurfaceError::ScreenIndexTooLarge => "screen index not representable".to_string(),
        }
    }
}

impl RenderError {
    /// A diagnostic message for the log.
    pub fn message(&self) -> String {
        match self {
            RenderError::SurfaceUnavailable => "surface lost or outdated".to_string(),
        }
    }
}

} // verus!
