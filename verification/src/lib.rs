//! Verified core of a minimal X compositing bridge.
//!
//! The library models the decisions a compositor must make: the fixed order
//! of extension negotiation, validation of the server-provided overlay
//! window, selection and configuration of the GPU surface, the render/event
//! loop policy, and idempotent teardown. The unverified shell drives the
//! display-server connection and the GPU device and feeds plain values into
//! these functions.

mod connect;
mod errors;
mod events;
mod negotiate;
mod overlay;
mod runloop;
mod session;
mod surface;

pub use connect::Screen;
pub use connect::validate_display_name;
pub use errors::ConnectionError;
pub use errors::ProtocolError;
pub use errors::RenderError;
pub use errors::SurfaceError;
pub use events::EventKind;
pub use events::LogLevel;
pub use negotiate::negotiate;
pub use negotiate::Extension;
pub use negotiate::ExtensionVersion;
pub use negotiate::ExtensionVersions;
pub use negotiate::NegotiationStep;
pub use negotiate::Negotiator;
pub use negotiate::CLIENT_QUERY_MAJOR;
pub use negotiate::CLIENT_QUERY_MINOR;
pub use overlay::acquire_overlay;
pub use overlay::input_shape_requests;
pub use overlay::redirect_request;
pub use overlay::shape_step_outcome;
pub use overlay::OverlayWindow;
pub use overlay::RedirectMode;
pub use overlay::RedirectRequest;
pub use overlay::ShapeRequest;
pub use overlay::TeardownGuard;
pub use overlay::TeardownRequest;
pub use runloop::loop_start;
pub use runloop::loop_step;
pub use runloop::LoopAction;
pub use runloop::LoopState;
pub use session::Compositor;
pub use session::Phase;
pub use surface::clear_pass;
pub use surface::create_surface;
pub use surface::select_alpha_mode;
pub use surface::select_format;
pub use surface::ClearPass;
pub use surface::FrameOutcome;
pub use surface::GpuSurfaceContext;
pub use surface::PresentMode;
pub use surface::SurfaceCaps;
pub use surface::SurfaceConfig;
pub use surface::SurfaceUsage;
pub use surface::CLEAR_ALPHA_MILLI;
pub use surface::CLEAR_BLUE_MILLI;
pub use surface::CLEAR_GREEN_MILLI;
pub use surface::CLEAR_RED_MILLI;
pub use surface::MAX_FRAME_LATENCY;
pub use surface::MAX_SCREEN_INDEX;
