//! The closed set of protocol events the loop observes, and how each kind
//! is dispatched to the log.

use vstd::prelude::*;

verus! {

/// Kinds of events the display server emits, as the loop distinguishes
/// them. An event the protocol layer could not decode arrives as
/// `Unknown`; a decoded kind this design does not react to arrives as
/// `Unhandled`.
#[derive(Clone, Copy, PartialEq, Eq, Structural, Debug)]
pub enum EventKind {
    ButtonPress,
    KeyPress,
    KeyRelease,
    EnterNotify,
    LeaveNotify,
    FocusIn,
    FocusOut,
    CreateNotify,
    DestroyNotify,
    MapNotify,
    MapRequest,
    MappingNotify,
    PropertyNotify,
    ReparentNotify,
    UnmapNotify,
    VisibilityNotify,
    /// A window's pixel contents changed (damage extension); observed but
    /// not yet acted on for redraw scheduling.
    DamageNotify,
    /// A protocol-level error delivered as an event.
    Error,
    /// An event the protocol layer could not decode.
    Unknown,
    /// A decoded event kind this design does not handle.
    Unhandled,
}

/// The level an event is logged at.
#[derive(Clone, Copy, PartialEq, Eq, Structural, Debug)]
pub enum LogLevel {
    Info,
    Warning,
}

impl EventKind {
    /// Dispatch level: protocol errors and unrecognized events are
    /// warnings; lifecycle, input and damage notifications are
    /// informational.
    pub open spec fn severity_spec(self) -> LogLevel {
        match self {
            EventKind::Error => LogLevel::Warning,
            EventKind::Unknown => LogLevel::Warning,
            EventKind::Unhandled => LogLevel::Warning,
            _ => LogLevel::Info,
        }
    }

    /// The level to log this event at.
    pub fn severity(&self) -> (r: LogLevel)
        ensures
            r == self.severity_spec(),
            r is Warning <==> (self is Error || self is Unknown || self is Unhandled),
    {
        match self {
            EventKind::Error => LogLevel::Warning,
            EventKind::Unknown => LogLevel::Warning,
            EventKind::Unhandled => LogLevel::Warning,
            _ => LogLevel::Info,
        }
    }
}

} // verus!
