//! Error taxonomy of the bridge.
//!
//! Configuration errors are returned synchronously and never start a
//! session.  Once a session runs, a fatal error aborts its loop, the closure
//! notification still fires exactly once, and the error is reported as the
//! terminal result of the session — read back by whoever joins it.

use vstd::prelude::*;

verus! {

/// More than one of the mutually exclusive target fields (handle, name,
/// monitor index) was supplied at construction.
#[derive(Clone, Copy, Debug, PartialEq, Eq, Structural)]
pub enum ConfigError {
    AmbiguousTarget,
}

/// The requested target could not be resolved against what the engine
/// enumerates at session start: the name substring matched no window title,
/// or the monitor index was out of the enumerated range.
#[derive(Clone, Copy, Debug, PartialEq, Eq, Structural)]
pub enum StartError {
    TargetNotFound,
}

/// A fatal, session-ending error of a running session.  The message fields
/// carry the foreign collaborator's own description of the failure.
#[derive(Clone, Debug, PartialEq, Eq)]
pub enum InnerNativeWindowsCaptureError {
    /// The engine failed to initialize capture resources after the session
    /// was launched.
    SessionStartError(String),
    /// An external interrupt was observed at a frame-delivery poll point;
    /// the frame callback is not invoked for that delivery.
    InterruptError,
    /// The frame or closed callback failed on the foreign side.
    CallbackError(String),
    /// The engine could not hand out the frame's buffer.
    FrameProcessError(String),
}

/// The error surfaced by `wait`/`stop` on a control handle, wrapping
/// whichever fatal error ended the session.
#[derive(Clone, Debug, PartialEq, Eq)]
pub struct JoinError {
    pub cause: InnerNativeWindowsCaptureError,
}

} // verus!
