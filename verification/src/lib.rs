//! Control core of a capture-session bridge.
//!
//! The library sits between a native screen/window/monitor capture engine and
//! a host application in a foreign managed runtime.  Both collaborators are
//! outside it: the engine drives the capture loop and owns the frame buffers,
//! and the host runtime owns the two callbacks and the process-wide execution
//! lock that must be held around every call into it.  What the library holds,
//! and what is verified, is every decision the bridge makes:
//!
//! * resolving the optional, mutually exclusive configuration fields into
//!   exactly one capture target and one settings set ([`NativeWindowsCapture`]);
//! * the per-frame and one-shot closure protocol of a running session, with
//!   its stop-signal, interrupt and lock discipline ([`session::CaptureSession`]);
//! * the take-once control handle of a detached session
//!   ([`NativeCaptureControl`]).
//!
//! The embedder performs the engine calls and the foreign-runtime calls and
//! feeds their outcomes back as plain values; the state machine here tells it,
//! with a proved contract, what to do next and what the session's terminal
//! result is.

pub mod capture;
pub mod control;
pub mod errors;
pub mod matching;
pub mod session;
pub mod settings;

pub use capture::EngineSnapshot;
pub use capture::NativeWindowsCapture;
pub use capture::ResolvedTarget;
pub use capture::StartCommand;
pub use control::NativeCaptureControl;
pub use errors::ConfigError;
pub use errors::InnerNativeWindowsCaptureError;
pub use errors::JoinError;
pub use errors::StartError;
pub use session::CaptureSession;
pub use settings::CaptureSettings;
pub use settings::CaptureTarget;
