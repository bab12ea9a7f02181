//! The capture session's frame bridge, closure bridge and lifecycle.
//!
//! The engine loop and the foreign runtime are both outside the library, so
//! a running session is modelled as a state machine: the embedder reports
//! each engine event together with the outcome of the foreign call it was
//! told to make, and the machine decides, under a proved contract, what
//! happens next.  One frame delivery is two steps.  [`CaptureSession::begin_frame`]
//! stands for the point where the execution lock has just been acquired and
//! the pending-interrupt check has run: it either refuses the delivery
//! (interrupt pending — fatal, no callback call) or tells the embedder
//! exactly which arguments to pass to the frame callback, with a fresh stop
//! signal initialized to false.  [`CaptureSession::finish_frame`] takes what came back
//! from the callback — a failure, or the stop signal's final value — and
//! releases the lock.  The closure bridge is one step,
//! [`CaptureSession::close`], enabled exactly once, after all frame
//! deliveries.
//!
//! Error precedence: the first fatal error wins.  A failure of the closed
//! callback becomes the terminal error only when no earlier fatal error was
//! recorded.

use vstd::prelude::*;

use crate::errors::InnerNativeWindowsCaptureError;
use crate::errors::JoinError;

verus! {

/// What one captured frame looks like to the bridge: plain metadata and the
/// address and byte length of the engine-owned pixel buffer.  The buffer is
/// a transient view in fixed 32-bit BGRA layout, tightly packed; it is valid
/// only for the single delivery it belongs to and is never retained — the
/// session state deliberately has no field that could hold it.
#[derive(Clone, Copy, Debug, PartialEq, Eq, Structural)]
pub struct FrameMeta {
    /// Address of the first byte of the frame buffer.
    pub addr: usize,
    /// Byte length of the frame buffer.
    pub len: usize,
    /// Frame width in pixels.
    pub width: u32,
    /// Frame height in pixels.
    pub height: u32,
    /// Engine-relative monotonic timestamp, not wall-clock.
    pub timestamp: i64,
}

impl FrameMeta {
    /// Tightly packed 32-bit BGRA: four bytes per pixel, no stride.
    pub open spec fn wf(self) -> bool {
        self.len as int == self.width as int * self.height as int * 4
    }
}

/// The exact positional arguments the embedder must pass to the frame
/// callback, in order: buffer address, buffer length, width, height, the
/// stop signal's initial value, timestamp.
#[derive(Clone, Copy, Debug, PartialEq, Eq, Structural)]
pub struct FrameCall {
    pub addr: usize,
    pub len: usize,
    pub width: u32,
    pub height: u32,
    /// Initial value of the fresh single-slot stop signal handed to the
    /// callback.  Always false: the signal is created anew for every
    /// delivery and never persists across frames.
    pub stop_initial: bool,
    pub timestamp: i64,
}

/// The arguments that deliver a given frame.
pub open spec fn frame_call_of(frame: FrameMeta) -> FrameCall {
    FrameCall {
        addr: frame.addr,
        len: frame.len,
        width: frame.width,
        height: frame.height,
        stop_initial: false,
        timestamp: frame.timestamp,
    }
}

/// What the bridge decides at the start of one frame delivery.
#[derive(Clone, Copy, Debug, PartialEq, Eq, Structural)]
pub enum FrameDecision {
    /// Invoke the frame callback with exactly these arguments, then report
    /// the outcome through [`CaptureSession::finish_frame`].
    Deliver(FrameCall),
    /// A pending external interrupt was observed: the callback is not
    /// invoked, the lock is released, and the session is ending fatally.
    Interrupted,
}

/// The decision [`CaptureSession::begin_frame`] returns.
pub open spec fn frame_decision_of(frame: FrameMeta, interrupt_pending: bool) -> FrameDecision {
    if interrupt_pending {
        FrameDecision::Interrupted
    } else {
        FrameDecision::Deliver(frame_call_of(frame))
    }
}

/// What came back from one frame-callback invocation.
#[derive(Clone, Debug, PartialEq, Eq)]
pub enum CallbackOutcome {
    /// The callback returned; `stop` is the final value of the per-delivery
    /// stop signal, read once right after the call.
    Returned { stop: bool },
    /// The invocation failed on the foreign side.
    Failed(String),
}

/// What came back from the one closed-callback invocation.
#[derive(Clone, Debug, PartialEq, Eq)]
pub enum ClosedOutcome {
    Returned,
    Failed(String),
}

/// Where a session stands between embedder steps.
#[derive(Clone, Copy, Debug, PartialEq, Eq, Structural)]
pub enum SessionPhase {
    /// Live, between engine callbacks; the execution lock is not held.
    Idle,
    /// A frame delivery is in flight: the lock is held and the frame
    /// callback is being invoked.
    Delivering,
    /// The stop signal was honoured: the engine loop ends after this point;
    /// only the closure notification is still owed.  A normal termination.
    Stopping,
    /// A fatal error was recorded; only the closure notification is still
    /// owed.
    Failing,
    /// The session is over; nothing further is accepted.
    Ended,
}

/// One capture session.  All fields are plain values; the embedder may read
/// them, but only the step methods may change them.
#[derive(Clone, Debug, PartialEq, Eq)]
pub struct CaptureSession {
    pub phase: SessionPhase,
    /// The first fatal error recorded, if any.
    pub fatal: Option<InnerNativeWindowsCaptureError>,
    /// Number of frame-callback invocations so far (saturating).
    pub frames_delivered: u64,
    /// Whether the closed callback has been invoked.
    pub closed_fired: bool,
}

/// A saturating increment, for the delivery counter.
pub open spec fn saturating_inc(count: u64) -> u64 {
    if count == u64::MAX {
        count
    } else {
        (count + 1) as u64
    }
}

/// The session after the lock-and-interrupt step of one frame delivery.
pub open spec fn spec_begin_frame(s: CaptureSession, interrupt_pending: bool) -> CaptureSession {
    if interrupt_pending {
        CaptureSession {
            phase: SessionPhase::Failing,
            fatal: Some(InnerNativeWindowsCaptureError::InterruptError),
            ..s
        }
    } else {
        CaptureSession { phase: SessionPhase::Delivering, ..s }
    }
}

/// The session after the frame callback's outcome is taken in and the lock
/// is released.
pub open spec fn spec_finish_frame(s: CaptureSession, outcome: CallbackOutcome) -> CaptureSession {
    let counted = CaptureSession { frames_delivered: saturating_inc(s.frames_delivered), ..s };
    match outcome {
        CallbackOutcome::Failed(message) => CaptureSession {
            phase: SessionPhase::Failing,
            fatal: Some(InnerNativeWindowsCaptureError::CallbackError(message)),
            ..counted
        },
        CallbackOutcome::Returned { stop } => if stop {
            CaptureSession { phase: SessionPhase::Stopping, ..counted }
        } else {
            CaptureSession { phase: SessionPhase::Idle, ..counted }
        },
    }
}

/// The session after the engine reports that the frame's buffer could not
/// be obtained.
pub open spec fn spec_frame_buffer_failed(s: CaptureSession, message: String) -> CaptureSession {
    CaptureSession {
        phase: SessionPhase::Failing,
        fatal: Some(InnerNativeWindowsCaptureError::FrameProcessError(message)),
        ..s
    }
}

/// The session after an external cooperative-stop request, observed at a
/// frame boundary.
pub open spec fn spec_request_stop(s: CaptureSession) -> CaptureSession {
    if s.phase is Idle {
        CaptureSession { phase: SessionPhase::Stopping, ..s }
    } else {
        s
    }
}

/// The session after the one-shot closure notification.  The first fatal
/// error wins: a failure of the closed callback itself becomes the terminal
/// error only when none was recorded before.
pub open spec fn spec_close(s: CaptureSession, outcome: ClosedOutcome) -> CaptureSession {
    let fatal = if s.fatal is Some {
        s.fatal
    } else {
        match outcome {
            ClosedOutcome::Returned => None,
            ClosedOutcome::Failed(message) => Some(
                InnerNativeWindowsCaptureError::CallbackError(message),
            ),
        }
    };
    CaptureSession { phase: SessionPhase::Ended, fatal, closed_fired: true, ..s }
}

/// The session after the engine failed to initialize on the session thread,
/// before any frame: terminal at once, with the failure preserved for
/// whoever joins the session.
pub open spec fn spec_start_failed(s: CaptureSession, message: String) -> CaptureSession {
    CaptureSession {
        phase: SessionPhase::Ended,
        fatal: Some(InnerNativeWindowsCaptureError::SessionStartError(message)),
        ..s
    }
}

/// The terminal result a joiner observes: success, or the fatal error that
/// ended the session wrapped in a [`JoinError`].
pub open spec fn spec_join_result(s: CaptureSession) -> Result<(), JoinError> {
    match s.fatal {
        Some(cause) => Err(JoinError { cause }),
        None => Ok(()),
    }
}

impl CaptureSession {
    /// Internal consistency of a session value.
    pub open spec fn wf(self) -> bool {
        &&& (self.phase is Failing ==> self.fatal is Some)
        &&& (self.fatal is Some ==> self.phase is Failing || self.phase is Ended)
        &&& (self.closed_fired ==> self.phase is Ended)
        &&& (self.phase is Ended ==> self.closed_fired || self.fatal matches Some(
            InnerNativeWindowsCaptureError::SessionStartError(_),
        ))
    }

    /// The state every session starts in.
    pub open spec fn initial() -> CaptureSession {
        CaptureSession {
            phase: SessionPhase::Idle,
            fatal: None,
            frames_delivered: 0,
            closed_fired: false,
        }
    }

    /// The session is over.
    pub open spec fn ended(self) -> bool {
        self.phase is Ended
    }

    /// A new frame delivery may begin.  False as soon as a stop was
    /// honoured or a fatal error was recorded: no further frame deliveries
    /// occur after either.
    pub open spec fn accepts_frames(self) -> bool {
        self.phase is Idle
    }

    /// The one-shot closure notification is still owed and may fire now.
    pub open spec fn can_close(self) -> bool {
        self.phase is Idle || self.phase is Stopping || self.phase is Failing
    }

    /// The foreign runtime's execution lock is held by the session thread.
    /// It is held exactly while a callback invocation is in flight.
    pub open spec fn lock_held(self) -> bool {
        self.phase is Delivering
    }

    /// A fresh session, about to enter the engine loop.
    pub fn new() -> (session: Self)
        ensures
            session == CaptureSession::initial(),
            session.wf(),
    {
        CaptureSession {
            phase: SessionPhase::Idle,
            fatal: None,
            frames_delivered: 0,
            closed_fired: false,
        }
    }

    /// The session is over.
    pub fn is_ended(&self) -> (ended: bool)
        ensures
            ended == self.ended(),
    {
        match self.phase {
            SessionPhase::Ended => true,
            _ => false,
        }
    }

    /// Number of frame-callback invocations so far.
    pub fn frame_count(&self) -> (count: u64)
        ensures
            count == self.frames_delivered,
    {
        self.frames_delivered
    }

    /// First half of one frame delivery: the engine has handed over a
    /// frame, the bridge has taken its metadata and buffer view, acquired
    /// the execution lock and polled for a pending external interrupt.  If one
    /// is pending the delivery is refused — fatal, and the frame callback
    /// is not invoked.  Otherwise the returned decision carries the exact
    /// callback arguments, with a fresh stop signal initialized to false,
    /// and the lock stays held until [`CaptureSession::finish_frame`].
    pub fn begin_frame(&mut self, frame: &FrameMeta, interrupt_pending: bool) -> (decision:
        FrameDecision)
        requires
            old(self).wf(),
            old(self).accepts_frames(),
            frame.wf(),
        ensures
            final(self).wf(),
            *final(self) == spec_begin_frame(*old(self), interrupt_pending),
            decision == frame_decision_of(*frame, interrupt_pending),
            interrupt_pending ==> !final(self).lock_held() && final(self).fatal == Some(
                InnerNativeWindowsCaptureError::InterruptError,
            ),
            !interrupt_pending ==> final(self).lock_held(),
            final(self).frames_delivered == old(self).frames_delivered,
            !final(self).ended(),
    {
        if interrupt_pending {
            self.phase = SessionPhase::Failing;
            self.fatal = Some(InnerNativeWindowsCaptureError::InterruptError);
            FrameDecision::Interrupted
        } else {
            self.phase = SessionPhase::Delivering;
            FrameDecision::Deliver(
                FrameCall {
                    addr: frame.addr,
                    len: frame.len,
                    width: frame.width,
                    height: frame.height,
                    stop_initial: false,
                    timestamp: frame.timestamp,
                },
            )
        }
    }

    /// Second half of one frame delivery: the frame callback's outcome is
    /// taken in and the execution lock is released.  A failure is fatal.
    /// A stop signal read back true ends the engine loop after this point —
    /// a normal, successful termination, never an error.
    pub fn finish_frame(&mut self, outcome: CallbackOutcome)
        requires
            old(self).wf(),
            old(self).lock_held(),
        ensures
            final(self).wf(),
            *final(self) == spec_finish_frame(*old(self), outcome),
            !final(self).lock_held(),
            final(self).frames_delivered == saturating_inc(old(self).frames_delivered),
            outcome matches CallbackOutcome::Failed(message) ==> !final(self).accepts_frames()
                && final(self).fatal == Some(
                InnerNativeWindowsCaptureError::CallbackError(message),
            ),
            outcome matches CallbackOutcome::Returned { stop } ==> final(self).fatal is None && (
            if stop {
                !final(self).accepts_frames() && final(self).can_close()
            } else {
                final(self).accepts_frames()
            }),
            !final(self).ended(),
    {
        if self.frames_delivered < u64::MAX {
            self.frames_delivered = self.frames_delivered + 1;
        }
        match outcome {
            CallbackOutcome::Failed(message) => {
                self.phase = SessionPhase::Failing;
                self.fatal = Some(InnerNativeWindowsCaptureError::CallbackError(message));
            },
            CallbackOutcome::Returned { stop } => {
                if stop {
                    self.phase = SessionPhase::Stopping;
                } else {
                    self.phase = SessionPhase::Idle;
                }
            },
        }
    }

    /// The engine could not hand out the frame's buffer: fatal, before the
    /// lock is acquired; the frame callback is not invoked.
    pub fn frame_buffer_failed(&mut self, message: String)
        requires
            old(self).wf(),
            old(self).accepts_frames(),
        ensures
            final(self).wf(),
            *final(self) == spec_frame_buffer_failed(*old(self), message),
            !final(self).accepts_frames(),
            final(self).can_close(),
            final(self).fatal == Some(InnerNativeWindowsCaptureError::FrameProcessError(message)),
    {
        self.phase = SessionPhase::Failing;
        self.fatal = Some(InnerNativeWindowsCaptureError::FrameProcessError(message));
    }

    /// An external cooperative-stop request, polled at a frame boundary
    /// (never while a delivery is in flight).  On a live session the engine
    /// loop ends after this point; on a session already stopping or over it
    /// changes nothing.
    pub fn request_stop(&mut self)
        requires
            old(self).wf(),
            !old(self).lock_held(),
        ensures
            final(self).wf(),
            *final(self) == spec_request_stop(*old(self)),
            !final(self).accepts_frames(),
            old(self).phase is Idle ==> final(self).phase is Stopping,
            !(old(self).phase is Idle) ==> *final(self) == *old(self),
    {
        match self.phase {
            SessionPhase::Idle => {
                self.phase = SessionPhase::Stopping;
            },
            _ => {},
        }
    }

    /// The one-shot closure notification: the engine reports that the
    /// session ended (naturally, by stop, or after a fatal error); the
    /// bridge acquired the lock, invoked the closed callback with no
    /// arguments, and released the lock.  Enabled exactly once — it
    /// happens after every frame delivery, and afterwards nothing is
    /// enabled any more.  The first fatal error wins: an earlier fatal
    /// error is preserved; a failure of the closed callback itself becomes
    /// the terminal error only when none was recorded before.
    pub fn close(&mut self, outcome: ClosedOutcome)
        requires
            old(self).wf(),
            old(self).can_close(),
        ensures
            final(self).wf(),
            *final(self) == spec_close(*old(self), outcome),
            final(self).ended(),
            final(self).closed_fired,
            !final(self).can_close(),
            !final(self).accepts_frames(),
            final(self).frames_delivered == old(self).frames_delivered,
            old(self).fatal is Some ==> final(self).fatal == old(self).fatal,
            old(self).fatal is None ==> final(self).fatal == (match outcome {
                ClosedOutcome::Returned => None::<InnerNativeWindowsCaptureError>,
                ClosedOutcome::Failed(message) => Some(
                    InnerNativeWindowsCaptureError::CallbackError(message),
                ),
            }),
    {
        if self.fatal.is_none() {
            match outcome {
                ClosedOutcome::Returned => {},
                ClosedOutcome::Failed(message) => {
                    self.fatal = Some(InnerNativeWindowsCaptureError::CallbackError(message));
                },
            }
        }
        self.phase = SessionPhase::Ended;
        self.closed_fired = true;
    }

    /// The engine failed to initialize on the session thread before any
    /// frame: terminal at once.  The failure is deferred, not dropped — it
    /// is preserved as the session's terminal error and surfaces the first
    /// time the session is joined.
    pub fn start_failed(&mut self, message: String)
        requires
            old(self).wf(),
            old(self).accepts_frames(),
            old(self).frames_delivered == 0,
        ensures
            final(self).wf(),
            *final(self) == spec_start_failed(*old(self), message),
            final(self).ended(),
            final(self).fatal == Some(InnerNativeWindowsCaptureError::SessionStartError(message)),
            spec_join_result(*final(self)) == Result::<(), JoinError>::Err(
                JoinError { cause: InnerNativeWindowsCaptureError::SessionStartError(message) },
            ),
    {
        self.phase = SessionPhase::Ended;
        self.fatal = Some(InnerNativeWindowsCaptureError::SessionStartError(message));
    }

    /// The terminal result of an ended session: what a blocking run returns
    /// and what a join on a detached run surfaces.  Success unless a fatal
    /// error ended the session; never silently dropped.
    pub fn into_result(self) -> (outcome: Result<(), JoinError>)
        requires
            self.wf(),
            self.ended(),
        ensures
            outcome == spec_join_result(self),
            outcome is Ok <==> self.fatal is None,
            self.fatal matches Some(cause) ==> outcome == Result::<(), JoinError>::Err(
                JoinError { cause },
            ),
    {
        match self.fatal {
            Some(cause) => Err(JoinError { cause }),
            None => Ok(()),
        }
    }
}

/// Law: a stop signal set inside a frame callback ends the session right
/// after that callback returns — no further frame delivery can begin, the
/// closure notification is still owed and fires exactly once, and the
/// termination is a normal success: the joiner sees no error.
pub proof fn lemma_stop_signal_ends_session(s: CaptureSession)
    requires
        s.wf(),
        s.lock_held(),
    ensures
        ({
            let stopped = spec_finish_frame(s, CallbackOutcome::Returned { stop: true });
            let closed = spec_close(stopped, ClosedOutcome::Returned);
            &&& !stopped.accepts_frames()
            &&& !stopped.ended()
            &&& stopped.can_close()
            &&& closed.ended()
            &&& closed.closed_fired
            &&& !closed.can_close()
            &&& !closed.accepts_frames()
            &&& closed.fatal is None
            &&& spec_join_result(closed) is Ok
        }),
{
}

/// Law: an external cooperative-stop request at a frame boundary ends the
/// engine loop the same way a stop signal does — no further frame delivery
/// can begin, the closure notification still fires exactly once, and the
/// joiner sees success.
pub proof fn lemma_external_stop_ends_session(s: CaptureSession)
    requires
        s.wf(),
        s.accepts_frames(),
    ensures
        ({
            let stopped = spec_request_stop(s);
            let closed = spec_close(stopped, ClosedOutcome::Returned);
            &&& !stopped.accepts_frames()
            &&& stopped.can_close()
            &&& closed.ended()
            &&& closed.closed_fired
            &&& !closed.can_close()
            &&& closed.fatal is None
            &&& spec_join_result(closed) is Ok
        }),
{
}

/// Law: a pending external interrupt observed at the start of a delivery
/// ends the session fatally without the frame callback ever running — the
/// delivery counter does not move, the closure notification still fires,
/// and the joiner observes `InterruptError`.
pub proof fn lemma_interrupt_ends_session(s: CaptureSession)
    requires
        s.wf(),
        s.accepts_frames(),
    ensures
        ({
            let interrupted = spec_begin_frame(s, true);
            let closed = spec_close(interrupted, ClosedOutcome::Returned);
            &&& !interrupted.accepts_frames()
            &&& !interrupted.lock_held()
            &&& interrupted.frames_delivered == s.frames_delivered
            &&& interrupted.can_close()
            &&& closed.ended()
            &&& closed.fatal == Some(InnerNativeWindowsCaptureError::InterruptError)
            &&& spec_join_result(closed) == Result::<(), JoinError>::Err(
                JoinError { cause: InnerNativeWindowsCaptureError::InterruptError },
            )
        }),
{
}

/// Law: a frame callback that fails ends the session with `CallbackError`
/// as its terminal error — no further frame delivery can begin, the closure
/// notification still fires, and the joiner observes exactly that error.
pub proof fn lemma_callback_failure_ends_session(s: CaptureSession, message: String)
    requires
        s.wf(),
        s.lock_held(),
    ensures
        ({
            let failed = spec_finish_frame(s, CallbackOutcome::Failed(message));
            let closed = spec_close(failed, ClosedOutcome::Returned);
            &&& !failed.accepts_frames()
            &&& failed.can_close()
            &&& failed.fatal == Some(InnerNativeWindowsCaptureError::CallbackError(message))
            &&& closed.ended()
            &&& closed.closed_fired
            &&& closed.fatal == Some(InnerNativeWindowsCaptureError::CallbackError(message))
            &&& spec_join_result(closed) == Result::<(), JoinError>::Err(
                JoinError { cause: InnerNativeWindowsCaptureError::CallbackError(message) },
            )
        }),
{
}

} // verus!
