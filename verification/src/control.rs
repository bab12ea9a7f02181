//! The take-once control handle of a detached session.
//!
//! The handle owns the joinable reference to the session thread — here, the
//! session itself, which that thread drives through the engine-side methods
//! below.  The reference is an exclusive resource: the first successful
//! `wait` or `stop` takes it, and every later call observes the empty slot
//! and short-circuits to success.  In the embedder, `wait` and `stop` drop
//! any execution-lock hold of the calling thread before blocking on the
//! real join, since the session thread needs that lock to make progress;
//! the model's precondition that the session has ended stands for that
//! completed join.

use vstd::prelude::*;

use vstd::pervasive::unreached;

use crate::errors::JoinError;
use crate::session::frame_decision_of;
use crate::session::spec_begin_frame;
use crate::session::spec_close;
use crate::session::spec_finish_frame;
use crate::session::spec_join_result;
use crate::session::spec_request_stop;
use crate::session::spec_start_failed;
use crate::session::CallbackOutcome;
use crate::session::CaptureSession;
use crate::session::ClosedOutcome;
use crate::session::FrameDecision;
use crate::session::FrameMeta;

verus! {

/// The consumed handle and the result that taking the slot yields: success,
/// or the fatal error that ended the session, wrapped.
pub open spec fn spec_join(handle: NativeCaptureControl) -> (
    NativeCaptureControl,
    Result<(), JoinError>,
) {
    (
        NativeCaptureControl { capture_control: None },
        match handle.capture_control {
            Some(session) => spec_join_result(session),
            None => Ok(()),
        },
    )
}

/// Caller-held handle of a detached session: query, wait, stop.
#[derive(Clone, Debug, PartialEq, Eq)]
pub struct NativeCaptureControl {
    /// The joinable reference, present until the first `wait` or `stop`
    /// consumes it.
    pub capture_control: Option<CaptureSession>,
}

impl NativeCaptureControl {
    /// Every session the handle may hold is internally consistent.
    pub open spec fn wf(self) -> bool {
        self.capture_control matches Some(session) ==> session.wf()
    }

    /// The joinable reference has not been consumed yet.
    pub open spec fn armed(self) -> bool {
        self.capture_control is Some
    }

    /// The session the handle owns.
    pub open spec fn session(self) -> CaptureSession
        recommends
            self.armed(),
    {
        self.capture_control->0
    }

    /// The session thread has fully completed (or the handle was already
    /// consumed).  False while the session is still running.
    pub open spec fn finished(self) -> bool {
        self.capture_control matches Some(session) ==> session.ended()
    }

    /// A handle armed with a fresh session, returned as soon as the
    /// session thread is confirmed started.
    pub fn new(session: CaptureSession) -> (handle: Self)
        ensures
            handle.capture_control == Some(session),
    {
        NativeCaptureControl { capture_control: Some(session) }
    }

    /// Non-blocking completion check: true only after the session has
    /// fully completed, false otherwise — including still running.  A
    /// consumed handle reports true.
    pub fn is_finished(&self) -> (finished: bool)
        ensures
            finished == self.finished(),
    {
        match &self.capture_control {
            None => true,
            Some(session) => session.is_ended(),
        }
    }

    /// Joins the ended session: the first call takes the joinable
    /// reference and surfaces the session's terminal error, if any,
    /// wrapped in a [`JoinError`]; every later call finds the slot empty
    /// and returns success at once, with no second block.
    pub fn wait(&mut self) -> (outcome: Result<(), JoinError>)
        requires
            old(self).wf(),
            old(self).finished(),
        ensures
            *final(self) == spec_join(*old(self)).0,
            outcome == spec_join(*old(self)).1,
            !final(self).armed(),
            final(self).finished(),
    {
        match self.capture_control.take() {
            Some(session) => session.into_result(),
            None => Ok(()),
        }
    }

    /// Requests cooperative termination, then joins like [`Self::wait`],
    /// with the same take-once idempotence.  The stop request itself is
    /// the engine-side [`Self::request_stop`], which the embedder forwards
    /// to the session thread's loop; by the time the join completes the
    /// session has ended.
    pub fn stop(&mut self) -> (outcome: Result<(), JoinError>)
        requires
            old(self).wf(),
            old(self).finished(),
        ensures
            *final(self) == spec_join(*old(self)).0,
            outcome == spec_join(*old(self)).1,
            !final(self).armed(),
            final(self).finished(),
    {
        match self.capture_control.take() {
            Some(session) => session.into_result(),
            None => Ok(()),
        }
    }

    /// Engine side: first half of one frame delivery on the owned session.
    /// See [`CaptureSession::begin_frame`].
    pub fn begin_frame(&mut self, frame: &FrameMeta, interrupt_pending: bool) -> (decision:
        FrameDecision)
        requires
            old(self).armed(),
            old(self).session().wf(),
            old(self).session().accepts_frames(),
            frame.wf(),
        ensures
            final(self).capture_control == Some(
                spec_begin_frame(old(self).session(), interrupt_pending),
            ),
            decision == frame_decision_of(*frame, interrupt_pending),
    {
        match &mut self.capture_control {
            Some(session) => session.begin_frame(frame, interrupt_pending),
            None => unreached(),
        }
    }

    /// Engine side: second half of one frame delivery on the owned
    /// session.  See [`CaptureSession::finish_frame`].
    pub fn finish_frame(&mut self, outcome: CallbackOutcome)
        requires
            old(self).armed(),
            old(self).session().wf(),
            old(self).session().lock_held(),
        ensures
            final(self).capture_control == Some(
                spec_finish_frame(old(self).session(), outcome),
            ),
    {
        match &mut self.capture_control {
            Some(session) => session.finish_frame(outcome),
            None => unreached(),
        }
    }

    /// Engine side: the external cooperative-stop request, polled at a
    /// frame boundary.  See [`CaptureSession::request_stop`].
    pub fn request_stop(&mut self)
        requires
            old(self).armed(),
            old(self).session().wf(),
            !old(self).session().lock_held(),
        ensures
            final(self).capture_control == Some(spec_request_stop(old(self).session())),
    {
        match &mut self.capture_control {
            Some(session) => session.request_stop(),
            None => unreached(),
        }
    }

    /// Engine side: the one-shot closure notification on the owned
    /// session.  See [`CaptureSession::close`].
    pub fn close(&mut self, outcome: ClosedOutcome)
        requires
            old(self).armed(),
            old(self).session().wf(),
            old(self).session().can_close(),
        ensures
            final(self).capture_control == Some(spec_close(old(self).session(), outcome)),
            final(self).finished(),
    {
        match &mut self.capture_control {
            Some(session) => session.close(outcome),
            None => unreached(),
        }
    }

    /// Engine side: engine initialization failed on the session thread
    /// after the handle was handed out.  The failure is deferred into the
    /// session and surfaces at the first `wait` or `stop`.  See
    /// [`CaptureSession::start_failed`].
    pub fn start_failed(&mut self, message: String)
        requires
            old(self).armed(),
            old(self).session().wf(),
            old(self).session().accepts_frames(),
            old(self).session().frames_delivered == 0,
        ensures
            final(self).capture_control == Some(
                spec_start_failed(old(self).session(), message),
            ),
            final(self).finished(),
    {
        match &mut self.capture_control {
            Some(session) => session.start_failed(message),
            None => unreached(),
        }
    }
}

/// Law: after a first `wait` or `stop` has consumed the handle, every
/// further `wait` or `stop` is enabled without any session having to end
/// again — there is no second block — and returns success, whatever the
/// first join surfaced.
pub proof fn lemma_second_join_succeeds(handle: NativeCaptureControl)
    ensures
        ({
            let consumed = spec_join(handle).0;
            let second = spec_join(consumed);
            &&& !consumed.armed()
            &&& consumed.wf()
            &&& consumed.finished()
            &&& second.1 is Ok
        }),
{
}

} // verus!
