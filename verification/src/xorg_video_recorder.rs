use vstd::prelude::*;

use crate::error::RecorderError;
use crate::video_recorder::{spec_next, spec_transition, transition, Condition, RecorderWaker};

verus! {

/// Pacing sleep between two delivered frames, in milliseconds.
pub const FRAME_PACING_MS: u64 = 1;

/// Backoff sleep after a transient capture failure, in milliseconds.
pub const CAPTURE_BACKOFF_MS: u64 = 10;

/// What the polling capture loop does after a wait returns: grab one frame
/// while running; otherwise close the frame channel and exit for good.
#[derive(Debug, Clone, Copy, PartialEq, Eq, Structural)]
pub enum PollDecision {
    CaptureFrame,
    Exit,
}

/// The polling loop's rule: capture exactly while the condition reads
/// `Running`; any other condition ends the loop, closing the channel.
pub fn poll_decision(cond: Condition) -> (r: PollDecision)
    ensures
        r == (if cond == Condition::Running {
            PollDecision::CaptureFrame
        } else {
            PollDecision::Exit
        }),
{
    if cond.is_running() {
        PollDecision::CaptureFrame
    } else {
        PollDecision::Exit
    }
}

/// The polling backend: a direct frame-acquisition loop over the bound
/// output, gated by the waker. This is the backend's control state; the
/// capture thread that polls it re-reads the condition after every resumed
/// wait.
#[derive(Debug, Clone, Copy, PartialEq, Eq, Structural)]
pub struct XorgVideoRecorder {
    condition: Condition,
    recorder_waker: RecorderWaker,
}

impl XorgVideoRecorder {
    /// The recorder's lifecycle state.
    pub closed spec fn condition(&self) -> Condition {
        self.condition
    }

    /// Whether the capture thread's waker is parked.
    pub closed spec fn waker_parked(&self) -> bool {
        self.recorder_waker.parked()
    }

    /// A fresh recorder: condition `Init`, waker parked until started.
    pub fn new() -> (r: Self)
        ensures
            r.condition() == Condition::Init,
            r.waker_parked(),
    {
        Self { condition: Condition::Init, recorder_waker: RecorderWaker::new() }
    }

    /// The current condition, for the capture loop's re-reads.
    pub fn current_condition(&self) -> (r: Condition)
        ensures
            r == self.condition(),
    {
        self.condition
    }

    /// One round of the capture thread's wait: whether it would resume.
    pub fn wait(&self) -> (ready: bool)
        ensures
            ready == !self.waker_parked(),
    {
        self.recorder_waker.wait()
    }

    /// Attempts the shared transition to `Running` (disallowed from
    /// `Stopped`) and wakes the waker when the state changed.
    pub fn start(&mut self) -> (r: Result<(), RecorderError>)
        ensures
            final(self).condition() == spec_next(
                old(self).condition(),
                Condition::Running,
                Some(Condition::Stopped),
            ),
            (match spec_transition(
                old(self).condition(),
                Condition::Running,
                Some(Condition::Stopped),
            ) {
                Ok(Some(_)) => r == Ok::<(), RecorderError>(()) && !final(self).waker_parked(),
                Ok(None) => r == Ok::<(), RecorderError>(()) && *final(self) == *old(self),
                Err(e) => r == Err::<(), RecorderError>(e) && *final(self) == *old(self),
            }),
    {
        match transition(self.condition, Condition::Running, Some(Condition::Stopped)) {
            Ok(Some(c)) => {
                self.condition = c;
                self.recorder_waker.wake()?;
                Ok(())
            },
            Ok(None) => Ok(()),
            Err(e) => Err(e),
        }
    }

    /// Attempts the shared transition to `Paused` (disallowed from
    /// `Stopped`) and parks the waker when the state changed.
    pub fn pause(&mut self) -> (r: Result<(), RecorderError>)
        ensures
            final(self).condition() == spec_next(
                old(self).condition(),
                Condition::Paused,
                Some(Condition::Stopped),
            ),
            (match spec_transition(
                old(self).condition(),
                Condition::Paused,
                Some(Condition::Stopped),
            ) {
                Ok(Some(_)) => r == Ok::<(), RecorderError>(()) && final(self).waker_parked(),
                Ok(None) => r == Ok::<(), RecorderError>(()) && *final(self) == *old(self),
                Err(e) => r == Err::<(), RecorderError>(e) && *final(self) == *old(self),
            }),
    {
        match transition(self.condition, Condition::Paused, Some(Condition::Stopped)) {
            Ok(Some(c)) => {
                self.condition = c;
                self.recorder_waker.sleep()?;
                Ok(())
            },
            Ok(None) => Ok(()),
            Err(e) => Err(e),
        }
    }

    /// Moves to `Stopped` — always permitted — and wakes the waker so the
    /// capture thread observes the terminal state and exits.
    pub fn stop(&mut self) -> (r: Result<(), RecorderError>)
        ensures
            r == Ok::<(), RecorderError>(()),
            final(self).condition() == Condition::Stopped,
            (match spec_transition(old(self).condition(), Condition::Stopped, None) {
                Ok(Some(_)) => !final(self).waker_parked(),
                _ => *final(self) == *old(self),
            }),
    {
        match transition(self.condition, Condition::Stopped, None) {
            Ok(Some(c)) => {
                self.condition = c;
                self.recorder_waker.wake()?;
                Ok(())
            },
            Ok(None) => Ok(()),
            Err(e) => Err(e),
        }
    }
}

} // verus!
