use vstd::prelude::*;

use crate::dbus::screencast::StartResponse;
use crate::error::RecorderError;
use crate::video_recorder::{spec_next, spec_transition, transition, Condition};

verus! {

/// The transport node the capture pipeline attaches to: the first started
/// stream's node id. A start response without streams cannot be recorded
/// from.
pub fn first_stream_node(resp: &StartResponse) -> (r: Result<u32, RecorderError>)
    ensures
        resp.streams@.len() == 0 ==> r == Err::<u32, RecorderError>(RecorderError::StreamNotFound),
        resp.streams@.len() > 0 ==> r == Ok::<u32, RecorderError>(
            resp.streams@[0].pipewire_node_id,
        ),
{
    if resp.streams.len() == 0 {
        Err(RecorderError::StreamNotFound)
    } else {
        Ok(resp.streams[0].pipewire_node_id)
    }
}

/// The portal-negotiated backend: its capture runs on a dedicated
/// single-threaded event loop that owns the media stream, and control
/// reaches that loop only over a control channel. This is the backend's
/// control state; the value a successful changing call returns is the
/// condition to deliver on that channel.
#[derive(Debug, Clone, Copy, PartialEq, Eq, Structural)]
pub struct WaylandVideoRecorder {
    condition: Condition,
}

impl WaylandVideoRecorder {
    /// The recorder's lifecycle state.
    pub closed spec fn condition(&self) -> Condition {
        self.condition
    }

    /// A fresh recorder in the pre-start state.
    pub fn new() -> (r: Self)
        ensures
            r.condition() == Condition::Init,
    {
        Self { condition: Condition::Init }
    }

    /// The current condition.
    pub fn current_condition(&self) -> (r: Condition)
        ensures
            r == self.condition(),
    {
        self.condition
    }

    /// The shared transition algorithm; the notification step is handed back
    /// to the caller: `Ok(Some(c))` means the state changed and `c` must be
    /// pushed on the event loop's control channel, `Ok(None)` means the call
    /// was a successful no-op and nothing is sent.
    pub fn set_state(&mut self, target_cond: Condition, disallowed_cond: Option<Condition>) -> (r:
        Result<Option<Condition>, RecorderError>)
        ensures
            r == spec_transition(old(self).condition(), target_cond, disallowed_cond),
            final(self).condition() == spec_next(old(self).condition(), target_cond, disallowed_cond),
            !(spec_transition(old(self).condition(), target_cond, disallowed_cond) matches Ok(
                Some(_),
            )) ==> *final(self) == *old(self),
    {
        match transition(self.condition, target_cond, disallowed_cond) {
            Ok(Some(c)) => {
                self.condition = c;
                Ok(Some(c))
            },
            Ok(None) => Ok(None),
            Err(e) => Err(e),
        }
    }

    /// Attempts the transition to `Running`, disallowed from `Stopped`.
    pub fn start(&mut self) -> (r: Result<Option<Condition>, RecorderError>)
        ensures
            r == spec_transition(
                old(self).condition(),
                Condition::Running,
                Some(Condition::Stopped),
            ),
            final(self).condition() == spec_next(
                old(self).condition(),
                Condition::Running,
                Some(Condition::Stopped),
            ),
            !(spec_transition(old(self).condition(), Condition::Running, Some(Condition::Stopped))
                matches Ok(Some(_))) ==> *final(self) == *old(self),
    {
        self.set_state(Condition::Running, Some(Condition::Stopped))
    }

    /// Attempts the transition to `Paused`, disallowed from `Stopped`.
    pub fn pause(&mut self) -> (r: Result<Option<Condition>, RecorderError>)
        ensures
            r == spec_transition(
                old(self).condition(),
                Condition::Paused,
                Some(Condition::Stopped),
            ),
            final(self).condition() == spec_next(
                old(self).condition(),
                Condition::Paused,
                Some(Condition::Stopped),
            ),
            !(spec_transition(old(self).condition(), Condition::Paused, Some(Condition::Stopped))
                matches Ok(Some(_))) ==> *final(self) == *old(self),
    {
        self.set_state(Condition::Paused, Some(Condition::Stopped))
    }

    /// Moves to `Stopped`; always permitted.
    pub fn stop(&mut self) -> (r: Result<Option<Condition>, RecorderError>)
        ensures
            r == spec_transition(old(self).condition(), Condition::Stopped, None),
            final(self).condition() == Condition::Stopped,
            !(spec_transition(old(self).condition(), Condition::Stopped, None) matches Ok(Some(_)))
                ==> *final(self) == *old(self),
    {
        self.set_state(Condition::Stopped, None)
    }
}

} // verus!
