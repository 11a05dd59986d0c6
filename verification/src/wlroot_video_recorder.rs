use vstd::prelude::*;

use crate::error::RecorderError;
use crate::video_recorder::Condition;

verus! {

/// The compositor-native screen-copy backend. Its capture path is not wired
/// up yet: construction yields the pre-start state and the control calls
/// succeed without effect.
#[derive(Debug, Clone, Copy, PartialEq, Eq, Structural)]
pub struct WlrootVideoRecorder {
    condition: Condition,
}

impl WlrootVideoRecorder {
    /// The recorder's lifecycle state.
    pub closed spec fn condition(&self) -> Condition {
        self.condition
    }

    pub fn new() -> (r: Self)
        ensures
            r.condition() == Condition::Init,
    {
        Self { condition: Condition::Init }
    }

    /// The current condition.
    pub fn current_condition(&self) -> (r: Condition)
        ensures
            r == self.condition(),
    {
        self.condition
    }

    pub fn start(&self) -> (r: Result<(), RecorderError>)
        ensures
            r == Ok::<(), RecorderError>(()),
    {
        Ok(())
    }

    pub fn pause(&self) -> (r: Result<(), RecorderError>)
        ensures
            r == Ok::<(), RecorderError>(()),
    {
        Ok(())
    }

    pub fn stop(&self) -> (r: Result<(), RecorderError>)
        ensures
            r == Ok::<(), RecorderError>(()),
    {
        Ok(())
    }
}

} // verus!
