use vstd::prelude::*;

use crate::video_recorder::Condition;

verus! {

/// Reasons a portal negotiation call is rejected before or after the bus
/// round trip.
#[derive(Debug, Clone, PartialEq, Eq)]
pub enum ProtocolError {
    /// The response notification carried a non-success code (its wire value).
    NotSuccess(u32),
    /// The session handle returned by the portal differs from the one the
    /// client derived from its own session token.
    SessionHandleMismatch,
    /// A required key is absent from the response dictionary.
    MissingKey(String),
    /// A response value does not have the type the key calls for.
    WrongType(String),
}

/// A required portal version or advertised capability is absent; detected
/// before any remote call is made.
#[derive(Debug, Clone, PartialEq, Eq)]
pub enum CapabilityError {
    /// The portal version (carried) is too old to report cursor modes.
    CursorModesVersion(u32),
    /// The portal advertises no cursor mode that allows hiding the cursor.
    CursorHidingUnsupported,
    /// The portal version (carried) is too old to persist permissions.
    PersistVersion(u32),
}

/// The error taxonomy of the recording engine.
#[derive(Debug, Clone, PartialEq, Eq)]
pub enum RecorderError {
    /// A disallowed condition transition; carries the state the recorder was
    /// in and the state the caller asked for. The recorder is left unchanged.
    State { from: Condition, target: Condition },
    /// A failed or malformed portal response; aborts the setup call.
    Protocol(ProtocolError),
    /// A missing portal capability; aborts setup before any remote call.
    Capability(CapabilityError),
    /// A lock was poisoned by a prior panic; fatal, no recovery attempted.
    Concurrency,
    /// A single frame grab failed; logged and retried, never surfaced.
    TransientCapture,
    /// No media stream was offered in the portal's start response.
    StreamNotFound,
}

impl RecorderError {
    /// A human-readable description of the error.
    pub fn message(&self) -> String {
        match self {
            RecorderError::State { from, target } => {
                let mut s = String::from_str("cannot set state from ");
                s.append(from.name());
                s.append(" to ");
                s.append(target.name());
                s.append(" state");
                s
            },
            RecorderError::Protocol(ProtocolError::NotSuccess(code)) => {
                let mut s = String::from_str("got error response from portal: ");
                s.append(crate::dbus::u32_decimal(*code).as_str());
                s
            },
            RecorderError::Protocol(ProtocolError::SessionHandleMismatch) => {
                String::from_str("Session handle mismatch")
            },
            RecorderError::Protocol(ProtocolError::MissingKey(key)) => {
                let mut s = String::from_str("map has no key ");
                s.append(key.as_str());
                s
            },
            RecorderError::Protocol(ProtocolError::WrongType(key)) => {
                let mut s = String::from_str("unexpected value type for key ");
                s.append(key.as_str());
                s
            },
            RecorderError::Capability(CapabilityError::CursorModesVersion(_)) => {
                String::from_str("portal version does not have capability to fetch cursor modes")
            },
            RecorderError::Capability(CapabilityError::CursorHidingUnsupported) => {
                String::from_str("Cursor hiding is not supported")
            },
            RecorderError::Capability(CapabilityError::PersistVersion(_)) => {
                String::from_str("portal version does not have capability to save screen cast permission")
            },
            RecorderError::Concurrency => String::from_str("Failed to get condition lock"),
            RecorderError::TransientCapture => String::from_str("Failed to capture frame"),
            RecorderError::StreamNotFound => String::from_str("Stream ID not found"),
        }
    }
}

} // verus!
