//! Live video capture of a display output across heterogeneous desktop
//! backends, behind one uniform start/pause/stop control surface.
//!
//! The crate verifies the recording engine: the shared condition state
//! machine, the park/notify waker model driving the polling backend, the
//! desktop-portal negotiation protocol on plain values, and the
//! pixel-format normalization pipeline.

pub mod dbus;
pub mod dir;
pub mod error;
pub mod stream;
pub mod video_recorder;
pub mod wayland_video_recorder;
pub mod wlroot_video_recorder;
pub mod xorg_video_recorder;

pub use error::RecorderError;
pub use video_recorder::Condition;
pub use video_recorder::Frame;
pub use video_recorder::VideoRecorder;
