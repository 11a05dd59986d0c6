use xcap::error::RecorderError;
use xcap::video_recorder::{
    transition, Condition, Frame, RecorderBackend, RecorderWaker, VideoRecorder,
};
use xcap::wayland_video_recorder::WaylandVideoRecorder;
use xcap::wlroot_video_recorder::WlrootVideoRecorder;
use xcap::xorg_video_recorder::{poll_decision, PollDecision, XorgVideoRecorder};

#[test]
fn condition_is_running() {
    assert!(Condition::Running.is_running());
    assert!(!Condition::Init.is_running());
    assert!(!Condition::Paused.is_running());
    assert!(!Condition::Stopped.is_running());
}

#[test]
fn condition_names() {
    assert_eq!(Condition::Init.name(), "Init");
    assert_eq!(Condition::Running.name(), "Running");
    assert_eq!(Condition::Paused.name(), "Paused");
    assert_eq!(Condition::Stopped.name(), "Stopped");
}

#[test]
fn transition_rules() {
    // No-op when already in the target state.
    assert_eq!(
        transition(Condition::Running, Condition::Running, Some(Condition::Stopped)),
        Ok(None)
    );
    // Ordinary change carries the value to deliver.
    assert_eq!(
        transition(Condition::Init, Condition::Running, Some(Condition::Stopped)),
        Ok(Some(Condition::Running))
    );
    // The disallowed state refuses and names both states.
    assert_eq!(
        transition(Condition::Stopped, Condition::Running, Some(Condition::Stopped)),
        Err(RecorderError::State { from: Condition::Stopped, target: Condition::Running })
    );
    // Stop is always permitted.
    assert_eq!(transition(Condition::Paused, Condition::Stopped, None), Ok(Some(Condition::Stopped)));
}

#[test]
fn start_pause_cycle_then_stop_ends_stopped() {
    let mut rec = VideoRecorder::new(RecorderBackend::Xorg(XorgVideoRecorder::new()));
    assert_eq!(rec.current_condition(), Condition::Init);
    assert!(rec.start().is_ok());
    assert_eq!(rec.current_condition(), Condition::Running);
    assert!(rec.pause().is_ok());
    assert_eq!(rec.current_condition(), Condition::Paused);
    assert!(rec.start().is_ok());
    assert!(rec.pause().is_ok());
    assert!(rec.stop().is_ok());
    assert_eq!(rec.current_condition(), Condition::Stopped);
    // The polling loop exits on the terminal state, closing the channel.
    assert_eq!(poll_decision(rec.current_condition()), PollDecision::Exit);
}

#[test]
fn stop_is_idempotent() {
    let mut rec = VideoRecorder::new(RecorderBackend::Xorg(XorgVideoRecorder::new()));
    assert!(rec.start().is_ok());
    assert!(rec.stop().is_ok());
    assert_eq!(rec.current_condition(), Condition::Stopped);
    assert!(rec.stop().is_ok());
    assert!(rec.stop().is_ok());
    assert_eq!(rec.current_condition(), Condition::Stopped);
}

#[test]
fn start_and_pause_after_stop_fail_with_state_error() {
    let mut rec = VideoRecorder::new(RecorderBackend::Xorg(XorgVideoRecorder::new()));
    assert!(rec.stop().is_ok());
    assert_eq!(
        rec.start(),
        Err(RecorderError::State { from: Condition::Stopped, target: Condition::Running })
    );
    assert_eq!(rec.current_condition(), Condition::Stopped);
    assert_eq!(
        rec.pause(),
        Err(RecorderError::State { from: Condition::Stopped, target: Condition::Paused })
    );
    assert_eq!(rec.current_condition(), Condition::Stopped);
}

#[test]
fn wayland_backend_shares_the_state_machine() {
    let mut rec = WaylandVideoRecorder::new();
    assert_eq!(rec.current_condition(), Condition::Init);
    // A change hands back the condition to push on the control channel.
    assert_eq!(rec.start(), Ok(Some(Condition::Running)));
    assert_eq!(rec.start(), Ok(None));
    assert_eq!(rec.pause(), Ok(Some(Condition::Paused)));
    assert_eq!(rec.stop(), Ok(Some(Condition::Stopped)));
    assert_eq!(rec.stop(), Ok(None));
    assert_eq!(
        rec.start(),
        Err(RecorderError::State { from: Condition::Stopped, target: Condition::Running })
    );
    assert_eq!(rec.current_condition(), Condition::Stopped);
}

#[test]
fn wlroot_backend_accepts_controls_without_effect() {
    let rec = WlrootVideoRecorder::new();
    assert_eq!(rec.current_condition(), Condition::Init);
    assert!(rec.start().is_ok());
    assert!(rec.pause().is_ok());
    assert!(rec.stop().is_ok());
    assert_eq!(rec.current_condition(), Condition::Init);
}

#[test]
fn waker_parks_and_wakes() {
    let mut w = RecorderWaker::new();
    // A fresh waker parks: a wait round would block.
    assert!(!w.wait());
    assert!(w.wake().is_ok());
    assert!(w.wait());
    assert!(w.sleep().is_ok());
    assert!(!w.wait());
}

#[test]
fn xorg_recorder_drives_its_waker() {
    let mut rec = XorgVideoRecorder::new();
    assert!(!rec.wait());
    assert!(rec.start().is_ok());
    assert!(rec.wait());
    assert!(rec.pause().is_ok());
    assert!(!rec.wait());
    assert!(rec.stop().is_ok());
    // Stop wakes the capture thread so it can observe the terminal state.
    assert!(rec.wait());
    assert_eq!(rec.current_condition(), Condition::Stopped);
}

#[test]
fn facade_over_the_wayland_backend() {
    let mut rec = VideoRecorder::new(RecorderBackend::Wayland(WaylandVideoRecorder::new()));
    assert!(rec.start().is_ok());
    assert_eq!(rec.current_condition(), Condition::Running);
    assert!(rec.stop().is_ok());
    assert_eq!(
        rec.pause(),
        Err(RecorderError::State { from: Condition::Stopped, target: Condition::Paused })
    );
}

#[test]
fn facade_over_the_wlroot_backend() {
    let mut rec = VideoRecorder::new(RecorderBackend::Wlroot(WlrootVideoRecorder::new()));
    assert!(rec.start().is_ok());
    assert!(rec.stop().is_ok());
    assert!(rec.start().is_ok());
    assert_eq!(rec.current_condition(), Condition::Init);
}

#[test]
fn frame_keeps_its_geometry() {
    let raw = vec![7u8; 2 * 3 * 4];
    let f = Frame::new(2, 3, raw.clone());
    assert_eq!(f.width, 2);
    assert_eq!(f.height, 3);
    assert_eq!(f.raw, raw);
}

#[test]
fn state_error_message_names_both_states() {
    let e = RecorderError::State { from: Condition::Stopped, target: Condition::Running };
    assert_eq!(e.message(), "cannot set state from Stopped to Running state");
}
