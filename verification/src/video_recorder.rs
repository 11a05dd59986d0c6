use vstd::prelude::*;

use crate::error::RecorderError;
use crate::wayland_video_recorder::WaylandVideoRecorder;
use crate::wlroot_video_recorder::WlrootVideoRecorder;
use crate::xorg_video_recorder::XorgVideoRecorder;

verus! {

/// The recorder's lifecycle state.
///
/// `Init` is the pre-start state; it is distinct from `Stopped` so that a
/// first `start()` is never misread as a resume. `Stopped` is terminal: no
/// transition leaves it.
#[derive(Debug, Copy, Clone, Eq, PartialEq, Structural)]
pub enum Condition {
    Init,
    Running,
    Paused,
    Stopped,
}

impl Condition {
    /// True exactly when the recorder is in the `Running` state.
    pub fn is_running(&self) -> (r: bool)
        ensures
            r == (*self == Condition::Running),
    {
        *self == Condition::Running
    }

    /// The state's name, as shown in error messages.
    pub fn name(&self) -> (r: &'static str)
        ensures
            *self == Condition::Init ==> r@ == "Init"@,
            *self == Condition::Running ==> r@ == "Running"@,
            *self == Condition::Paused ==> r@ == "Paused"@,
            *self == Condition::Stopped ==> r@ == "Stopped"@,
    {
        match self {
            Condition::Init => "Init",
            Condition::Running => "Running",
            Condition::Paused => "Paused",
            Condition::Stopped => "Stopped",
        }
    }
}

/// The shared transition rule: a call asks for `target` and names at most one
/// `disallowed` state it must not start from.
///
/// - if the recorder already is in `target`, the call succeeds without change
///   (`Ok(None)`);
/// - else, if it is in the disallowed state, the call fails and changes
///   nothing;
/// - else, the recorder moves to `target` and the backend must be notified
///   (`Ok(Some(target))` carries the value to deliver).
pub open spec fn spec_transition(
    current: Condition,
    target: Condition,
    disallowed: Option<Condition>,
) -> Result<Option<Condition>, RecorderError> {
    if current == target {
        Ok(None)
    } else if disallowed == Some(current) {
        Err(RecorderError::State { from: current, target })
    } else {
        Ok(Some(target))
    }
}

/// The condition that results from a transition attempt: the target on
/// success with change, the old state otherwise.
pub open spec fn spec_next(
    current: Condition,
    target: Condition,
    disallowed: Option<Condition>,
) -> Condition {
    match spec_transition(current, target, disallowed) {
        Ok(Some(c)) => c,
        _ => current,
    }
}

/// One attempt of the shared transition algorithm, used verbatim by every
/// backend; only the notification step (delivering the `Some` value to the
/// capture thread) differs between them.
pub fn transition(
    current: Condition,
    target: Condition,
    disallowed: Option<Condition>,
) -> (r: Result<Option<Condition>, RecorderError>)
    ensures
        r == spec_transition(current, target, disallowed),
{
    if current == target {
        return Ok(None);
    }
    if let Some(d) = disallowed {
        if current == d {
            return Err(RecorderError::State { from: current, target });
        }
    }
    Ok(Some(target))
}

/// Law: a stop attempt always succeeds, from every state, and lands in
/// `Stopped`; a second and any further stop is a successful no-op that
/// leaves the condition `Stopped`.
pub proof fn lemma_stop_idempotent(current: Condition)
    ensures
        spec_transition(current, Condition::Stopped, None) is Ok,
        spec_next(current, Condition::Stopped, None) == Condition::Stopped,
        spec_transition(Condition::Stopped, Condition::Stopped, None) == Ok::<
            Option<Condition>,
            RecorderError,
        >(None),
{
}

/// Law: a start or pause attempt issued after a stop fails with the state
/// error naming both states, and the condition stays `Stopped`.
pub proof fn lemma_no_restart_after_stop(target: Condition)
    requires
        target == Condition::Running || target == Condition::Paused,
    ensures
        spec_transition(Condition::Stopped, target, Some(Condition::Stopped)) == Err::<
            Option<Condition>,
            RecorderError,
        >(RecorderError::State { from: Condition::Stopped, target }),
        spec_next(Condition::Stopped, target, Some(Condition::Stopped)) == Condition::Stopped,
{
}

/// The condition after a whole sequence of attempted operations, each an
/// asked-for target with the state it is disallowed from.
pub open spec fn spec_run(c0: Condition, ops: Seq<(Condition, Option<Condition>)>) -> Condition
    decreases ops.len(),
{
    if ops.len() == 0 {
        c0
    } else {
        spec_run(spec_next(c0, ops[0].0, ops[0].1), ops.drop_first())
    }
}

/// Law: whatever was attempted before it, any sequence of operations whose
/// last one is a stop leaves the condition `Stopped` — stop cannot fail and
/// nothing follows `Stopped`.
pub proof fn lemma_sequence_ending_in_stop(
    c0: Condition,
    ops: Seq<(Condition, Option<Condition>)>,
)
    requires
        ops.len() > 0,
        ops.last() == (Condition::Stopped, None::<Condition>),
    ensures
        spec_run(c0, ops) == Condition::Stopped,
    decreases ops.len(),
{
    if ops.len() == 1 {
        assert(ops[0] == ops.last());
        assert(ops.drop_first().len() == 0);
        assert(spec_run(c0, ops) == spec_next(c0, Condition::Stopped, None));
    } else {
        let c1 = spec_next(c0, ops[0].0, ops[0].1);
        assert(ops.drop_first().last() == ops.last());
        lemma_sequence_ending_in_stop(c1, ops.drop_first());
    }
}

/// Law: on a fresh recorder, the sequence start, pause, start, pause, stop
/// succeeds at every step and leaves the condition `Stopped`; and from
/// whatever state a recorder is in, the condition after a stop is `Stopped`.
pub proof fn lemma_start_pause_cycle_then_stop(c0: Condition)
    ensures
        ({
            let c1 = spec_next(Condition::Init, Condition::Running, Some(Condition::Stopped));
            let c2 = spec_next(c1, Condition::Paused, Some(Condition::Stopped));
            let c3 = spec_next(c2, Condition::Running, Some(Condition::Stopped));
            let c4 = spec_next(c3, Condition::Paused, Some(Condition::Stopped));
            &&& spec_transition(Condition::Init, Condition::Running, Some(Condition::Stopped))
                is Ok
            &&& spec_transition(c1, Condition::Paused, Some(Condition::Stopped)) is Ok
            &&& spec_transition(c2, Condition::Running, Some(Condition::Stopped)) is Ok
            &&& spec_transition(c3, Condition::Paused, Some(Condition::Stopped)) is Ok
            &&& spec_transition(c4, Condition::Stopped, None) is Ok
            &&& spec_next(c4, Condition::Stopped, None) == Condition::Stopped
        }),
        spec_next(c0, Condition::Stopped, None) == Condition::Stopped,
{
}

/// A decoded image: `raw` holds RGBA8 bytes, row-major, one pixel every four
/// bytes.
#[derive(Debug, Clone)]
pub struct Frame {
    pub width: u32,
    pub height: u32,
    pub raw: Vec<u8>,
}

impl Frame {
    /// The invariant every frame carries: the byte length matches the
    /// advertised geometry.
    pub open spec fn wf(&self) -> bool {
        self.raw@.len() == self.width * self.height * 4
    }

    pub fn new(width: u32, height: u32, raw: Vec<u8>) -> (r: Frame)
        requires
            raw@.len() == width * height * 4,
        ensures
            r.width == width,
            r.height == height,
            r.raw@ == raw@,
            r.wf(),
    {
        Self { width, height, raw }
    }
}

/// The park/notify primitive gating the polling backend's capture thread.
///
/// This is the state the primitive guards: a single `parked` flag. `wake`
/// unparks, `sleep` parks, and a parked waker makes the capture thread's
/// next `wait` block. The blocking itself, and the condition variable that
/// implements it, live with the thread runtime hosting the recorder; the
/// capture thread re-reads the condition after every resumed wait, since the
/// waker only unblocks it and carries no payload.
#[derive(Debug, Clone, Copy, PartialEq, Eq, Structural)]
pub struct RecorderWaker {
    parked: bool,
}

impl RecorderWaker {
    /// Whether the waker currently parks its waiting thread.
    pub closed spec fn parked(&self) -> bool {
        self.parked
    }

    /// A fresh waker parks until the first wake.
    pub fn new() -> (r: Self)
        ensures
            r.parked(),
    {
        Self { parked: true }
    }

    /// Unparks the waker, letting a waiting thread proceed.
    pub fn wake(&mut self) -> (r: Result<(), RecorderError>)
        ensures
            r == Ok::<(), RecorderError>(()),
            !final(self).parked(),
    {
        self.parked = false;
        Ok(())
    }

    /// Parks the waker: the next `wait` will block until a wake.
    pub fn sleep(&mut self) -> (r: Result<(), RecorderError>)
        ensures
            r == Ok::<(), RecorderError>(()),
            final(self).parked(),
    {
        self.parked = true;
        Ok(())
    }

    /// One round of the wait loop: reports whether the waker is unparked, so
    /// that a waiting thread would resume. A thread seeing `false` blocks
    /// and retries; a spurious wakeup therefore never lets it through.
    pub fn wait(&self) -> (ready: bool)
        ensures
            ready == !self.parked(),
    {
        !self.parked
    }
}

/// The one backend a recorder instance drives.
#[derive(Debug, Clone, Copy, PartialEq, Eq, Structural)]
pub enum RecorderBackend {
    Xorg(XorgVideoRecorder),
    Wayland(WaylandVideoRecorder),
    Wlroot(WlrootVideoRecorder),
}

impl RecorderBackend {
    /// The lifecycle state the backend is in.
    pub open spec fn spec_condition(&self) -> Condition {
        match self {
            RecorderBackend::Xorg(x) => x.condition(),
            RecorderBackend::Wayland(w) => w.condition(),
            RecorderBackend::Wlroot(w) => w.condition(),
        }
    }
}

/// The uniform recording surface: selects exactly one backend and delegates
/// start/pause/stop to its implementation of the shared state machine,
/// never blocking on the capture thread.
#[derive(Debug, Clone, Copy, PartialEq, Eq, Structural)]
pub struct VideoRecorder {
    impl_video_recorder: RecorderBackend,
}

impl VideoRecorder {
    /// The wrapped backend.
    pub closed spec fn backend(&self) -> RecorderBackend {
        self.impl_video_recorder
    }

    /// The lifecycle state of the wrapped backend.
    pub open spec fn spec_condition(&self) -> Condition {
        self.backend().spec_condition()
    }

    pub fn new(impl_video_recorder: RecorderBackend) -> (r: VideoRecorder)
        ensures
            r.backend() == impl_video_recorder,
    {
        VideoRecorder { impl_video_recorder }
    }

    /// The current condition, so a caller can tell a changing call from a
    /// no-op and notify the capture side accordingly.
    pub fn current_condition(&self) -> (r: Condition)
        ensures
            r == self.spec_condition(),
    {
        match &self.impl_video_recorder {
            RecorderBackend::Xorg(x) => x.current_condition(),
            RecorderBackend::Wayland(w) => w.current_condition(),
            RecorderBackend::Wlroot(w) => w.current_condition(),
        }
    }

    /// Delegates the transition to `Running` (disallowed from `Stopped`) to
    /// the backend. The screen-copy backend accepts it without effect.
    pub fn start(&mut self) -> (r: Result<(), RecorderError>)
        ensures
            (match old(self).backend() {
                RecorderBackend::Wlroot(_) => r == Ok::<(), RecorderError>(()) && *final(self)
                    == *old(self),
                _ => {
                    &&& final(self).spec_condition() == spec_next(
                        old(self).spec_condition(),
                        Condition::Running,
                        Some(Condition::Stopped),
                    )
                    &&& (match spec_transition(
                        old(self).spec_condition(),
                        Condition::Running,
                        Some(Condition::Stopped),
                    ) {
                        Ok(_) => r == Ok::<(), RecorderError>(()),
                        Err(e) => r == Err::<(), RecorderError>(e) && *final(self) == *old(self),
                    })
                },
            }),
            (match (old(self).backend(), final(self).backend()) {
                (RecorderBackend::Xorg(x0), RecorderBackend::Xorg(x1)) => match spec_transition(
                    x0.condition(),
                    Condition::Running,
                    Some(Condition::Stopped),
                ) {
                    Ok(Some(_)) => !x1.waker_parked(),
                    _ => x1 == x0,
                },
                (RecorderBackend::Xorg(_), _) => false,
                (RecorderBackend::Wayland(_), f) => f is Wayland,
                (RecorderBackend::Wlroot(_), f) => f is Wlroot,
            }),
    {
        match &mut self.impl_video_recorder {
            RecorderBackend::Xorg(x) => x.start(),
            RecorderBackend::Wayland(w) => match w.start() {
                Ok(_) => Ok(()),
                Err(e) => Err(e),
            },
            RecorderBackend::Wlroot(w) => w.start(),
        }
    }

    /// Delegates the transition to `Paused` (disallowed from `Stopped`) to
    /// the backend. The screen-copy backend accepts it without effect.
    pub fn pause(&mut self) -> (r: Result<(), RecorderError>)
        ensures
            (match old(self).backend() {
                RecorderBackend::Wlroot(_) => r == Ok::<(), RecorderError>(()) && *final(self)
                    == *old(self),
                _ => {
                    &&& final(self).spec_condition() == spec_next(
                        old(self).spec_condition(),
                        Condition::Paused,
                        Some(Condition::Stopped),
                    )
                    &&& (match spec_transition(
                        old(self).spec_condition(),
                        Condition::Paused,
                        Some(Condition::Stopped),
                    ) {
                        Ok(_) => r == Ok::<(), RecorderError>(()),
                        Err(e) => r == Err::<(), RecorderError>(e) && *final(self) == *old(self),
                    })
                },
            }),
            (match (old(self).backend(), final(self).backend()) {
                (RecorderBackend::Xorg(x0), RecorderBackend::Xorg(x1)) => match spec_transition(
                    x0.condition(),
                    Condition::Paused,
                    Some(Condition::Stopped),
                ) {
                    Ok(Some(_)) => x1.waker_parked(),
                    _ => x1 == x0,
                },
                (RecorderBackend::Xorg(_), _) => false,
                (RecorderBackend::Wayland(_), f) => f is Wayland,
                (RecorderBackend::Wlroot(_), f) => f is Wlroot,
            }),
    {
        match &mut self.impl_video_recorder {
            RecorderBackend::Xorg(x) => x.pause(),
            RecorderBackend::Wayland(w) => match w.pause() {
                Ok(_) => Ok(()),
                Err(e) => Err(e),
            },
            RecorderBackend::Wlroot(w) => w.pause(),
        }
    }

    /// Delegates the always-permitted transition to `Stopped` to the
    /// backend; also the implicit action when the handle is torn down. The
    /// screen-copy backend accepts it without effect.
    pub fn stop(&mut self) -> (r: Result<(), RecorderError>)
        ensures
            r == Ok::<(), RecorderError>(()),
            (match old(self).backend() {
                RecorderBackend::Wlroot(_) => *final(self) == *old(self),
                _ => final(self).spec_condition() == Condition::Stopped,
            }),
            (match (old(self).backend(), final(self).backend()) {
                (RecorderBackend::Xorg(x0), RecorderBackend::Xorg(x1)) => match spec_transition(
                    x0.condition(),
                    Condition::Stopped,
                    None,
                ) {
                    Ok(Some(_)) => !x1.waker_parked(),
                    _ => x1 == x0,
                },
                (RecorderBackend::Xorg(_), _) => false,
                (RecorderBackend::Wayland(_), f) => f is Wayland,
                (RecorderBackend::Wlroot(_), f) => f is Wlroot,
            }),
    {
        match &mut self.impl_video_recorder {
            RecorderBackend::Xorg(x) => x.stop(),
            RecorderBackend::Wayland(w) => match w.stop() {
                Ok(_) => Ok(()),
                Err(e) => Err(e),
            },
            RecorderBackend::Wlroot(w) => w.stop(),
        }
    }
}

} // verus!
