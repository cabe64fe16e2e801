//! The turntable's state machine: the capture orchestration itself.
//!
//! A run repeats one step: ask the camera for photo `seq` (the step's overall
//! index), wait until the camera has taken it, then rotate one step, and tilt
//! up one level after each full revolution but the last. After each step the
//! machine looks, without waiting, for a command: a pause takes effect only
//! there, between two steps. A failed capture or motion pauses the run at the
//! step that failed, so that a resume takes that same photo again; no step
//! is retried on its own.
//!
//! `TurntableWorker::handle` takes one event and returns what to do next. The
//! program around it carries the action out, publishes the new state after
//! every event that applied, and hands back what came of the action.
use vstd::prelude::*;
use crate::stepping::{TurntableSteppingJob, TurntableSteppingState};
use crate::camera::CameraWorkerState;
use crate::stepping::lemma_next_step;
use crate::sync::{CameraObservation, SyncWait};

verus! {

/// The turntable machine's state, published after every event that applied.
#[derive(Debug, Clone, Copy, PartialEq, Eq)]
pub enum TurntableWorkerState {
    Uninitialised,
    Connecting,
    Connected,
    ReturningToResetPosition,
    /// A run is under way; the state names the next photo.
    Stepping(TurntableSteppingState),
    /// A run is halted; the state names the next photo.
    Paused(TurntableSteppingState),
}

/// What the turntable machine is asked to do.
#[derive(Debug, Clone, Copy, PartialEq, Eq)]
pub enum TurntableWorkerCommand {
    Connect,
    Disconnect,
    ResetPosition,
    Step { job: TurntableSteppingJob },
    ResumeStepping,
    PauseStepping,
}

/// The task in hand while the machine waits for its result.
#[derive(Debug, Clone, Copy, PartialEq, Eq)]
pub enum TurntableTask {
    /// Nothing: the machine waits for a command.
    Idle,
    /// Connecting to the turntable and setting its speeds.
    Connecting,
    /// Returning to the home position.
    Resetting,
    /// Waiting for the photo of step `from`.
    Capture { from: TurntableSteppingState, wait: SyncWait },
    /// Moving the motors after the photo of step `from`.
    Advance { from: TurntableSteppingState },
}

/// An input to the turntable machine.
#[derive(Debug, Clone)]
pub enum TurntableEvent {
    /// A command from the control surface.
    Command(TurntableWorkerCommand),
    /// Between two steps, no command was waiting.
    NoCommand,
    /// Connecting and configuring the turntable succeeded, or not.
    DriverReady(bool),
    /// The return to the home position is over.
    ResetDone,
    /// The capture request could not be handed to the camera machine.
    CaptureNotSent,
    /// What was read from the camera's broadcast.
    Camera(CameraObservation),
    /// The motor advance was sent, or a command of it could not be written.
    Advanced(bool),
}

/// What to do next.
#[derive(Debug, Clone, Copy, PartialEq, Eq)]
pub enum TurntableAction {
    /// The event did not apply to the task in hand: nothing changed, nothing
    /// is published, and the task in hand goes on.
    Ignore,
    /// Wait for the next command and report it.
    WaitForCommand,
    /// Take a waiting command if there is one, without waiting: report it, or
    /// report `NoCommand`.
    CheckForCommand,
    /// Connect to the turntable and configure it; report `DriverReady`.
    ConnectDriver,
    /// Disconnect from the turntable, ignoring errors; then wait for a command.
    DisconnectDriver,
    /// Return to the home position; report `ResetDone`.
    ResetPosition,
    /// Drop the camera states read so far, ask the camera for photo `seq`,
    /// then read the camera's states one at a time and report each.
    RequestCapture { seq: u32, extra_delay_ms: u64 },
    /// Read the camera's next state and report it.
    ReadCamera,
    /// Rotate by one of `rotation_steps` steps, then tilt by `tilt_by`
    /// hundredths of a degree if given; report `Advanced`.
    Advance { rotation_steps: u16, tilt_by: Option<i64> },
}

/// The turntable machine: its published state and the task in hand.
#[derive(Debug, Clone, Copy, PartialEq, Eq)]
pub struct TurntableWorker {
    pub state: TurntableWorkerState,
    pub task: TurntableTask,
}

/// The wait for the photo of `from` has not ended yet.
pub open spec fn pending_wait(from: TurntableSteppingState, wait: SyncWait) -> bool {
    let seq = from.overall() as u32;
    wait == (SyncWait::AwaitCapturing { seq, lagged: false }) || wait == (SyncWait::AwaitCapturing {
        seq,
        lagged: true,
    }) || wait == (SyncWait::AwaitResult { seq })
}

/// The first step of the photo of `s`: its request.
pub open spec fn begin_step(s: TurntableSteppingState) -> (TurntableWorker, TurntableAction) {
    let seq = s.overall() as u32;
    (
        TurntableWorker {
            state: TurntableWorkerState::Stepping(s),
            task: TurntableTask::Capture { from: s, wait: SyncWait::begin(seq) },
        },
        TurntableAction::RequestCapture { seq, extra_delay_ms: s.job.capture_delay_ms },
    )
}

/// A halted run at `s`, waiting for a command.
pub open spec fn halted(s: TurntableSteppingState) -> (TurntableWorker, TurntableAction) {
    (
        TurntableWorker { state: TurntableWorkerState::Paused(s), task: TurntableTask::Idle },
        TurntableAction::WaitForCommand,
    )
}

/// Idle in `state`, waiting for a command.
pub open spec fn settled(state: TurntableWorkerState) -> (TurntableWorker, TurntableAction) {
    (TurntableWorker { state, task: TurntableTask::Idle }, TurntableAction::WaitForCommand)
}

/// The motor advance after the photo of `s`.
pub open spec fn advance_action(s: TurntableSteppingState) -> TurntableAction {
    TurntableAction::Advance {
        rotation_steps: s.job.rotation_steps,
        tilt_by: if s.tilts_after() {
            Some(s.job.increment() as i64)
        } else {
            None
        },
    }
}

impl TurntableWorker {
    /// The state and the task agree, and every stepping state is in range.
    pub open spec fn wf(self) -> bool {
        match self.task {
            TurntableTask::Idle => match self.state {
                TurntableWorkerState::Connecting => false,
                TurntableWorkerState::ReturningToResetPosition => false,
                TurntableWorkerState::Stepping(s) => s.wf(),
                TurntableWorkerState::Paused(s) => s.wf(),
                _ => true,
            },
            TurntableTask::Connecting => self.state is Connecting,
            TurntableTask::Resetting => self.state is ReturningToResetPosition,
            TurntableTask::Capture { from, wait } => {
                &&& self.state == TurntableWorkerState::Stepping(from)
                &&& from.wf()
                &&& pending_wait(from, wait)
            },
            TurntableTask::Advance { from } => {
                &&& self.state == TurntableWorkerState::Stepping(from)
                &&& from.wf()
            },
        }
    }

    /// No task is in hand and the machine stands between two steps of a run.
    pub open spec fn at_step_boundary(self, s: TurntableSteppingState) -> bool {
        self.task is Idle && self.state == TurntableWorkerState::Stepping(s)
    }

    /// What a command does when no task is in hand.
    pub open spec fn on_command(self, c: TurntableWorkerCommand) -> (TurntableWorker, TurntableAction) {
        match (c, self.state) {
            (TurntableWorkerCommand::Connect, TurntableWorkerState::Uninitialised) => (
                TurntableWorker {
                    state: TurntableWorkerState::Connecting,
                    task: TurntableTask::Connecting,
                },
                TurntableAction::ConnectDriver,
            ),
            (TurntableWorkerCommand::Disconnect, TurntableWorkerState::Connected)
            | (TurntableWorkerCommand::Disconnect, TurntableWorkerState::Stepping(_))
            | (TurntableWorkerCommand::Disconnect, TurntableWorkerState::Paused(_)) => (
                TurntableWorker {
                    state: TurntableWorkerState::Uninitialised,
                    task: TurntableTask::Idle,
                },
                TurntableAction::DisconnectDriver,
            ),
            (TurntableWorkerCommand::ResetPosition, TurntableWorkerState::Connected) => (
                TurntableWorker {
                    state: TurntableWorkerState::ReturningToResetPosition,
                    task: TurntableTask::Resetting,
                },
                TurntableAction::ResetPosition,
            ),
            (TurntableWorkerCommand::Step { job }, TurntableWorkerState::Connected) => if job.valid() {
                begin_step(job.start())
            } else {
                settled(TurntableWorkerState::Connected)
            },
            (TurntableWorkerCommand::PauseStepping, TurntableWorkerState::Stepping(s)) => halted(s),
            (TurntableWorkerCommand::ResumeStepping, TurntableWorkerState::Paused(s)) => begin_step(
                s,
            ),
            // Anything else changes nothing; a run goes on with its next step.
            (_, TurntableWorkerState::Stepping(s)) => begin_step(s),
            _ => settled(self.state),
        }
    }

    /// The machine after `ev`, and what to do next.
    pub open spec fn after(self, ev: TurntableEvent) -> (TurntableWorker, TurntableAction) {
        match (self.task, ev) {
            (TurntableTask::Idle, TurntableEvent::Command(c)) => self.on_command(c),
            (TurntableTask::Idle, TurntableEvent::NoCommand) => match self.state {
                TurntableWorkerState::Stepping(s) => begin_step(s),
                _ => settled(self.state),
            },
            (TurntableTask::Connecting, TurntableEvent::DriverReady(ok)) => if ok {
                settled(TurntableWorkerState::Connected)
            } else {
                settled(TurntableWorkerState::Uninitialised)
            },
            (TurntableTask::Resetting, TurntableEvent::ResetDone) => settled(
                TurntableWorkerState::Connected,
            ),
            (TurntableTask::Capture { from, wait: _ }, TurntableEvent::CaptureNotSent) => halted(
                from,
            ),
            (TurntableTask::Capture { from, wait }, TurntableEvent::Camera(o)) => {
                let w = wait.after(o);
                if w is Captured {
                    (
                        TurntableWorker { state: self.state, task: TurntableTask::Advance { from } },
                        advance_action(from),
                    )
                } else if w is CaptureFailed {
                    halted(from)
                } else {
                    (
                        TurntableWorker {
                            state: self.state,
                            task: TurntableTask::Capture { from, wait: w },
                        },
                        TurntableAction::ReadCamera,
                    )
                }
            },
            (TurntableTask::Advance { from }, TurntableEvent::Advanced(ok)) => if !ok {
                halted(from)
            } else if from.is_done() {
                settled(TurntableWorkerState::Connected)
            } else {
                (
                    TurntableWorker {
                        state: TurntableWorkerState::Stepping(from.next()),
                        task: TurntableTask::Idle,
                    },
                    TurntableAction::CheckForCommand,
                )
            },
            _ => (self, TurntableAction::Ignore),
        }
    }
}

fn start_step(s: TurntableSteppingState) -> (r: (TurntableWorker, TurntableAction))
    requires
        s.wf(),
    ensures
        r == begin_step(s),
        r.0.wf(),
{
    let seq = s.overall_step();
    let w = TurntableWorker {
        state: TurntableWorkerState::Stepping(s),
        task: TurntableTask::Capture { from: s, wait: SyncWait::AwaitCapturing { seq, lagged: false } },
    };
    (w, TurntableAction::RequestCapture { seq, extra_delay_ms: s.job.capture_delay_ms })
}

fn halt(s: TurntableSteppingState) -> (r: (TurntableWorker, TurntableAction))
    ensures
        r == halted(s),
{
    (
        TurntableWorker { state: TurntableWorkerState::Paused(s), task: TurntableTask::Idle },
        TurntableAction::WaitForCommand,
    )
}

fn settle(state: TurntableWorkerState) -> (r: (TurntableWorker, TurntableAction))
    ensures
        r == settled(state),
{
    (TurntableWorker { state, task: TurntableTask::Idle }, TurntableAction::WaitForCommand)
}

impl TurntableWorker {
    /// A machine with no turntable connected.
    pub fn new() -> (r: Self)
        ensures
            r.state is Uninitialised,
            r.task is Idle,
            r.wf(),
    {
        TurntableWorker { state: TurntableWorkerState::Uninitialised, task: TurntableTask::Idle }
    }

    fn command(&self, c: TurntableWorkerCommand) -> (r: (TurntableWorker, TurntableAction))
        requires
            self.wf(),
            self.task is Idle,
        ensures
            r == self.on_command(c),
            r.0.wf(),
    {
        match (c, self.state) {
            (TurntableWorkerCommand::Connect, TurntableWorkerState::Uninitialised) => (
                TurntableWorker {
                    state: TurntableWorkerState::Connecting,
                    task: TurntableTask::Connecting,
                },
                TurntableAction::ConnectDriver,
            ),
            (TurntableWorkerCommand::Disconnect, TurntableWorkerState::Connected)
            | (TurntableWorkerCommand::Disconnect, TurntableWorkerState::Stepping(_))
            | (TurntableWorkerCommand::Disconnect, TurntableWorkerState::Paused(_)) => (
                TurntableWorker {
                    state: TurntableWorkerState::Uninitialised,
                    task: TurntableTask::Idle,
                },
                TurntableAction::DisconnectDriver,
            ),
            (TurntableWorkerCommand::ResetPosition, TurntableWorkerState::Connected) => (
                TurntableWorker {
                    state: TurntableWorkerState::ReturningToResetPosition,
                    task: TurntableTask::Resetting,
                },
                TurntableAction::ResetPosition,
            ),
            (TurntableWorkerCommand::Step { job }, TurntableWorkerState::Connected) => {
                if job.rotation_steps >= 1 && job.tilt_steps >= 1 {
                    start_step(job.start_state())
                } else {
                    settle(TurntableWorkerState::Connected)
                }
            },
            (TurntableWorkerCommand::PauseStepping, TurntableWorkerState::Stepping(s)) => halt(s),
            (TurntableWorkerCommand::ResumeStepping, TurntableWorkerState::Paused(s)) => start_step(
                s,
            ),
            (_, TurntableWorkerState::Stepping(s)) => start_step(s),
            _ => settle(self.state),
        }
    }

    /// Take one event and say what to do next (see `after`).
    pub fn handle(&mut self, ev: TurntableEvent) -> (a: TurntableAction)
        requires
            old(self).wf(),
        ensures
            (*final(self), a) == old(self).after(ev),
            final(self).wf(),
    {
        let (next, a) = match (self.task, ev) {
            (TurntableTask::Idle, TurntableEvent::Command(c)) => self.command(c),
            (TurntableTask::Idle, TurntableEvent::NoCommand) => match self.state {
                TurntableWorkerState::Stepping(s) => start_step(s),
                _ => settle(self.state),
            },
            (TurntableTask::Connecting, TurntableEvent::DriverReady(ok)) => if ok {
                settle(TurntableWorkerState::Connected)
            } else {
                settle(TurntableWorkerState::Uninitialised)
            },
            (TurntableTask::Resetting, TurntableEvent::ResetDone) => settle(
                TurntableWorkerState::Connected,
            ),
            (TurntableTask::Capture { from, wait: _ }, TurntableEvent::CaptureNotSent) => halt(from),
            (TurntableTask::Capture { from, wait }, TurntableEvent::Camera(o)) => {
                let w = wait.observe(&o);
                match w {
                    SyncWait::Captured => {
                        let tilt_by = if from.rotation_step + 1 == from.job.rotation_steps
                            && !from.done() {
                            Some(from.job.tilt_step_size())
                        } else {
                            None
                        };
                        (
                            TurntableWorker {
                                state: self.state,
                                task: TurntableTask::Advance { from },
                            },
                            TurntableAction::Advance {
                                rotation_steps: from.job.rotation_steps,
                                tilt_by,
                            },
                        )
                    },
                    SyncWait::CaptureFailed => halt(from),
                    _ => (
                        TurntableWorker {
                            state: self.state,
                            task: TurntableTask::Capture { from, wait: w },
                        },
                        TurntableAction::ReadCamera,
                    ),
                }
            },
            (TurntableTask::Advance { from }, TurntableEvent::Advanced(ok)) => if !ok {
                halt(from)
            } else if from.done() {
                settle(TurntableWorkerState::Connected)
            } else {
                (
                    TurntableWorker {
                        state: TurntableWorkerState::Stepping(from.advance()),
                        task: TurntableTask::Idle,
                    },
                    TurntableAction::CheckForCommand,
                )
            },
            _ => (*self, TurntableAction::Ignore),
        };
        *self = next;
        a
    }
}

/// The camera seen capturing photo `seq`, then seen ready.
pub open spec fn capture_seen(seq: u32) -> (TurntableEvent, TurntableEvent) {
    (
        TurntableEvent::Camera(CameraObservation::State(CameraWorkerState::Capturing { seq })),
        TurntableEvent::Camera(CameraObservation::State(CameraWorkerState::Ready)),
    )
}

/// A run starts at its first photo: `Step` on a connected machine with a
/// valid job asks for photo 0 of the job's first state.
pub proof fn lemma_step_starts_at_zero(w: TurntableWorker, job: TurntableSteppingJob)
    requires
        w.wf(),
        w.task is Idle,
        w.state is Connected,
        job.valid(),
    ensures
        w.after(TurntableEvent::Command(TurntableWorkerCommand::Step { job })).0.state
            == TurntableWorkerState::Stepping(job.start()),
        w.after(TurntableEvent::Command(TurntableWorkerCommand::Step { job })).1
            == (TurntableAction::RequestCapture { seq: 0, extra_delay_ms: job.capture_delay_ms }),
{
}

/// One whole step from a step boundary at `s`: with no command waiting, the
/// machine asks for photo `s.overall()`; once the camera has taken it, the
/// motors rotate one step, and tilt one level exactly when the rotation
/// wraps and the photo was not the last; once they have moved, the machine
/// stands at the boundary before the next photo, whose index is one more, or
/// is connected and idle after the last photo.
pub proof fn lemma_step_cycle(w: TurntableWorker, s: TurntableSteppingState)
    requires
        w.wf(),
        w.at_step_boundary(s),
    ensures
        ({
            let k = s.overall() as u32;
            let (w1, a1) = w.after(TurntableEvent::NoCommand);
            let (w2, a2) = w1.after(capture_seen(k).0);
            let (w3, a3) = w2.after(capture_seen(k).1);
            let (w4, a4) = w3.after(TurntableEvent::Advanced(true));
            &&& a1 == (TurntableAction::RequestCapture { seq: k, extra_delay_ms: s.job.capture_delay_ms })
            &&& a2 is ReadCamera
            &&& a3 == (TurntableAction::Advance {
                rotation_steps: s.job.rotation_steps,
                tilt_by: if s.rotation_step as int + 1 == s.job.rotation_steps as int && !s.is_done() {
                    Some(s.job.increment() as i64)
                } else {
                    None
                },
            })
            &&& if s.is_done() {
                &&& w4.state is Connected
                &&& w4.task is Idle
                &&& a4 is WaitForCommand
            } else {
                &&& w4.at_step_boundary(s.next())
                &&& w4.wf()
                &&& s.next().overall() == s.overall() + 1
                &&& a4 is CheckForCommand
            }
        }),
{
    if !s.is_done() {
        lemma_next_step(s);
    }
}

/// A pause between steps halts the run at the state of the next photo, the
/// one reached by the last completed step; a resume goes on from that state
/// and asks for the same photo.
pub proof fn lemma_pause_then_resume(w: TurntableWorker, s: TurntableSteppingState)
    requires
        w.wf(),
        w.at_step_boundary(s),
    ensures
        ({
            let (p, a) = w.after(TurntableEvent::Command(TurntableWorkerCommand::PauseStepping));
            let (r, b) = p.after(TurntableEvent::Command(TurntableWorkerCommand::ResumeStepping));
            &&& p.state == TurntableWorkerState::Paused(s)
            &&& p.task is Idle
            &&& a is WaitForCommand
            &&& r.state == TurntableWorkerState::Stepping(s)
            &&& b == (TurntableAction::RequestCapture {
                seq: s.overall() as u32,
                extra_delay_ms: s.job.capture_delay_ms,
            })
        }),
{
}

/// After a completed step of `from`, a pause holds the state after that step.
pub proof fn lemma_pause_after_step(w: TurntableWorker, from: TurntableSteppingState)
    requires
        w.wf(),
        w.task == (TurntableTask::Advance { from }),
        !from.is_done(),
    ensures
        ({
            let (b, _) = w.after(TurntableEvent::Advanced(true));
            let (p, _) = b.after(TurntableEvent::Command(TurntableWorkerCommand::PauseStepping));
            &&& p.state == TurntableWorkerState::Paused(from.next())
            &&& from.next().overall() == from.overall() + 1
        }),
{
    lemma_next_step(from);
}

/// A failed capture at step `from` halts the run at `from`, unchanged. A
/// resume asks for the same photo again, and when that succeeds the run goes
/// on to the next index (or ends after the last photo); no photo that was
/// taken before is asked for again.
pub proof fn lemma_failed_capture_then_retry(
    w: TurntableWorker,
    from: TurntableSteppingState,
    wait: SyncWait,
    o: CameraObservation,
)
    requires
        w.wf(),
        w.task == (TurntableTask::Capture { from, wait }),
        wait.after(o) is CaptureFailed,
    ensures
        ({
            let k = from.overall() as u32;
            let (p, _) = w.after(TurntableEvent::Camera(o));
            let (r, b) = p.after(TurntableEvent::Command(TurntableWorkerCommand::ResumeStepping));
            let (r2, _) = r.after(capture_seen(k).0);
            let (r3, _) = r2.after(capture_seen(k).1);
            let (r4, _) = r3.after(TurntableEvent::Advanced(true));
            &&& p.state == TurntableWorkerState::Paused(from)
            &&& b == (TurntableAction::RequestCapture {
                seq: k,
                extra_delay_ms: from.job.capture_delay_ms,
            })
            &&& if from.is_done() {
                r4.state is Connected
            } else {
                &&& r4.state == TurntableWorkerState::Stepping(from.next())
                &&& from.next().overall() == from.overall() + 1
            }
        }),
{
    if !from.is_done() {
        lemma_next_step(from);
    }
}

} // verus!
