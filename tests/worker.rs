use std::collections::VecDeque;

use photo_turntable::camera::{
    CameraAction, CameraEvent, CameraSpec, CameraWorker, CameraWorkerCommand, CameraWorkerState,
    CaptureOutcome, ImageHandle,
};
use photo_turntable::stepping::{TurntableSteppingJob, TurntableSteppingState};
use photo_turntable::sync::CameraObservation;
use photo_turntable::worker::{
    TurntableAction, TurntableEvent, TurntableWorker, TurntableWorkerCommand, TurntableWorkerState,
};

/// A camera and a turntable simulated around the two machines.
struct Rig {
    table: TurntableWorker,
    camera: CameraWorker,
    broadcast: VecDeque<CameraWorkerState>,
    handles: Vec<ImageHandle>,
    requests: Vec<u32>,
    advances: Vec<Option<i64>>,
    published: Vec<TurntableWorkerState>,
    failing_captures: Vec<u32>,
}

impl Rig {
    fn new() -> Rig {
        let mut camera = CameraWorker::new();
        let spec = CameraSpec { model: String::from("sim"), port: String::from("sim:0") };
        camera.handle(CameraEvent::Command(CameraWorkerCommand::ListCameras));
        camera.handle(CameraEvent::Listed(Some(vec![spec.clone()])));
        camera.handle(CameraEvent::Command(CameraWorkerCommand::ConnectToCamera { camera_spec: spec }));
        camera.handle(CameraEvent::Connected(true));
        let mut rig = Rig {
            table: TurntableWorker::new(),
            camera,
            broadcast: VecDeque::new(),
            handles: Vec::new(),
            requests: Vec::new(),
            advances: Vec::new(),
            published: Vec::new(),
            failing_captures: Vec::new(),
        };
        let a = rig.table.handle(TurntableEvent::Command(TurntableWorkerCommand::Connect));
        assert_eq!(a, TurntableAction::ConnectDriver);
        assert_eq!(rig.table.state, TurntableWorkerState::Connecting);
        let a = rig.table.handle(TurntableEvent::DriverReady(true));
        assert_eq!(a, TurntableAction::WaitForCommand);
        assert_eq!(rig.table.state, TurntableWorkerState::Connected);
        rig
    }

    fn camera_event(&mut self, ev: CameraEvent) -> CameraAction {
        let a = self.camera.handle(ev);
        if !matches!(a, CameraAction::Ignore) {
            self.broadcast.push_back(self.camera.state.clone());
        }
        a
    }

    /// Hands `ev` to the turntable machine and carries out the actions that
    /// follow until it waits for a command. `pause_at` queues a pause that the
    /// machine finds at the boundary before that photo index.
    fn drive(&mut self, ev: TurntableEvent, pause_at: Option<u32>) -> TurntableAction {
        let mut a = self.table.handle(ev);
        loop {
            self.published.push(self.table.state);
            let ev = match a {
                TurntableAction::RequestCapture { seq, extra_delay_ms } => {
                    self.broadcast.clear();
                    self.requests.push(seq);
                    let c = self.camera_event(CameraEvent::Command(CameraWorkerCommand::CaptureImage { seq, extra_delay_ms }));
                    if let CameraAction::Capture { seq, .. } = c {
                        let outcome = if let Some(i) = self.failing_captures.iter().position(|s| *s == seq) {
                            self.failing_captures.remove(i);
                            CaptureOutcome::Failed
                        } else {
                            CaptureOutcome::Taken { path: Some(format!("/tmp/image_{}.jpg", seq)) }
                        };
                        if let CameraAction::Deliver(h) = self.camera_event(CameraEvent::Captured(outcome)) {
                            self.handles.push(h);
                        }
                    }
                    TurntableEvent::Camera(CameraObservation::State(self.broadcast.pop_front().unwrap()))
                },
                TurntableAction::ReadCamera => {
                    TurntableEvent::Camera(CameraObservation::State(self.broadcast.pop_front().unwrap()))
                },
                TurntableAction::Advance { tilt_by, .. } => {
                    self.advances.push(tilt_by);
                    TurntableEvent::Advanced(true)
                },
                TurntableAction::CheckForCommand => match (self.table.state, pause_at) {
                    (TurntableWorkerState::Stepping(s), Some(k)) if s.overall_step() == k => {
                        TurntableEvent::Command(TurntableWorkerCommand::PauseStepping)
                    },
                    _ => TurntableEvent::NoCommand,
                },
                other => return other,
            };
            a = self.table.handle(ev);
        }
    }
}

fn job(rotation_steps: u16, tilt_steps: u16) -> TurntableSteppingJob {
    TurntableSteppingJob { rotation_steps, tilt_lower: 0, tilt_upper: 1000, tilt_steps, capture_delay_ms: 0 }
}

#[test]
fn full_run_yields_eight_handles_and_ends_connected() {
    let mut rig = Rig::new();
    let a = rig.drive(TurntableEvent::Command(TurntableWorkerCommand::Step { job: job(4, 2) }), None);
    assert_eq!(a, TurntableAction::WaitForCommand);
    let seqs: Vec<u32> = rig.handles.iter().map(|h| h.seq).collect();
    assert_eq!(seqs, (0..8).collect::<Vec<u32>>());
    assert_eq!(rig.handles[7].path, "/tmp/image_7.jpg");
    assert_eq!(rig.table.state, TurntableWorkerState::Connected);
    assert_eq!(rig.advances, vec![None, None, None, Some(500), None, None, None, None]);
}

#[test]
fn pause_between_steps_and_resume_at_same_index() {
    let mut rig = Rig::new();
    rig.drive(TurntableEvent::Command(TurntableWorkerCommand::Step { job: job(4, 2) }), Some(3));
    let s = match rig.table.state {
        TurntableWorkerState::Paused(s) => s,
        other => panic!("unexpected state {:?}", other),
    };
    assert_eq!(s.overall_step(), 3);
    assert_eq!(rig.handles.len(), 3);
    rig.drive(TurntableEvent::Command(TurntableWorkerCommand::ResumeStepping), None);
    assert_eq!(rig.requests, (0..8).collect::<Vec<u32>>());
    assert_eq!(rig.table.state, TurntableWorkerState::Connected);
}

#[test]
fn failed_capture_pauses_and_retry_goes_on() {
    let mut rig = Rig::new();
    rig.failing_captures.push(2);
    rig.drive(TurntableEvent::Command(TurntableWorkerCommand::Step { job: job(4, 1) }), None);
    let s = match rig.table.state {
        TurntableWorkerState::Paused(s) => s,
        other => panic!("unexpected state {:?}", other),
    };
    assert_eq!((s.rotation_step, s.tilt_step, s.overall_step()), (2, 0, 2));
    assert!(matches!(rig.camera.state, CameraWorkerState::Failed));
    rig.drive(TurntableEvent::Command(TurntableWorkerCommand::ResumeStepping), None);
    assert_eq!(rig.requests, vec![0, 1, 2, 2, 3]);
    let seqs: Vec<u32> = rig.handles.iter().map(|h| h.seq).collect();
    assert_eq!(seqs, vec![0, 1, 2, 3]);
    assert_eq!(rig.table.state, TurntableWorkerState::Connected);
}

#[test]
fn failed_motion_pauses_before_the_step() {
    let mut w = TurntableWorker::new();
    w.handle(TurntableEvent::Command(TurntableWorkerCommand::Connect));
    w.handle(TurntableEvent::DriverReady(true));
    let a = w.handle(TurntableEvent::Command(TurntableWorkerCommand::Step { job: job(2, 1) }));
    assert_eq!(a, TurntableAction::RequestCapture { seq: 0, extra_delay_ms: 0 });
    w.handle(TurntableEvent::Camera(CameraObservation::State(CameraWorkerState::Capturing { seq: 0 })));
    let a = w.handle(TurntableEvent::Camera(CameraObservation::State(CameraWorkerState::Ready)));
    assert_eq!(a, TurntableAction::Advance { rotation_steps: 2, tilt_by: None });
    let a = w.handle(TurntableEvent::Advanced(false));
    assert_eq!(a, TurntableAction::WaitForCommand);
    let start = job(2, 1).start_state();
    assert_eq!(w.state, TurntableWorkerState::Paused(start));
}

#[test]
fn zero_step_job_is_rejected() {
    let mut w = TurntableWorker::new();
    w.handle(TurntableEvent::Command(TurntableWorkerCommand::Connect));
    w.handle(TurntableEvent::DriverReady(true));
    let a = w.handle(TurntableEvent::Command(TurntableWorkerCommand::Step { job: job(0, 1) }));
    assert_eq!(a, TurntableAction::WaitForCommand);
    assert_eq!(w.state, TurntableWorkerState::Connected);
}

#[test]
fn commands_outside_their_states_change_nothing() {
    let mut w = TurntableWorker::new();
    let a = w.handle(TurntableEvent::Command(TurntableWorkerCommand::ResetPosition));
    assert_eq!(a, TurntableAction::WaitForCommand);
    assert_eq!(w.state, TurntableWorkerState::Uninitialised);
    w.handle(TurntableEvent::Command(TurntableWorkerCommand::Connect));
    assert_eq!(w.handle(TurntableEvent::ResetDone), TurntableAction::Ignore);
    w.handle(TurntableEvent::DriverReady(false));
    assert_eq!(w.state, TurntableWorkerState::Uninitialised);
}

#[test]
fn reset_and_disconnect() {
    let mut w = TurntableWorker::new();
    w.handle(TurntableEvent::Command(TurntableWorkerCommand::Connect));
    w.handle(TurntableEvent::DriverReady(true));
    assert_eq!(w.handle(TurntableEvent::Command(TurntableWorkerCommand::ResetPosition)), TurntableAction::ResetPosition);
    assert_eq!(w.state, TurntableWorkerState::ReturningToResetPosition);
    w.handle(TurntableEvent::ResetDone);
    assert_eq!(w.state, TurntableWorkerState::Connected);
    assert_eq!(w.handle(TurntableEvent::Command(TurntableWorkerCommand::Disconnect)), TurntableAction::DisconnectDriver);
    assert_eq!(w.state, TurntableWorkerState::Uninitialised);
}

#[test]
fn paused_state_reports_progress() {
    let s = TurntableSteppingState { job: job(4, 2), rotation_step: 1, tilt_step: 1 };
    let mut w = TurntableWorker::new();
    w.state = TurntableWorkerState::Paused(s);
    assert_eq!(w.handle(TurntableEvent::Command(TurntableWorkerCommand::PauseStepping)), TurntableAction::WaitForCommand);
    let a = w.handle(TurntableEvent::Command(TurntableWorkerCommand::ResumeStepping));
    assert_eq!(a, TurntableAction::RequestCapture { seq: 5, extra_delay_ms: 0 });
    assert_eq!(s.progress(), (6, 8));
}
