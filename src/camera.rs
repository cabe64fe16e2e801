//! The camera's state machine, and the names of the files it writes.
//!
//! The machine owns the camera's connection and at most one capture in flight.
//! `CameraWorker::handle` takes a command or the result of the last task and
//! says what to do next; the program around it lists, connects and captures,
//! publishes the new state, and hands back the result.
use vstd::prelude::*;

verus! {

/// A camera found by listing: its model and the port it is on. Two specs
/// stand for the same camera when both fields agree.
#[derive(Debug, Clone)]
pub struct CameraSpec {
    pub model: String,
    pub port: String,
}

impl CameraSpec {
    /// The camera's human-readable name.
    pub fn name(&self) -> (r: String)
        ensures
            r@ == self.model@,
    {
        self.model.clone()
    }
}

/// The camera machine's state, published to every subscriber on each change.
#[derive(Debug, Clone)]
pub enum CameraWorkerState {
    Disconnected,
    GettingCameraList,
    CamerasListed { cameras: Vec<CameraSpec> },
    CameraConnecting,
    Ready,
    Failed,
    Capturing { seq: u32 },
}

/// What the camera machine is asked to do.
#[derive(Debug, Clone)]
pub enum CameraWorkerCommand {
    ListCameras,
    ConnectToCamera { camera_spec: CameraSpec },
    /// Take a photo after waiting `extra_delay_ms`; `seq` names it.
    CaptureImage { seq: u32, extra_delay_ms: u64 },
}

/// A photo just taken: its sequence number and where the file is.
#[derive(Debug, Clone, PartialEq, Eq)]
pub struct ImageHandle {
    pub seq: u32,
    pub path: String,
}

/// What a capture came to.
#[derive(Debug, Clone)]
pub enum CaptureOutcome {
    /// The camera reported an error.
    Failed,
    /// The photo was taken; `path` is where its file ended up, or `None`
    /// where the file could not be found after taking it.
    Taken { path: Option<String> },
}

/// An input to the camera machine.
#[derive(Debug, Clone)]
pub enum CameraEvent {
    Command(CameraWorkerCommand),
    /// The result of listing: the cameras found, or `None` on error.
    Listed(Option<Vec<CameraSpec>>),
    /// The result of connecting.
    Connected(bool),
    /// The result of the capture in flight.
    Captured(CaptureOutcome),
}

/// What to do after an event. Every action but `Ignore` follows a change of
/// state, which is published before the action is carried out.
#[derive(Debug, Clone)]
pub enum CameraAction {
    /// The event did not apply; nothing changed and nothing is published.
    Ignore,
    /// Publish the new state; nothing more.
    Publish,
    /// List the cameras and report `Listed`.
    ListCameras,
    /// Connect to this camera and report `Connected`.
    Connect(CameraSpec),
    /// Wait `extra_delay_ms`, capture, and report `Captured`.
    Capture { seq: u32, extra_delay_ms: u64 },
    /// Send this handle on to the image pipeline.
    Deliver(ImageHandle),
}

/// The camera machine.
#[derive(Debug)]
pub struct CameraWorker {
    pub state: CameraWorkerState,
}

impl CameraWorkerState {
    /// No task is in flight: listing, connecting and capturing are over.
    pub open spec fn is_idle(self) -> bool {
        match self {
            CameraWorkerState::GettingCameraList => false,
            CameraWorkerState::CameraConnecting => false,
            CameraWorkerState::Capturing { .. } => false,
            _ => true,
        }
    }

    /// A capture may start: the camera is connected and not busy.
    pub open spec fn can_capture(self) -> bool {
        self is Ready || self is Failed
    }

    /// A camera may be chosen: one was listed, or one is connected.
    pub open spec fn can_connect(self) -> bool {
        self is CamerasListed || self is Ready || self is Failed
    }
}

impl CameraWorker {
    /// A machine with no camera connected.
    pub fn new() -> (r: Self)
        ensures
            r.state is Disconnected,
    {
        CameraWorker { state: CameraWorkerState::Disconnected }
    }

    /// Take one event and say what to do next.
    ///
    /// A command starts a task only where no task is in flight: a listing from
    /// any idle state, a connection once a camera was listed or connected, a
    /// capture while `Ready` or `Failed`. Anything else is ignored, so at most
    /// one capture is in flight and no request is queued. A result applies
    /// only to the task in flight.
    pub fn handle(&mut self, ev: CameraEvent) -> (a: CameraAction)
        ensures
            a is Ignore ==> final(self).state == old(self).state,
            match ev {
                CameraEvent::Command(CameraWorkerCommand::ListCameras) => if old(self).state.is_idle() {
                    final(self).state is GettingCameraList && a is ListCameras
                } else {
                    a is Ignore
                },
                CameraEvent::Command(CameraWorkerCommand::ConnectToCamera { camera_spec }) => if old(
                    self,
                ).state.can_connect() {
                    final(self).state is CameraConnecting && a == CameraAction::Connect(camera_spec)
                } else {
                    a is Ignore
                },
                CameraEvent::Command(CameraWorkerCommand::CaptureImage { seq, extra_delay_ms }) => if old(
                    self,
                ).state.can_capture() {
                    &&& final(self).state == CameraWorkerState::Capturing { seq }
                    &&& a == CameraAction::Capture { seq, extra_delay_ms }
                } else {
                    a is Ignore
                },
                CameraEvent::Listed(found) => if old(self).state is GettingCameraList {
                    a is Publish && match found {
                        Some(cameras) => final(self).state == CameraWorkerState::CamerasListed {
                            cameras,
                        },
                        None => final(self).state is Disconnected,
                    }
                } else {
                    a is Ignore
                },
                CameraEvent::Connected(ok) => if old(self).state is CameraConnecting {
                    &&& a is Publish
                    &&& if ok {
                        final(self).state is Ready
                    } else {
                        final(self).state is Disconnected
                    }
                } else {
                    a is Ignore
                },
                CameraEvent::Captured(outcome) => match old(self).state {
                    CameraWorkerState::Capturing { seq } => match outcome {
                        CaptureOutcome::Failed => final(self).state is Failed && a is Publish,
                        CaptureOutcome::Taken { path: Some(path) } => {
                            &&& final(self).state is Ready
                            &&& a == CameraAction::Deliver(ImageHandle { seq, path })
                        },
                        CaptureOutcome::Taken { path: None } => final(self).state is Ready
                            && a is Publish,
                    },
                    _ => a is Ignore,
                },
            },
    {
        match ev {
            CameraEvent::Command(cmd) => match cmd {
                CameraWorkerCommand::ListCameras => {
                    match self.state {
                        CameraWorkerState::GettingCameraList
                        | CameraWorkerState::CameraConnecting
                        | CameraWorkerState::Capturing { .. } => CameraAction::Ignore,
                        _ => {
                            self.state = CameraWorkerState::GettingCameraList;
                            CameraAction::ListCameras
                        },
                    }
                },
                CameraWorkerCommand::ConnectToCamera { camera_spec } => {
                    match self.state {
                        CameraWorkerState::CamerasListed { .. }
                        | CameraWorkerState::Ready
                        | CameraWorkerState::Failed => {
                            self.state = CameraWorkerState::CameraConnecting;
                            CameraAction::Connect(camera_spec)
                        },
                        _ => CameraAction::Ignore,
                    }
                },
                CameraWorkerCommand::CaptureImage { seq, extra_delay_ms } => {
                    match self.state {
                        CameraWorkerState::Ready | CameraWorkerState::Failed => {
                            self.state = CameraWorkerState::Capturing { seq };
                            CameraAction::Capture { seq, extra_delay_ms }
                        },
                        _ => CameraAction::Ignore,
                    }
                },
            },
            CameraEvent::Listed(found) => {
                match self.state {
                    CameraWorkerState::GettingCameraList => {
                        self.state = match found {
                            Some(cameras) => CameraWorkerState::CamerasListed { cameras },
                            None => CameraWorkerState::Disconnected,
                        };
                        CameraAction::Publish
                    },
                    _ => CameraAction::Ignore,
                }
            },
            CameraEvent::Connected(ok) => {
                match self.state {
                    CameraWorkerState::CameraConnecting => {
                        self.state = if ok {
                            CameraWorkerState::Ready
                        } else {
                            CameraWorkerState::Disconnected
                        };
                        CameraAction::Publish
                    },
                    _ => CameraAction::Ignore,
                }
            },
            CameraEvent::Captured(outcome) => {
                match self.state {
                    CameraWorkerState::Capturing { seq } => {
                        let seq = seq;
                        match outcome {
                            CaptureOutcome::Failed => {
                                self.state = CameraWorkerState::Failed;
                                CameraAction::Publish
                            },
                            CaptureOutcome::Taken { path } => {
                                self.state = CameraWorkerState::Ready;
                                match path {
                                    Some(path) => CameraAction::Deliver(ImageHandle { seq, path }),
                                    None => CameraAction::Publish,
                                }
                            },
                        }
                    },
                    _ => CameraAction::Ignore,
                }
            },
        }
    }
}

} // verus!
