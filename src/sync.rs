//! Waiting for the camera to take the photo that a step asked for.
//!
//! The turntable machine sends `CaptureImage { seq }` and then reads the
//! camera's published states. The wait ends when the camera has gone to
//! `Capturing { seq }` and then to `Ready` (the photo was taken) or `Failed`.
//! States of other captures and other intervening states are passed over.
//!
//! The states arrive over a broadcast that may drop old states for a slow
//! reader; the reader is then told that it lagged. After a lag the
//! `Capturing { seq }` may have been among the lost states, so the next
//! `Ready` or `Failed` ends the wait as well.
use vstd::prelude::*;
use crate::camera::CameraWorkerState;

verus! {

/// What the turntable machine reads from the camera's broadcast.
#[derive(Debug, Clone)]
pub enum CameraObservation {
    /// A published camera state.
    State(CameraWorkerState),
    /// Some states were dropped before they could be read.
    Lagged,
}

/// Where the wait for photo `seq` stands.
#[derive(Debug, Clone, Copy, PartialEq, Eq)]
pub enum SyncWait {
    /// The camera has not yet been seen capturing photo `seq`; `lagged` says
    /// that states have been lost since the request was sent.
    AwaitCapturing { seq: u32, lagged: bool },
    /// The camera is capturing photo `seq`.
    AwaitResult { seq: u32 },
    /// The photo was taken.
    Captured,
    /// The camera reported a failure.
    CaptureFailed,
}

/// `o` is the camera capturing photo `seq`.
pub open spec fn names_capture(o: CameraObservation, seq: u32) -> bool {
    match o {
        CameraObservation::State(CameraWorkerState::Capturing { seq: s }) => s == seq,
        _ => false,
    }
}

/// `o` is the end of a capture: `Ready` or `Failed`.
pub open spec fn is_terminal(o: CameraObservation) -> bool {
    match o {
        CameraObservation::State(CameraWorkerState::Ready) => true,
        CameraObservation::State(CameraWorkerState::Failed) => true,
        _ => false,
    }
}

impl SyncWait {
    /// The wait right after photo `seq` was requested.
    pub open spec fn begin(seq: u32) -> SyncWait {
        SyncWait::AwaitCapturing { seq, lagged: false }
    }

    /// The wait after reading `o`.
    pub open spec fn after(self, o: CameraObservation) -> SyncWait {
        match self {
            SyncWait::AwaitCapturing { seq, lagged } => match o {
                CameraObservation::Lagged => SyncWait::AwaitCapturing { seq, lagged: true },
                CameraObservation::State(CameraWorkerState::Capturing { seq: s }) => if s == seq {
                    SyncWait::AwaitResult { seq }
                } else {
                    self
                },
                CameraObservation::State(CameraWorkerState::Ready) => if lagged {
                    SyncWait::Captured
                } else {
                    self
                },
                CameraObservation::State(CameraWorkerState::Failed) => if lagged {
                    SyncWait::CaptureFailed
                } else {
                    self
                },
                _ => self,
            },
            SyncWait::AwaitResult { seq } => match o {
                CameraObservation::State(CameraWorkerState::Ready) => SyncWait::Captured,
                CameraObservation::State(CameraWorkerState::Failed) => SyncWait::CaptureFailed,
                _ => self,
            },
            _ => self,
        }
    }

    /// The wait after reading each of `obs` in turn.
    pub open spec fn through(self, obs: Seq<CameraObservation>) -> SyncWait
        decreases obs.len(),
    {
        if obs.len() == 0 {
            self
        } else {
            self.after(obs[0]).through(obs.drop_first())
        }
    }

    /// The wait after reading `o`.
    pub fn observe(&self, o: &CameraObservation) -> (r: SyncWait)
        ensures
            r == self.after(*o),
    {
        match *self {
            SyncWait::AwaitCapturing { seq, lagged } => match o {
                CameraObservation::Lagged => SyncWait::AwaitCapturing { seq, lagged: true },
                CameraObservation::State(CameraWorkerState::Capturing { seq: s }) => if *s == seq {
                    SyncWait::AwaitResult { seq }
                } else {
                    *self
                },
                CameraObservation::State(CameraWorkerState::Ready) => if lagged {
                    SyncWait::Captured
                } else {
                    *self
                },
                CameraObservation::State(CameraWorkerState::Failed) => if lagged {
                    SyncWait::CaptureFailed
                } else {
                    *self
                },
                _ => *self,
            },
            SyncWait::AwaitResult { seq } => match o {
                CameraObservation::State(CameraWorkerState::Ready) => SyncWait::Captured,
                CameraObservation::State(CameraWorkerState::Failed) => SyncWait::CaptureFailed,
                _ => *self,
            },
            _ => *self,
        }
    }
}

proof fn lemma_through_concat(w: SyncWait, a: Seq<CameraObservation>, b: Seq<CameraObservation>)
    ensures
        w.through(a + b) == w.through(a).through(b),
    decreases a.len(),
{
    if a.len() > 0 {
        assert((a + b).drop_first() =~= a.drop_first() + b);
        assert((a + b)[0] == a[0]);
        lemma_through_concat(w.after(a[0]), a.drop_first(), b);
    } else {
        assert(a + b =~= b);
    }
}

proof fn lemma_unrelated_ignored(seq: u32, pre: Seq<CameraObservation>)
    requires
        forall|i: int|
            0 <= i < pre.len() ==> !(#[trigger] pre[i] is Lagged) && !names_capture(pre[i], seq),
    ensures
        SyncWait::begin(seq).through(pre) == SyncWait::begin(seq),
    decreases pre.len(),
{
    if pre.len() > 0 {
        assert(!(pre[0] is Lagged) && !names_capture(pre[0], seq));
        assert forall|i: int|
            0 <= i < pre.drop_first().len() implies !(#[trigger] pre.drop_first()[i] is Lagged)
            && !names_capture(pre.drop_first()[i], seq) by {
            assert(pre.drop_first()[i] == pre[i + 1]);
        }
        lemma_unrelated_ignored(seq, pre.drop_first());
    }
}

/// Ready to be ended by the next `Ready` or `Failed` for photo `seq`.
spec fn armed(w: SyncWait, seq: u32) -> bool {
    w == SyncWait::AwaitResult { seq } || w == (SyncWait::AwaitCapturing { seq, lagged: true })
}

proof fn lemma_armed_until_terminal(w: SyncWait, seq: u32, mid: Seq<CameraObservation>)
    requires
        armed(w, seq),
        forall|i: int| 0 <= i < mid.len() ==> !is_terminal(#[trigger] mid[i]),
    ensures
        armed(w.through(mid), seq),
    decreases mid.len(),
{
    if mid.len() > 0 {
        assert(!is_terminal(mid[0]));
        assert forall|i: int| 0 <= i < mid.drop_first().len() implies !is_terminal(
            #[trigger] mid.drop_first()[i],
        ) by {
            assert(mid.drop_first()[i] == mid[i + 1]);
        }
        lemma_armed_until_terminal(w.after(mid[0]), seq, mid.drop_first());
    }
}

/// The wait for photo `seq` ends with the camera's verdict whether or not its
/// `Capturing { seq }` state reached the reader. Before the request's states,
/// the reader may see any states but that one (without a lag); between the
/// capture and its end, any states but `Ready` and `Failed`, and lags. Then a
/// `Ready` ends the wait as taken and a `Failed` as failed, both when the
/// `Capturing { seq }` was read and when it was lost and a lag stands in its
/// place.
pub proof fn lemma_wait_resolves_despite_lag(
    seq: u32,
    pre: Seq<CameraObservation>,
    mid: Seq<CameraObservation>,
    taken: bool,
)
    requires
        forall|i: int|
            0 <= i < pre.len() ==> !(#[trigger] pre[i] is Lagged) && !names_capture(pre[i], seq),
        forall|i: int| 0 <= i < mid.len() ==> !is_terminal(#[trigger] mid[i]),
    ensures
        ({
            let last = if taken {
                CameraWorkerState::Ready
            } else {
                CameraWorkerState::Failed
            };
            let verdict = if taken {
                SyncWait::Captured
            } else {
                SyncWait::CaptureFailed
            };
            let seen = CameraObservation::State(CameraWorkerState::Capturing { seq });
            let end = seq![CameraObservation::State(last)];
            &&& SyncWait::begin(seq).through(pre + seq![seen] + mid + end) == verdict
            &&& SyncWait::begin(seq).through(pre + seq![CameraObservation::Lagged] + mid + end)
                == verdict
        }),
{
    let last = if taken {
        CameraWorkerState::Ready
    } else {
        CameraWorkerState::Failed
    };
    let seen = CameraObservation::State(CameraWorkerState::Capturing { seq });
    let end = seq![CameraObservation::State(last)];
    let w0 = SyncWait::begin(seq);
    lemma_unrelated_ignored(seq, pre);
    let x = seq![seen];
    let y = seq![CameraObservation::Lagged];
    lemma_through_concat(w0, pre + x + mid, end);
    lemma_through_concat(w0, pre + x, mid);
    lemma_through_concat(w0, pre, x);
    lemma_through_concat(w0, pre + y + mid, end);
    lemma_through_concat(w0, pre + y, mid);
    lemma_through_concat(w0, pre, y);
    assert(x.drop_first() =~= Seq::<CameraObservation>::empty());
    assert(y.drop_first() =~= Seq::<CameraObservation>::empty());
    assert(end.drop_first() =~= Seq::<CameraObservation>::empty());
    let a = w0.after(seen);
    let b = w0.after(CameraObservation::Lagged);
    assert(a.through(x.drop_first()) == a);
    assert(b.through(y.drop_first()) == b);
    assert(armed(w0.through(x), seq));
    assert(armed(w0.through(y), seq));
    lemma_armed_until_terminal(w0.through(x), seq, mid);
    lemma_armed_until_terminal(w0.through(y), seq, mid);
    let u = w0.through(x).through(mid);
    let v = w0.through(y).through(mid);
    assert(u.after(end[0]).through(end.drop_first()) == u.after(end[0]));
    assert(v.after(end[0]).through(end.drop_first()) == v.after(end[0]));
}

} // verus!
