//! A stepping job and the progress through it.
//!
//! A job takes `rotation_steps` photos per revolution at each of `tilt_steps`
//! tilt levels. The state names the next photo to take by its rotation step
//! and tilt step; one step is one photo followed by one motor advance.
use vstd::prelude::*;
use crate::turntable::{tilt_increment, RevoTurntable};
use vstd::arithmetic::div_mod::{lemma_mod_self_0, lemma_small_mod};

verus! {

/// The configuration of one capture run. Tilt angles are in hundredths of a degree.
#[derive(Debug, Clone, Copy, PartialEq, Eq)]
pub struct TurntableSteppingJob {
    pub rotation_steps: u16,
    pub tilt_lower: i32,
    pub tilt_upper: i32,
    pub tilt_steps: u16,
    pub capture_delay_ms: u64,
}

/// Where a run stands: the rotation and tilt step of the next photo.
#[derive(Debug, Clone, Copy, PartialEq, Eq)]
pub struct TurntableSteppingState {
    pub job: TurntableSteppingJob,
    pub rotation_step: u16,
    pub tilt_step: u16,
}

impl TurntableSteppingJob {
    /// A job can run when both step counts are at least one.
    pub open spec fn valid(self) -> bool {
        self.rotation_steps >= 1 && self.tilt_steps >= 1
    }

    /// The number of photos a run takes.
    pub open spec fn total(self) -> int {
        self.rotation_steps as int * self.tilt_steps as int
    }

    /// The tilt between two levels: the tilt range over the number of levels,
    /// in hundredths of a degree, rounded toward zero.
    pub open spec fn increment(self) -> int {
        tilt_increment(self.tilt_lower as int, self.tilt_upper as int, self.tilt_steps as int)
    }

    /// The state before the first photo.
    pub open spec fn start(self) -> TurntableSteppingState {
        TurntableSteppingState { job: self, rotation_step: 0, tilt_step: 0 }
    }

    /// The state before photo `i` of a run, counting from zero.
    pub open spec fn nth_state(self, i: nat) -> TurntableSteppingState
        decreases i,
    {
        if i == 0 {
            self.start()
        } else {
            self.nth_state((i - 1) as nat).next()
        }
    }

    /// The tilt between two levels (see `increment`).
    pub fn tilt_step_size(&self) -> (r: i64)
        requires
            self.tilt_steps >= 1,
        ensures
            r == self.increment(),
    {
        RevoTurntable::compute_tilt_step(self.tilt_lower, self.tilt_upper, self.tilt_steps)
    }

    /// The state before the first photo.
    pub fn start_state(&self) -> (r: TurntableSteppingState)
        ensures
            r == self.start(),
    {
        TurntableSteppingState { job: *self, rotation_step: 0, tilt_step: 0 }
    }
}

impl TurntableSteppingState {
    /// Both steps lie in their ranges, for a job that can run.
    pub open spec fn wf(self) -> bool {
        &&& self.job.valid()
        &&& self.rotation_step < self.job.rotation_steps
        &&& self.tilt_step < self.job.tilt_steps
    }

    /// The index of the next photo in the run; it is also the photo's sequence number.
    pub open spec fn overall(self) -> int {
        self.tilt_step as int * self.job.rotation_steps as int + self.rotation_step as int
    }

    /// The next photo is the last of the run.
    pub open spec fn is_done(self) -> bool {
        &&& self.tilt_step as int == self.job.tilt_steps as int - 1
        &&& self.rotation_step as int == self.job.rotation_steps as int - 1
    }

    /// The motor advance after this photo completes a revolution below the top
    /// tilt level, so the tilt moves up one level.
    pub open spec fn tilts_after(self) -> bool {
        self.rotation_step as int + 1 == self.job.rotation_steps as int && !self.is_done()
    }

    /// The state after this photo and its motor advance.
    pub open spec fn next(self) -> TurntableSteppingState {
        if self.rotation_step as int + 1 == self.job.rotation_steps as int {
            TurntableSteppingState {
                job: self.job,
                rotation_step: 0,
                tilt_step: (self.tilt_step + 1) as u16,
            }
        } else {
            TurntableSteppingState {
                job: self.job,
                rotation_step: (self.rotation_step + 1) as u16,
                tilt_step: self.tilt_step,
            }
        }
    }

    /// The index of the next photo, counting from zero.
    pub fn overall_step(&self) -> (r: u32)
        requires
            self.wf(),
        ensures
            r == self.overall(),
    {
        proof {
            lemma_overall_below_total(*self);
        }
        self.tilt_step as u32 * self.job.rotation_steps as u32 + self.rotation_step as u32
    }

    /// The number of photos in the run.
    pub fn total_steps(&self) -> (r: u32)
        ensures
            r == self.job.total(),
    {
        proof {
            lemma_total_fits(self.job);
        }
        self.job.rotation_steps as u32 * self.job.tilt_steps as u32
    }

    /// The share of the run done once the next photo is taken, as
    /// (photos, total): `(overall + 1, total)`.
    pub fn progress(&self) -> (r: (u32, u32))
        requires
            self.wf(),
        ensures
            r.0 == self.overall() + 1,
            r.1 == self.job.total(),
            0 < r.0 <= r.1,
    {
        proof {
            lemma_overall_below_total(*self);
        }
        (self.overall_step() + 1, self.total_steps())
    }

    /// The next photo is the last of the run.
    pub fn done(&self) -> (r: bool)
        requires
            self.wf(),
        ensures
            r == self.is_done(),
    {
        self.tilt_step >= self.job.tilt_steps - 1 && self.rotation_step >= self.job.rotation_steps
            - 1
    }

    /// The state after this photo and its motor advance.
    pub fn advance(&self) -> (r: TurntableSteppingState)
        requires
            self.wf(),
            !self.is_done(),
        ensures
            r == self.next(),
            r.wf(),
            r.overall() == self.overall() + 1,
    {
        proof {
            lemma_next_step(*self);
        }
        if self.rotation_step + 1 == self.job.rotation_steps {
            TurntableSteppingState { job: self.job, rotation_step: 0, tilt_step: self.tilt_step + 1 }
        } else {
            TurntableSteppingState {
                job: self.job,
                rotation_step: self.rotation_step + 1,
                tilt_step: self.tilt_step,
            }
        }
    }
}

proof fn lemma_total_fits(job: TurntableSteppingJob)
    ensures
        0 <= job.total() <= u32::MAX,
{
    let r = job.rotation_steps as int;
    let t = job.tilt_steps as int;
    assert(0 <= r * t <= 65535 * 65535) by (nonlinear_arith)
        requires
            0 <= r <= 65535,
            0 <= t <= 65535,
    ;
}

/// A state in range names a photo of the run: its index lies below the total,
/// and it is the last index exactly when the state is done.
pub proof fn lemma_overall_below_total(s: TurntableSteppingState)
    requires
        s.wf(),
    ensures
        0 <= s.overall() < s.job.total(),
        s.job.total() <= u32::MAX,
        s.is_done() <==> s.overall() == s.job.total() - 1,
{
    lemma_total_fits(s.job);
    let r = s.job.rotation_steps as int;
    let t = s.job.tilt_steps as int;
    let a = s.tilt_step as int;
    let b = s.rotation_step as int;
    assert(0 <= a * r + b < t * r) by (nonlinear_arith)
        requires
            0 <= a < t,
            0 <= b < r,
    ;
    assert(a * r + b == t * r - 1 ==> a == t - 1 && b == r - 1) by (nonlinear_arith)
        requires
            0 <= a < t,
            0 <= b < r,
    ;
    assert(a == t - 1 && b == r - 1 ==> a * r + b == t * r - 1) by (nonlinear_arith);
    assert(t * r == r * t) by (nonlinear_arith);
}

/// One step moves to the next index, within range; the tilt goes up one level
/// exactly when the rotation wraps from its last step to zero.
pub proof fn lemma_next_step(s: TurntableSteppingState)
    requires
        s.wf(),
        !s.is_done(),
    ensures
        s.next().wf(),
        s.next().job == s.job,
        s.next().overall() == s.overall() + 1,
        s.next().rotation_step as int == (s.rotation_step as int + 1) % (s.job.rotation_steps as int),
        s.next().tilt_step == s.tilt_step + (if s.tilts_after() { 1int } else { 0int }),
{
    let r = s.job.rotation_steps as int;
    let a = s.tilt_step as int;
    let b = s.rotation_step as int;
    if b + 1 == r {
        assert((a + 1) * r == a * r + r) by (nonlinear_arith);
        lemma_mod_self_0(r);
    } else {
        lemma_small_mod((b + 1) as nat, r as nat);
    }
}

proof fn lemma_nth_state(job: TurntableSteppingJob, i: nat)
    requires
        job.valid(),
        i < job.total(),
    ensures
        job.nth_state(i).wf(),
        job.nth_state(i).job == job,
        job.nth_state(i).overall() == i,
        job.nth_state(i).is_done() <==> i == job.total() - 1,
    decreases i,
{
    if i > 0 {
        let p = (i - 1) as nat;
        lemma_nth_state(job, p);
        lemma_next_step(job.nth_state(p));
    }
    lemma_overall_below_total(job.nth_state(i));
}

/// The photos of a run, by index: the sequence number of each, in the order taken.
pub open spec fn visited(job: TurntableSteppingJob) -> Seq<int> {
    Seq::new(job.total() as nat, |i: int| job.nth_state(i as nat).overall())
}

/// A run of a valid job takes `rotation_steps * tilt_steps` photos, numbered
/// `0, 1, 2, ...` in that order, so each index comes once and the indices
/// strictly increase; every state before the last is in range and not done,
/// and the state before the last photo is done, so the run ends there.
pub proof fn lemma_run_visits_each_step(job: TurntableSteppingJob)
    requires
        job.valid(),
    ensures
        visited(job) == Seq::new(job.total() as nat, |i: int| i),
        forall|i: nat| i < job.total() ==> (#[trigger] job.nth_state(i)).wf(),
        forall|i: nat| i < job.total() - 1 ==> !(#[trigger] job.nth_state(i)).is_done(),
        job.nth_state((job.total() - 1) as nat).is_done(),
{
    assert forall|i: nat| i < job.total() implies (#[trigger] job.nth_state(i)).wf()
        && job.nth_state(i).overall() == i && (job.nth_state(i).is_done() <==> i == job.total()
        - 1) by {
        lemma_nth_state(job, i);
    }
    assert(job.total() >= 1) by (nonlinear_arith)
        requires
            job.rotation_steps >= 1,
            job.tilt_steps >= 1,
            job.total() == job.rotation_steps as int * job.tilt_steps as int,
    ;
    assert(visited(job) =~= Seq::new(job.total() as nat, |i: int| i));
}

} // verus!
