use vstd::prelude::*;
use crate::bridge::EffectConfig;
use crate::planes::ColorPlanes;

verus! {

/// One unit of work handed to the worker: decoded planes, the resolved
/// configuration, and the frame index the effect uses for time-varying
/// phase and noise.
#[derive(Clone, Debug)]
pub struct FrameJob {
    pub planes: ColorPlanes,
    pub config: EffectConfig,
    pub frame_index: usize,
}

/// What the worker publishes for one job: the effected planes, or the fact
/// that the computation failed.
#[derive(Clone, Debug)]
pub enum FrameOutcome {
    Done(ColorPlanes),
    Failed,
}

/// The worker's phase: blocked waiting for a job, applying the effect to
/// exactly one job, or terminated.
#[derive(Clone, Copy, Debug, PartialEq, Eq, Structural)]
pub enum WorkerPhase {
    Waiting,
    Processing,
    Dead,
}

/// Liveness as reported by `status`.
#[derive(Clone, Copy, Debug, PartialEq, Eq, Structural)]
pub enum ThreadStatus {
    Alive,
    Dead,
}

/// Whether `submit` took ownership of the job.
#[derive(Clone, Copy, Debug, PartialEq, Eq, Structural)]
pub enum SubmitResult {
    Accepted,
    Rejected,
}

/// Default completion-channel capacity: enough to absorb retrieval jitter
/// without queueing frames unboundedly.
pub const DEFAULT_COMPLETION_CAPACITY: usize = 3;

/// The mathematical state of a scheduler: the single-slot hand-off, the
/// bounded completion queue (front is oldest), its capacity, and the worker
/// phase.
pub ghost struct SchedulerModel {
    pub handoff: Option<FrameJob>,
    pub completed: Seq<FrameOutcome>,
    pub capacity: nat,
    pub phase: WorkerPhase,
}

impl SchedulerModel {
    /// The model invariant: a real capacity and a queue within it.
    pub open spec fn wf(self) -> bool {
        &&& self.capacity >= 1
        &&& self.completed.len() <= self.capacity
    }

    /// Jobs currently being computed: one while the worker is processing.
    pub open spec fn in_flight(self) -> nat {
        if self.phase is Processing {
            1
        } else {
            0
        }
    }
}

/// A freshly constructed scheduler: empty slot, empty queue, worker waiting.
pub open spec fn spec_fresh(capacity: nat) -> SchedulerModel {
    SchedulerModel { handoff: None, completed: Seq::empty(), capacity, phase: WorkerPhase::Waiting }
}

/// Submission: accepted exactly when the worker is alive and the hand-off
/// slot is free; a rejected submission changes nothing.
pub open spec fn spec_submit(m: SchedulerModel, job: FrameJob) -> (SchedulerModel, SubmitResult) {
    if m.phase is Dead || m.handoff is Some {
        (m, SubmitResult::Rejected)
    } else {
        (SchedulerModel { handoff: Some(job), ..m }, SubmitResult::Accepted)
    }
}

/// The worker picking up work: possible only while waiting with a job in the
/// slot; the slot empties and the worker starts processing.
pub open spec fn spec_worker_take(m: SchedulerModel) -> (SchedulerModel, Option<FrameJob>) {
    if m.phase is Waiting && m.handoff is Some {
        (
            SchedulerModel { handoff: None, phase: WorkerPhase::Processing, ..m },
            m.handoff,
        )
    } else {
        (m, None)
    }
}

/// The worker publishing the outcome of the job it was processing; it then
/// waits for the next job. Needs space in the completion queue (the real
/// worker blocks until there is).
pub open spec fn spec_worker_publish(m: SchedulerModel, outcome: FrameOutcome) -> SchedulerModel {
    SchedulerModel { completed: m.completed.push(outcome), phase: WorkerPhase::Waiting, ..m }
}

/// Non-blocking retrieval: the oldest completed outcome, if any.
pub open spec fn spec_poll(m: SchedulerModel) -> (SchedulerModel, Option<FrameOutcome>) {
    if m.completed.len() > 0 {
        (
            SchedulerModel { completed: m.completed.drop_first(), ..m },
            Some(m.completed.first()),
        )
    } else {
        (m, None)
    }
}

/// The worker terminating, by panic or return; any job it was processing is
/// lost.
pub open spec fn spec_worker_fail(m: SchedulerModel) -> SchedulerModel {
    SchedulerModel { phase: WorkerPhase::Dead, ..m }
}

/// Liveness: dead exactly when the worker phase is `Dead`.
pub open spec fn spec_status(m: SchedulerModel) -> ThreadStatus {
    if m.phase is Dead {
        ThreadStatus::Dead
    } else {
        ThreadStatus::Alive
    }
}

/// The bounded work-offload stage: one hand-off slot toward the worker, one
/// bounded completion queue back, and the worker's phase. The caller-side
/// operations never block; the worker-side operations are driven by whoever
/// runs the worker loop.
#[derive(Debug)]
pub struct Scheduler {
    pub handoff: Option<FrameJob>,
    pub completed: Vec<FrameOutcome>,
    pub capacity: usize,
    pub phase: WorkerPhase,
}

impl Scheduler {
    /// The model this concrete state denotes.
    pub open spec fn view(self) -> SchedulerModel {
        SchedulerModel {
            handoff: self.handoff,
            completed: self.completed@,
            capacity: self.capacity as nat,
            phase: self.phase,
        }
    }

    /// A fresh scheduler whose completion queue holds `capacity` outcomes.
    pub fn new(capacity: usize) -> (r: Scheduler)
        requires
            capacity >= 1,
        ensures
            r.view() == spec_fresh(capacity as nat),
            r.view().wf(),
    {
        let r = Scheduler { handoff: None, completed: Vec::new(), capacity, phase: WorkerPhase::Waiting };
        proof {
            assert(r.view() =~= spec_fresh(capacity as nat));
        }
        r
    }

    /// Non-blocking submission. Rejection means the caller keeps the job and
    /// is expected to drop this frame; under load that is the intended
    /// steady-state behavior, not a fault.
    pub fn submit(&mut self, job: FrameJob) -> (r: SubmitResult)
        ensures
            (final(self).view(), r) == spec_submit(old(self).view(), job),
    {
        match self.phase {
            WorkerPhase::Dead => SubmitResult::Rejected,
            _ => {
                if self.handoff.is_some() {
                    SubmitResult::Rejected
                } else {
                    self.handoff = Some(job);
                    proof {
                        assert(final(self).view() =~= spec_submit(old(self).view(), job).0);
                    }
                    SubmitResult::Accepted
                }
            },
        }
    }

    /// Non-blocking retrieval of the oldest completed outcome.
    pub fn poll(&mut self) -> (r: Option<FrameOutcome>)
        ensures
            (final(self).view(), r) == spec_poll(old(self).view()),
    {
        if self.completed.len() > 0 {
            let out = self.completed.remove(0);
            proof {
                assert(final(self).view() =~= spec_poll(old(self).view()).0);
                assert(Some(out) == spec_poll(old(self).view()).1);
            }
            Some(out)
        } else {
            None
        }
    }

    /// Cheap liveness check, performed before each submission so a dead
    /// worker is replaced before another job is lost.
    pub fn status(&self) -> (r: ThreadStatus)
        ensures
            r == spec_status(self.view()),
    {
        match self.phase {
            WorkerPhase::Dead => ThreadStatus::Dead,
            _ => ThreadStatus::Alive,
        }
    }

    /// Worker-side event: pick up the job in the hand-off slot, if the worker
    /// is waiting and a job is there.
    pub fn worker_take(&mut self) -> (r: Option<FrameJob>)
        ensures
            (final(self).view(), r) == spec_worker_take(old(self).view()),
    {
        match self.phase {
            WorkerPhase::Waiting => {
                if self.handoff.is_some() {
                    let job = self.handoff.take();
                    self.phase = WorkerPhase::Processing;
                    proof {
                        assert(final(self).view() =~= spec_worker_take(old(self).view()).0);
                    }
                    job
                } else {
                    None
                }
            },
            _ => None,
        }
    }

    /// Worker-side event: publish the outcome of the job being processed and
    /// return to waiting. The bounded queue must have space; the real worker
    /// blocks on its own side until it does, invisible to the caller.
    pub fn worker_publish(&mut self, outcome: FrameOutcome)
        requires
            old(self).view().phase is Processing,
            old(self).view().completed.len() < old(self).view().capacity,
        ensures
            final(self).view() == spec_worker_publish(old(self).view(), outcome),
    {
        self.completed.push(outcome);
        self.phase = WorkerPhase::Waiting;
        proof {
            assert(final(self).view() =~= spec_worker_publish(old(self).view(), outcome));
        }
    }

    /// Worker-side event: the worker terminated. Observable from the caller
    /// side only through `status`.
    pub fn worker_fail(&mut self)
        ensures
            final(self).view() == spec_worker_fail(old(self).view()),
    {
        self.phase = WorkerPhase::Dead;
        proof {
            assert(final(self).view() =~= spec_worker_fail(old(self).view()));
        }
    }

    /// The completion queue's capacity.
    pub fn capacity(&self) -> (r: usize)
        ensures
            r == self.view().capacity,
    {
        self.capacity
    }
}

/// Backpressure drops instead of queueing: once a submission is accepted and
/// the worker has not yet taken the job, any further submission is rejected
/// and leaves the scheduler unchanged.
pub proof fn lemma_backpressure_drop(m: SchedulerModel, j1: FrameJob, j2: FrameJob)
    ensures
        spec_submit(m, j1).1 == SubmitResult::Accepted ==> spec_submit(spec_submit(m, j1).0, j2)
            == (spec_submit(m, j1).0, SubmitResult::Rejected),
{
}

/// Every operation preserves the model invariant, and none puts more than
/// one job in flight.
pub proof fn lemma_operations_preserve_wf(m: SchedulerModel, job: FrameJob, outcome: FrameOutcome)
    requires
        m.wf(),
    ensures
        spec_submit(m, job).0.wf(),
        spec_worker_take(m).0.wf(),
        m.phase is Processing && m.completed.len() < m.capacity ==> spec_worker_publish(m, outcome).wf(),
        spec_poll(m).0.wf(),
        spec_worker_fail(m).wf(),
        spec_submit(m, job).0.in_flight() <= 1,
        spec_worker_take(m).0.in_flight() <= 1,
        spec_worker_publish(m, outcome).in_flight() <= 1,
        spec_poll(m).0.in_flight() <= 1,
        spec_worker_fail(m).in_flight() <= 1,
{
}

/// Events a scheduler run consists of, caller side and worker side together.
pub ghost enum SchedulerEvent {
    Submit(FrameJob),
    WorkerTake,
    WorkerPublish(FrameOutcome),
    Poll,
    WorkerFail,
}

/// The state after one event.
pub open spec fn spec_step(m: SchedulerModel, e: SchedulerEvent) -> SchedulerModel {
    match e {
        SchedulerEvent::Submit(job) => spec_submit(m, job).0,
        SchedulerEvent::WorkerTake => spec_worker_take(m).0,
        SchedulerEvent::WorkerPublish(outcome) => spec_worker_publish(m, outcome),
        SchedulerEvent::Poll => spec_poll(m).0,
        SchedulerEvent::WorkerFail => spec_worker_fail(m),
    }
}

/// The state after a sequence of events.
pub open spec fn spec_run(m: SchedulerModel, es: Seq<SchedulerEvent>) -> SchedulerModel
    decreases es.len(),
{
    if es.len() == 0 {
        m
    } else {
        spec_run(spec_step(m, es.first()), es.drop_first())
    }
}

/// Accepted submissions along a run.
pub open spec fn spec_count_accepted(m: SchedulerModel, es: Seq<SchedulerEvent>) -> nat
    decreases es.len(),
{
    if es.len() == 0 {
        0
    } else {
        let here: nat = match es.first() {
            SchedulerEvent::Submit(job) => if spec_submit(m, job).1 == SubmitResult::Accepted {
                1
            } else {
                0
            },
            _ => 0,
        };
        here + spec_count_accepted(spec_step(m, es.first()), es.drop_first())
    }
}

/// Successful worker pickups along a run.
pub open spec fn spec_count_takes(m: SchedulerModel, es: Seq<SchedulerEvent>) -> nat
    decreases es.len(),
{
    if es.len() == 0 {
        0
    } else {
        let here: nat = match es.first() {
            SchedulerEvent::WorkerTake => if spec_worker_take(m).1 is Some {
                1
            } else {
                0
            },
            _ => 0,
        };
        here + spec_count_takes(spec_step(m, es.first()), es.drop_first())
    }
}

/// Along any run, the hand-off slot accounts exactly for the difference
/// between accepted submissions and worker pickups.
pub proof fn lemma_slot_accounting(m: SchedulerModel, es: Seq<SchedulerEvent>)
    ensures
        spec_count_accepted(m, es) + slot_count(m) == spec_count_takes(m, es) + slot_count(
            spec_run(m, es),
        ),
    decreases es.len(),
{
    if es.len() > 0 {
        let e = es.first();
        let m1 = spec_step(m, e);
        lemma_slot_accounting(m1, es.drop_first());
        match e {
            SchedulerEvent::Submit(job) => {
                assert(spec_count_takes(m, es) == spec_count_takes(m1, es.drop_first()));
            },
            SchedulerEvent::WorkerTake => {
                assert(spec_count_accepted(m, es) == spec_count_accepted(m1, es.drop_first()));
            },
            _ => {
                assert(slot_count(m1) == slot_count(m));
            },
        }
    }
}

/// Jobs sitting in the hand-off slot.
pub open spec fn slot_count(m: SchedulerModel) -> nat {
    if m.handoff is Some {
        1
    } else {
        0
    }
}

/// However rapidly jobs are submitted, the worker serializes them: starting
/// from a fresh scheduler, the number of accepted submissions never exceeds
/// the number of times the worker became free to take one, plus the one job
/// that can sit in the slot.
pub proof fn lemma_at_most_one_ahead(capacity: nat, es: Seq<SchedulerEvent>)
    ensures
        spec_count_accepted(spec_fresh(capacity), es) <= spec_count_takes(spec_fresh(capacity), es)
            + 1,
{
    lemma_slot_accounting(spec_fresh(capacity), es);
}

/// Forcing the worker down is observable, and recovery works: the failed
/// scheduler reports `Dead`, a replacement reports `Alive`, accepts a fresh
/// job, hands it to the worker, and returns the worker's published outcome.
pub proof fn lemma_dead_worker_recovery(
    m: SchedulerModel,
    capacity: nat,
    job: FrameJob,
    outcome: FrameOutcome,
)
    requires
        capacity >= 1,
    ensures
        spec_status(spec_worker_fail(m)) == ThreadStatus::Dead,
        spec_status(spec_fresh(capacity)) == ThreadStatus::Alive,
        ({
            let (s1, accepted) = spec_submit(spec_fresh(capacity), job);
            let (s2, taken) = spec_worker_take(s1);
            let s3 = spec_worker_publish(s2, outcome);
            let (s4, polled) = spec_poll(s3);
            &&& accepted == SubmitResult::Accepted
            &&& taken == Some(job)
            &&& polled == Some(outcome)
            &&& s4.completed.len() == 0
        }),
{
}

} // verus!
