//! The job engine: the life of one job from the queue to its end, and the
//! decisions of a worker that takes one job after another.
//!
//! The worker does no work itself. It is told what happened and answers with
//! what to do next: poll the queue, prepare, compute, store, advance the
//! pipeline, or record a failure.

use std::time::Duration;
use vstd::prelude::*;
use crate::error::JobError;
use crate::keys::{L1BatchNumber, LeafAggregationJobMetadata};
use crate::observe::{metric_of, LogEvent, Measurement, Phase};
use crate::round::{stage_round, AggregationRound};

verus! {

/// Where a job is in its life.
#[derive(Clone, Copy, Debug, PartialEq, Eq, Structural)]
pub enum JobStatus {
    /// In the queue, claimed by nobody.
    Pending,
    /// Claimed by one worker.
    Claimed,
    /// Its inputs are fetched and checked.
    Preparing,
    /// Its witness is computed.
    Executing,
    /// Its blobs are written.
    Persisting,
    /// The transaction that creates its downstream jobs runs.
    Advancing,
    /// Its downstream jobs exist.
    Succeeded,
    /// It failed; the queue holds the reason.
    Failed,
}

impl JobStatus {
    /// The status after which nothing more happens to a job.
    pub open spec fn terminal(self) -> bool {
        self == JobStatus::Succeeded || self == JobStatus::Failed
    }

    /// How far a job has come.
    pub open spec fn progress(self) -> int {
        match self {
            JobStatus::Pending => 0,
            JobStatus::Claimed => 1,
            JobStatus::Preparing => 2,
            JobStatus::Executing => 3,
            JobStatus::Persisting => 4,
            JobStatus::Advancing => 5,
            JobStatus::Succeeded => 6,
            JobStatus::Failed => 6,
        }
    }

    /// Whether a job in this status can next be in status `next`: it moves one
    /// step on, or, once claimed and not yet at its end, it fails.
    pub open spec fn leads_to(self, next: JobStatus) -> bool {
        if next == JobStatus::Failed {
            1 <= self.progress() <= 5
        } else {
            next.progress() == self.progress() + 1
        }
    }

    /// Whether nothing more happens to a job in this status.
    pub fn is_terminal(self) -> (b: bool)
        ensures
            b == self.terminal(),
    {
        match self {
            JobStatus::Succeeded => true,
            JobStatus::Failed => true,
            _ => false,
        }
    }

    /// The status that follows when the step in progress succeeds, if the job
    /// has a step in progress.
    pub fn advanced(self) -> (next: Option<JobStatus>)
        ensures
            self.terminal() <==> next is None,
            next matches Some(status) ==> self.leads_to(status) && status != JobStatus::Failed,
    {
        match self {
            JobStatus::Pending => Some(JobStatus::Claimed),
            JobStatus::Claimed => Some(JobStatus::Preparing),
            JobStatus::Preparing => Some(JobStatus::Executing),
            JobStatus::Executing => Some(JobStatus::Persisting),
            JobStatus::Persisting => Some(JobStatus::Advancing),
            JobStatus::Advancing => Some(JobStatus::Succeeded),
            JobStatus::Succeeded => None,
            JobStatus::Failed => None,
        }
    }

    /// Whether a job in this status can fail.
    pub fn can_fail(self) -> (b: bool)
        ensures
            b == self.leads_to(JobStatus::Failed),
    {
        match self {
            JobStatus::Pending => false,
            JobStatus::Succeeded => false,
            JobStatus::Failed => false,
            _ => true,
        }
    }
}

/// A job that is at its end stays there, and no job goes back: every step
/// takes a job further or ends it.
pub proof fn status_only_moves_forward(status: JobStatus, next: JobStatus)
    requires
        status.leads_to(next),
    ensures
        !status.terminal(),
        status.progress() < next.progress(),
        next != JobStatus::Pending,
{
}

/// What names a claimed job: its identifier in the queue, its batch and its
/// circuit.
#[derive(Clone, Copy, Debug, PartialEq, Eq, Structural)]
pub struct JobLabel {
    pub job_id: u32,
    pub block_number: L1BatchNumber,
    pub circuit_id: u8,
}

impl JobLabel {
    /// The label of the job that `metadata` describes.
    pub fn of(metadata: &LeafAggregationJobMetadata) -> (label: JobLabel)
        ensures
            label.job_id == metadata.id,
            label.block_number == metadata.block_number,
            label.circuit_id == metadata.circuit_id,
    {
        JobLabel {
            job_id: metadata.id,
            block_number: metadata.block_number,
            circuit_id: metadata.circuit_id,
        }
    }
}

/// What a worker is waiting for.
#[derive(Clone, Copy, Debug, PartialEq, Eq, Structural)]
pub enum WorkerState {
    /// The answer of the queue to a poll.
    Polling,
    /// The end of the step that `status` names, for the job it has claimed.
    Working { job: JobLabel, status: JobStatus },
    /// The confirmation that the failure of its job is recorded. With `stop`
    /// the worker ends after that.
    Failing { job: JobLabel, stop: bool },
    /// Nothing: the worker has ended.
    Stopped,
}

/// What a worker is told.
#[derive(Debug, PartialEq, Eq)]
pub enum Report {
    /// The queue holds no job to claim.
    NothingToClaim,
    /// The queue gave this worker a job, and no other worker has it.
    Claimed { job: JobLabel },
    /// The step in progress succeeded, after `elapsed`.
    Done { elapsed: Duration },
    /// The step in progress failed.
    Failed { error: JobError },
    /// The failure is recorded in the queue.
    FailureRecorded,
}

/// What a worker does next.
#[derive(Debug, PartialEq, Eq)]
pub enum Directive {
    /// Ask the queue for a job; with `backoff`, wait before asking.
    Poll { backoff: bool },
    /// Fetch and check the inputs of the job.
    Prepare { job: JobLabel },
    /// Hand the job to the witness computation, away from the polling loop.
    Execute { job: JobLabel },
    /// Write the blobs of the outcome.
    Persist { job: JobLabel },
    /// Run the transaction that advances the pipeline.
    Advance { job: JobLabel },
    /// Record in the queue that the job failed, and why.
    RecordFailure { job_id: u32, error: String },
    /// End.
    Stop,
}

/// The answer of a worker to a report.
#[derive(Debug, PartialEq, Eq)]
pub struct Transition {
    pub state: WorkerState,
    pub directive: Directive,
    /// The duration to record, when the report ended a measured phase.
    pub measurement: Option<Measurement>,
    /// The line to log, when the witness computation starts or is complete.
    pub log: Option<LogEvent>,
}

impl WorkerState {
    /// Whether the state is one that a worker reaches: a job in work is in one
    /// of the four steps that the worker drives.
    pub open spec fn well_formed(self) -> bool {
        self matches WorkerState::Working { status, .. } ==> 2 <= status.progress() <= 5
    }

    /// The status of the job `job_id` as far as this worker knows it, if the
    /// worker holds that job.
    pub open spec fn status_of(self, job_id: u32) -> Option<JobStatus> {
        match self {
            WorkerState::Working { job, status } if job.job_id == job_id => Some(status),
            WorkerState::Failing { job, .. } if job.job_id == job_id => Some(JobStatus::Failed),
            _ => None,
        }
    }
}

/// The state of a worker after `report`. A report that the worker is not
/// waiting for ends it.
pub open spec fn next_state(state: WorkerState, report: Report) -> WorkerState {
    match (state, report) {
        (WorkerState::Polling, Report::NothingToClaim) => WorkerState::Polling,
        (WorkerState::Polling, Report::Claimed { job }) => WorkerState::Working {
            job,
            status: JobStatus::Preparing,
        },
        (WorkerState::Working { job, status }, Report::Done { .. }) => match status {
            JobStatus::Preparing => WorkerState::Working { job, status: JobStatus::Executing },
            JobStatus::Executing => WorkerState::Working { job, status: JobStatus::Persisting },
            JobStatus::Persisting => WorkerState::Working { job, status: JobStatus::Advancing },
            JobStatus::Advancing => WorkerState::Polling,
            _ => WorkerState::Stopped,
        },
        (WorkerState::Working { job, status }, Report::Failed { .. }) => match status {
            JobStatus::Preparing => WorkerState::Failing { job, stop: true },
            JobStatus::Executing => WorkerState::Failing { job, stop: false },
            JobStatus::Persisting => WorkerState::Failing { job, stop: false },
            JobStatus::Advancing => WorkerState::Failing { job, stop: false },
            _ => WorkerState::Stopped,
        },
        (WorkerState::Failing { stop, .. }, Report::FailureRecorded) => if stop {
            WorkerState::Stopped
        } else {
            WorkerState::Polling
        },
        _ => WorkerState::Stopped,
    }
}

/// Whether `directive` is what a worker does after `report`: what its new
/// state waits for. It waits before a poll only when the queue was empty, and
/// it records a failure under the description of the error.
pub open spec fn directive_after(state: WorkerState, report: Report, directive: Directive) -> bool {
    match next_state(state, report) {
        WorkerState::Polling => directive == (Directive::Poll {
            backoff: report is NothingToClaim,
        }),
        WorkerState::Working { job, status } => directive == match status {
            JobStatus::Preparing => Directive::Prepare { job },
            JobStatus::Executing => Directive::Execute { job },
            JobStatus::Persisting => Directive::Persist { job },
            _ => Directive::Advance { job },
        },
        WorkerState::Failing { job, .. } => {
            &&& directive matches Directive::RecordFailure { job_id, error }
            &&& job_id == job.job_id
            &&& report matches Report::Failed { error: reported }
            &&& error@ == reported.description()
        },
        WorkerState::Stopped => directive == Directive::Stop,
    }
}

/// The phase whose duration is recorded when the step that `status` names is
/// done.
pub open spec fn measured_phase(status: JobStatus) -> Option<Phase> {
    match status {
        JobStatus::Preparing => Some(Phase::BlobFetch),
        JobStatus::Executing => Some(Phase::WitnessGeneration),
        JobStatus::Persisting => Some(Phase::BlobSave),
        _ => None,
    }
}

/// Whether `measurement` is what a worker records after `report`: the duration
/// of a measured step that is done, labelled with the round of the stage.
pub open spec fn measurement_after(
    state: WorkerState,
    report: Report,
    measurement: Option<Measurement>,
) -> bool {
    match (state, report) {
        (WorkerState::Working { status, .. }, Report::Done { elapsed }) => match measured_phase(
            status,
        ) {
            Some(phase) => {
                &&& measurement matches Some(m)
                &&& m.phase == phase
                &&& m.metric@ == metric_of(phase)
                &&& m.aggregation_round == stage_round()
                &&& m.elapsed == elapsed
            },
            None => measurement is None,
        },
        _ => measurement is None,
    }
}

/// Whether `log` is what a worker logs after `report`: that the witness
/// computation of its job starts, when the job is prepared, and that it is
/// complete, when it is done.
pub open spec fn log_after(state: WorkerState, report: Report, log: Option<LogEvent>) -> bool {
    match (state, report) {
        (
            WorkerState::Working { job, status: JobStatus::Preparing },
            Report::Done { .. },
        ) => log == Some(
            LogEvent::Started {
                aggregation_round: stage_round(),
                block_number: job.block_number,
                circuit_id: job.circuit_id,
            },
        ),
        (
            WorkerState::Working { job, status: JobStatus::Executing },
            Report::Done { elapsed },
        ) => log == Some(
            LogEvent::Completed {
                block_number: job.block_number,
                circuit_id: job.circuit_id,
                elapsed,
            },
        ),
        _ => log is None,
    }
}

/// The state in which a worker begins, and the first thing it does: it polls
/// the queue at once.
pub fn start() -> (transition: Transition)
    ensures
        transition.state == WorkerState::Polling,
        transition.directive == (Directive::Poll { backoff: false }),
        transition.measurement is None,
        transition.log is None,
{
    Transition {
        state: WorkerState::Polling,
        directive: Directive::Poll { backoff: false },
        measurement: None,
        log: None,
    }
}

fn stopped() -> (transition: Transition)
    ensures
        transition.state == WorkerState::Stopped,
        transition.directive == Directive::Stop,
        transition.measurement is None,
        transition.log is None,
{
    Transition {
        state: WorkerState::Stopped,
        directive: Directive::Stop,
        measurement: None,
        log: None,
    }
}

/// The answer of a worker in `state` to `report`: its next state, what it does
/// next, and what it records and logs.
///
/// A job that was claimed is prepared, computed, stored and advanced, in that
/// order, each step after the one before succeeded. A failure of any step is
/// recorded against the job. After a failure of the preparation the worker
/// ends; after any other it polls again. An empty queue is no failure: the
/// worker waits and polls again.
pub fn step(state: WorkerState, report: Report) -> (transition: Transition)
    ensures
        transition.state == next_state(state, report),
        directive_after(state, report, transition.directive),
        measurement_after(state, report, transition.measurement),
        log_after(state, report, transition.log),
{
    match state {
        WorkerState::Polling => match report {
            Report::NothingToClaim => Transition {
                state: WorkerState::Polling,
                directive: Directive::Poll { backoff: true },
                measurement: None,
                log: None,
            },
            Report::Claimed { job } => Transition {
                state: WorkerState::Working { job, status: JobStatus::Preparing },
                directive: Directive::Prepare { job },
                measurement: None,
                log: None,
            },
            _ => stopped(),
        },
        WorkerState::Working { job, status } => match report {
            Report::Done { elapsed } => match status {
                JobStatus::Preparing => Transition {
                    state: WorkerState::Working { job, status: JobStatus::Executing },
                    directive: Directive::Execute { job },
                    measurement: Some(Measurement::new(Phase::BlobFetch, elapsed)),
                    log: Some(
                        LogEvent::Started {
                            aggregation_round: AggregationRound::LeafAggregation,
                            block_number: job.block_number,
                            circuit_id: job.circuit_id,
                        },
                    ),
                },
                JobStatus::Executing => Transition {
                    state: WorkerState::Working { job, status: JobStatus::Persisting },
                    directive: Directive::Persist { job },
                    measurement: Some(Measurement::new(Phase::WitnessGeneration, elapsed)),
                    log: Some(
                        LogEvent::Completed {
                            block_number: job.block_number,
                            circuit_id: job.circuit_id,
                            elapsed,
                        },
                    ),
                },
                JobStatus::Persisting => Transition {
                    state: WorkerState::Working { job, status: JobStatus::Advancing },
                    directive: Directive::Advance { job },
                    measurement: Some(Measurement::new(Phase::BlobSave, elapsed)),
                    log: None,
                },
                JobStatus::Advancing => Transition {
                    state: WorkerState::Polling,
                    directive: Directive::Poll { backoff: false },
                    measurement: None,
                    log: None,
                },
                _ => stopped(),
            },
            Report::Failed { error } => match status {
                JobStatus::Preparing => Transition {
                    state: WorkerState::Failing { job, stop: true },
                    directive: Directive::RecordFailure {
                        job_id: job.job_id,
                        error: error.describe(),
                    },
                    measurement: None,
                    log: None,
                },
                JobStatus::Executing | JobStatus::Persisting | JobStatus::Advancing => Transition {
                    state: WorkerState::Failing { job, stop: false },
                    directive: Directive::RecordFailure {
                        job_id: job.job_id,
                        error: error.describe(),
                    },
                    measurement: None,
                    log: None,
                },
                _ => stopped(),
            },
            _ => stopped(),
        },
        WorkerState::Failing { job, stop } => match report {
            Report::FailureRecorded => if stop {
                stopped()
            } else {
                Transition {
                    state: WorkerState::Polling,
                    directive: Directive::Poll { backoff: false },
                    measurement: None,
                    log: None,
                }
            },
            _ => stopped(),
        },
        WorkerState::Stopped => stopped(),
    }
}

/// What becomes of a transition once the worker was asked to stop: a worker
/// that would poll the queue ends instead, without a measurement or a log
/// line lost. A job in progress is not cancelled: every other transition
/// stays as it is, so that a claimed job runs to its success or its failure.
pub fn wind_down(transition: Transition) -> (last: Transition)
    ensures
        transition.state == WorkerState::Polling ==> {
            &&& last.state == WorkerState::Stopped
            &&& last.directive == Directive::Stop
            &&& last.measurement == transition.measurement
            &&& last.log == transition.log
        },
        transition.state != WorkerState::Polling ==> last == transition,
{
    match transition.state {
        WorkerState::Polling => Transition {
            state: WorkerState::Stopped,
            directive: Directive::Stop,
            measurement: transition.measurement,
            log: transition.log,
        },
        _ => transition,
    }
}

/// A worker holds at most the job it claimed, and takes it forward only: after
/// any report, a job that the worker held before is either no longer held or
/// in a status that its previous status leads to.
pub proof fn worker_moves_its_job_forward(state: WorkerState, report: Report, job_id: u32)
    requires
        state.well_formed(),
        state.status_of(job_id) is Some,
        next_state(state, report).status_of(job_id) is Some,
    ensures
        state.status_of(job_id)->Some_0.leads_to(next_state(state, report).status_of(job_id)->Some_0),
        next_state(state, report).well_formed(),
{
}

/// A worker never starts a step of a job before the step before it is done:
/// it computes only what was prepared, stores only what was computed, and
/// advances the pipeline only after the blobs were stored.
pub proof fn steps_follow_in_order(state: WorkerState, report: Report)
    requires
        state.well_formed(),
        next_state(state, report) matches WorkerState::Working { .. },
    ensures
        ({
            let next = next_state(state, report);
            match next->Working_status {
                JobStatus::Preparing => state == WorkerState::Polling && report is Claimed,
                status => {
                    &&& report is Done
                    &&& state matches WorkerState::Working { job, status: before }
                    &&& job == next->Working_job
                    &&& before.progress() + 1 == status.progress()
                },
            }
        }),
{
}

/// A failure is recorded only for the job that the worker holds, and once it
/// is recorded the worker does not take that job up again.
pub proof fn failed_job_is_not_resumed(state: WorkerState, report: Report, later: Report)
    requires
        next_state(state, report) matches WorkerState::Failing { .. },
    ensures
        state matches WorkerState::Working { job, .. } && job == next_state(
            state,
            report,
        )->Failing_job,
        report is Failed,
        !(next_state(next_state(state, report), later) matches WorkerState::Working { .. }),
{
}

} // verus!
