//! The life of a job and the decisions of a worker.

use std::time::Duration;

use leaf_aggregation::engine::{
    start, step, wind_down, Directive, JobLabel, JobStatus, Report, Transition, WorkerState,
};
use leaf_aggregation::error::JobError;
use leaf_aggregation::keys::{L1BatchNumber, LeafAggregationJobMetadata};
use leaf_aggregation::observe::{LogEvent, Measurement, Phase};
use leaf_aggregation::round::AggregationRound;

fn label() -> JobLabel {
    JobLabel { job_id: 7, block_number: L1BatchNumber(42), circuit_id: 3 }
}

fn working(status: JobStatus) -> WorkerState {
    WorkerState::Working { job: label(), status }
}

fn done(millis: u64) -> Report {
    Report::Done { elapsed: Duration::from_millis(millis) }
}

fn failed() -> Report {
    Report::Failed { error: JobError::Computation { reason: "out of memory".to_string() } }
}

fn stop() -> Transition {
    Transition { state: WorkerState::Stopped, directive: Directive::Stop, measurement: None, log: None }
}

#[test]
fn worker_begins_with_a_poll() {
    let begin = start();
    assert_eq!(begin.state, WorkerState::Polling);
    assert_eq!(begin.directive, Directive::Poll { backoff: false });
    assert_eq!(begin.measurement, None);
    assert_eq!(begin.log, None);
}

#[test]
fn empty_queue_makes_the_worker_wait() {
    let t = step(WorkerState::Polling, Report::NothingToClaim);
    assert_eq!(t.state, WorkerState::Polling);
    assert_eq!(t.directive, Directive::Poll { backoff: true });
}

#[test]
fn label_is_taken_from_the_metadata() {
    let metadata = LeafAggregationJobMetadata {
        id: 7,
        block_number: L1BatchNumber(42),
        circuit_id: 3,
        prover_job_ids_for_proofs: vec![1],
    };
    assert_eq!(JobLabel::of(&metadata), label());
}

#[test]
fn steps_follow_each_other() {
    let t = step(WorkerState::Polling, Report::Claimed { job: label() });
    assert_eq!(t.state, working(JobStatus::Preparing));
    assert_eq!(t.directive, Directive::Prepare { job: label() });
    assert_eq!(t.measurement, None);
    assert_eq!(t.log, None);
    let t = step(t.state, done(1));
    assert_eq!(t.state, working(JobStatus::Executing));
    assert_eq!(t.directive, Directive::Execute { job: label() });
    let t = step(t.state, done(2));
    assert_eq!(t.state, working(JobStatus::Persisting));
    assert_eq!(t.directive, Directive::Persist { job: label() });
    let t = step(t.state, done(3));
    assert_eq!(t.state, working(JobStatus::Advancing));
    assert_eq!(t.directive, Directive::Advance { job: label() });
    let t = step(t.state, done(4));
    assert_eq!(t.state, WorkerState::Polling);
    assert_eq!(t.directive, Directive::Poll { backoff: false });
}

#[test]
fn measured_phases_are_recorded_with_the_round() {
    let t = step(working(JobStatus::Preparing), done(5));
    assert_eq!(
        t.measurement,
        Some(Measurement {
            phase: Phase::BlobFetch,
            metric: "prover_fri.witness_generation.blob_fetch_time",
            aggregation_round: AggregationRound::LeafAggregation,
            elapsed: Duration::from_millis(5),
        })
    );
    let t = step(working(JobStatus::Executing), done(6));
    assert_eq!(
        t.measurement,
        Some(Measurement {
            phase: Phase::WitnessGeneration,
            metric: "prover_fri.witness_generation.witness_generation_time",
            aggregation_round: AggregationRound::LeafAggregation,
            elapsed: Duration::from_millis(6),
        })
    );
    let t = step(working(JobStatus::Persisting), done(7));
    assert_eq!(
        t.measurement,
        Some(Measurement {
            phase: Phase::BlobSave,
            metric: "prover_fri.witness_generation.blob_save_time",
            aggregation_round: AggregationRound::LeafAggregation,
            elapsed: Duration::from_millis(7),
        })
    );
    assert_eq!(step(working(JobStatus::Advancing), done(8)).measurement, None);
}

#[test]
fn start_and_completion_are_logged() {
    let t = step(working(JobStatus::Preparing), done(5));
    assert_eq!(
        t.log,
        Some(LogEvent::Started {
            aggregation_round: AggregationRound::LeafAggregation,
            block_number: L1BatchNumber(42),
            circuit_id: 3,
        })
    );
    let t = step(working(JobStatus::Executing), done(6));
    assert_eq!(
        t.log,
        Some(LogEvent::Completed {
            block_number: L1BatchNumber(42),
            circuit_id: 3,
            elapsed: Duration::from_millis(6),
        })
    );
    assert_eq!(step(working(JobStatus::Persisting), done(7)).log, None);
    assert_eq!(step(working(JobStatus::Advancing), done(7)).log, None);
}

#[test]
fn failure_of_the_preparation_ends_the_worker() {
    let error = JobError::MissingProof { job_id: 7, proof_id: 12 };
    let t = step(working(JobStatus::Preparing), Report::Failed { error });
    assert_eq!(t.state, WorkerState::Failing { job: label(), stop: true });
    assert_eq!(
        t.directive,
        Directive::RecordFailure {
            job_id: 7,
            error: "proof 12 missing for leaf agg 7".to_string()
        }
    );
    assert_eq!(step(t.state, Report::FailureRecorded), stop());
}

#[test]
fn later_failures_are_recorded_and_the_worker_polls_again() {
    for status in [JobStatus::Executing, JobStatus::Persisting, JobStatus::Advancing] {
        let t = step(working(status), failed());
        assert_eq!(t.state, WorkerState::Failing { job: label(), stop: false });
        assert_eq!(
            t.directive,
            Directive::RecordFailure {
                job_id: 7,
                error: "witness generation failed: out of memory".to_string()
            }
        );
        assert_eq!(t.measurement, None);
        assert_eq!(t.log, None);
        let t = step(t.state, Report::FailureRecorded);
        assert_eq!(t.state, WorkerState::Polling);
        assert_eq!(t.directive, Directive::Poll { backoff: false });
    }
}

#[test]
fn unawaited_reports_end_the_worker() {
    assert_eq!(step(WorkerState::Polling, done(1)), stop());
    assert_eq!(step(WorkerState::Polling, failed()), stop());
    assert_eq!(step(WorkerState::Polling, Report::FailureRecorded), stop());
    assert_eq!(step(working(JobStatus::Executing), Report::NothingToClaim), stop());
    assert_eq!(step(working(JobStatus::Executing), Report::Claimed { job: label() }), stop());
    assert_eq!(step(working(JobStatus::Executing), Report::FailureRecorded), stop());
    let failing = WorkerState::Failing { job: label(), stop: false };
    assert_eq!(step(failing, done(1)), stop());
    assert_eq!(step(failing, failed()), stop());
    assert_eq!(step(WorkerState::Stopped, Report::NothingToClaim), stop());
    assert_eq!(step(WorkerState::Stopped, Report::Claimed { job: label() }), stop());
}

#[test]
fn worker_drives_only_the_four_steps() {
    for status in [
        JobStatus::Pending,
        JobStatus::Claimed,
        JobStatus::Succeeded,
        JobStatus::Failed,
    ] {
        assert_eq!(step(working(status), done(1)), stop());
        assert_eq!(step(working(status), failed()), stop());
    }
}

#[test]
fn status_advances_one_step_at_a_time() {
    assert_eq!(JobStatus::Pending.advanced(), Some(JobStatus::Claimed));
    assert_eq!(JobStatus::Claimed.advanced(), Some(JobStatus::Preparing));
    assert_eq!(JobStatus::Preparing.advanced(), Some(JobStatus::Executing));
    assert_eq!(JobStatus::Executing.advanced(), Some(JobStatus::Persisting));
    assert_eq!(JobStatus::Persisting.advanced(), Some(JobStatus::Advancing));
    assert_eq!(JobStatus::Advancing.advanced(), Some(JobStatus::Succeeded));
    assert_eq!(JobStatus::Succeeded.advanced(), None);
    assert_eq!(JobStatus::Failed.advanced(), None);
}

#[test]
fn only_the_ends_are_terminal() {
    assert!(JobStatus::Succeeded.is_terminal());
    assert!(JobStatus::Failed.is_terminal());
    for status in [
        JobStatus::Pending,
        JobStatus::Claimed,
        JobStatus::Preparing,
        JobStatus::Executing,
        JobStatus::Persisting,
        JobStatus::Advancing,
    ] {
        assert!(!status.is_terminal());
    }
}

#[test]
fn only_a_claimed_job_that_has_not_ended_can_fail() {
    assert!(!JobStatus::Pending.can_fail());
    assert!(JobStatus::Claimed.can_fail());
    assert!(JobStatus::Preparing.can_fail());
    assert!(JobStatus::Executing.can_fail());
    assert!(JobStatus::Persisting.can_fail());
    assert!(JobStatus::Advancing.can_fail());
    assert!(!JobStatus::Succeeded.can_fail());
    assert!(!JobStatus::Failed.can_fail());
}

#[test]
fn worker_asked_to_stop_claims_no_new_job() {
    assert_eq!(wind_down(start()), stop());
    assert_eq!(wind_down(step(WorkerState::Polling, Report::NothingToClaim)), stop());
    let last = wind_down(step(working(JobStatus::Advancing), done(1)));
    assert_eq!(last, stop());
    let recorded = step(WorkerState::Failing { job: label(), stop: false }, Report::FailureRecorded);
    assert_eq!(wind_down(recorded), stop());
}

#[test]
fn worker_asked_to_stop_finishes_its_job() {
    for status in [JobStatus::Preparing, JobStatus::Executing, JobStatus::Persisting] {
        let t = wind_down(step(working(status), done(2)));
        assert_eq!(t, step(working(status), done(2)));
        assert!(matches!(t.state, WorkerState::Working { .. }));
        let t = wind_down(step(working(status), failed()));
        assert_eq!(t, step(working(status), failed()));
        assert!(matches!(t.directive, Directive::RecordFailure { .. }));
    }
}
