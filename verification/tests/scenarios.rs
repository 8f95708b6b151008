//! A job from the queue to its end, against stores held in memory.

use std::time::Duration;

use leaf_aggregation::blobs::{BlobKey, MemoryBlobStore};
use leaf_aggregation::circuits::LeafCircuitTable;
use leaf_aggregation::engine::{start, step, Directive, JobLabel, JobStatus, Report, WorkerState};
use leaf_aggregation::error::{ErrorKind, JobError};
use leaf_aggregation::generator::{ClaimedJob, LeafAggregationWitnessGenerator};
use leaf_aggregation::job::{
    ClosedFormInputWrapper, FriProofWrapper, LeafAggregationArtifacts, LeafWitnessInputs,
    LeafWitnessOutput,
};
use leaf_aggregation::keys::{ClosedFormInputKey, L1BatchNumber, LeafAggregationJobMetadata};
use leaf_aggregation::observe::{LogEvent, Phase};
use leaf_aggregation::persist::save_artifacts;
use leaf_aggregation::process::process_leaf_aggregation_job;
use leaf_aggregation::round::AggregationRound;
use leaf_aggregation::store::MemoryDatabase;

type Input = u64;
type Queue = u64;
type BaseProof = &'static str;
type RecursiveProof = &'static str;
type Circuit = String;

#[derive(Clone, Debug, PartialEq)]
enum Blob {
    Inputs(Vec<Input>, Queue),
    BaseProof(BaseProof),
    RecursiveProof(RecursiveProof),
    Aggregations(Vec<(u64, Queue)>),
    Circuit(Circuit),
}

fn metadata() -> LeafAggregationJobMetadata {
    LeafAggregationJobMetadata {
        id: 7,
        block_number: L1BatchNumber(42),
        circuit_id: 3,
        prover_job_ids_for_proofs: vec![101, 102],
    }
}

fn fetch(
    blobs: &MemoryBlobStore<Blob>,
    metadata: LeafAggregationJobMetadata,
) -> ClaimedJob<Input, Queue, BaseProof, RecursiveProof> {
    let key = metadata.closed_form_input_key();
    let closed_form_input = match blobs.get(BlobKey::ClosedFormInput(key)) {
        Some(Blob::Inputs(inputs, queue)) => Some(ClosedFormInputWrapper(inputs.clone(), *queue)),
        _ => None,
    };
    let mut proofs = Vec::new();
    for id in metadata.prover_job_ids_for_proofs.iter() {
        proofs.push(match blobs.get(BlobKey::Proof(*id)) {
            Some(Blob::BaseProof(proof)) => Some(FriProofWrapper::Base(*proof)),
            Some(Blob::RecursiveProof(proof)) => Some(FriProofWrapper::Recursive(*proof)),
            _ => None,
        });
    }
    ClaimedJob { metadata, closed_form_input, proofs }
}

/// One circuit per subset, as many subsets as the queue state says.
fn witnesses(
    inputs: LeafWitnessInputs<Input, Queue, BaseProof, u8, u16>,
) -> LeafWitnessOutput<Input, Queue, Circuit> {
    let (circuit, subsets, closed_form_inputs) = inputs.subsets;
    let mut aggregations = Vec::new();
    for subset in 0..subsets {
        aggregations.push((subset, 10 + subset, format!("circuit {} of {}", subset, circuit)));
    }
    LeafWitnessOutput { aggregations, closed_form_inputs }
}

fn write_all(
    blobs: &mut MemoryBlobStore<Blob>,
    generator: &LeafAggregationWitnessGenerator,
    artifacts: LeafAggregationArtifacts<Input, Queue, Circuit>,
) -> (usize, Vec<Result<String, String>>) {
    let plan = save_artifacts(&generator.leaf_circuits, artifacts).unwrap();
    let circuits = plan.circuits.len();
    let mut outcomes = Vec::new();
    let first = blobs.put(
        BlobKey::Aggregations(plan.aggregations_key),
        Blob::Aggregations(plan.aggregations),
    );
    let mut failed = first.is_err();
    outcomes.push(first);
    for (key, circuit) in plan.circuits {
        if failed {
            break;
        }
        let outcome = blobs.put(BlobKey::Circuit(key), Blob::Circuit(circuit));
        failed = outcome.is_err();
        outcomes.push(outcome);
    }
    (circuits, outcomes)
}

fn seeded_blobs(capacity: usize, with_inputs: bool) -> MemoryBlobStore<Blob> {
    let mut blobs = MemoryBlobStore::new(capacity);
    if with_inputs {
        let key = ClosedFormInputKey { block_number: L1BatchNumber(42), circuit_id: 3 };
        blobs.put(BlobKey::ClosedFormInput(key), Blob::Inputs(vec![5, 6, 7], 2)).unwrap();
    }
    blobs.put(BlobKey::Proof(101), Blob::BaseProof("p1")).unwrap();
    blobs.put(BlobKey::Proof(102), Blob::BaseProof("p2")).unwrap();
    blobs
}

#[test]
fn job_with_all_inputs_succeeds() {
    let generator = LeafAggregationWitnessGenerator::new(LeafCircuitTable::standard());
    let mut database = MemoryDatabase::new();
    assert!(database.insert_leaf_aggregation_job(metadata()));
    let mut blobs = seeded_blobs(16, true);

    let begin = start();
    assert_eq!(begin.directive, Directive::Poll { backoff: false });
    let claimed = database.get_next_leaf_aggregation_job().unwrap();
    assert_eq!(claimed, metadata());
    assert_eq!(database.leaf_jobs[0].status, JobStatus::Claimed);
    let label = JobLabel::of(&claimed);
    let t = step(begin.state, Report::Claimed { job: label });
    assert_eq!(t.directive, Directive::Prepare { job: label });

    let (job_id, prepared) = generator.get_next_job(Some(fetch(&blobs, claimed))).unwrap();
    assert_eq!(job_id, 7);
    let inputs = prepared.unwrap();
    assert_eq!(inputs.proofs, vec!["p1", "p2"]);
    let request = inputs.parameters_request();
    assert_eq!((request.circuit_id, request.leaf_circuit_id), (3, 5));
    let job = inputs.into_job(9u8, 900u16);
    let t = step(t.state, Report::Done { elapsed: Duration::from_millis(3) });
    assert_eq!(t.directive, Directive::Execute { job: label });
    assert_eq!(t.measurement.unwrap().phase, Phase::BlobFetch);
    assert_eq!(
        t.log,
        Some(LogEvent::Started {
            aggregation_round: AggregationRound::LeafAggregation,
            block_number: L1BatchNumber(42),
            circuit_id: 3,
        })
    );

    let artifacts = process_leaf_aggregation_job(job, witnesses);
    assert_eq!(artifacts.aggregations.len(), 2);
    assert_eq!(artifacts.circuit_id, 3);
    assert_eq!(artifacts.block_number, L1BatchNumber(42));
    assert_eq!(artifacts.closed_form_inputs, vec![5, 6, 7]);
    let t = step(t.state, Report::Done { elapsed: Duration::from_millis(50) });
    assert_eq!(t.directive, Directive::Persist { job: label });

    let (circuits, outcomes) = write_all(&mut blobs, &generator, artifacts);
    assert_eq!(circuits, 2);
    assert_eq!(outcomes.len(), 3);
    assert!(outcomes.iter().all(|outcome| outcome.is_ok()));
    let t = step(t.state, Report::Done { elapsed: Duration::from_millis(4) });
    assert_eq!(t.directive, Directive::Advance { job: label });

    let update = generator
        .save_result(7, Duration::from_millis(60), L1BatchNumber(42), 3, circuits, outcomes)
        .unwrap();
    assert_eq!(update.insert_prover_jobs.circuit_ids_and_urls.len(), 2);
    assert_eq!(update.update_node_aggregation_jobs_url.number_of_dependent_jobs, 2);
    assert_eq!(database.execute(update, false), Ok(()));
    let t = step(t.state, Report::Done { elapsed: Duration::from_millis(1) });
    assert_eq!(t.state, WorkerState::Polling);
    assert_eq!(t.directive, Directive::Poll { backoff: false });

    assert_eq!(database.prover_jobs.len(), 2);
    for row in database.prover_jobs.iter() {
        assert_eq!(row.block_number, L1BatchNumber(42));
        assert_eq!(row.aggregation_round, AggregationRound::NodeAggregation);
        assert_eq!(row.circuit_id, 5);
        assert_eq!(row.depth, 0);
    }
    assert_eq!(database.prover_jobs[0].url, "42_0_5_NodeAggregation_0.bin");
    assert_eq!(database.prover_jobs[1].url, "42_1_5_NodeAggregation_0.bin");
    assert_eq!(database.node_aggregations.len(), 1);
    assert_eq!(database.node_aggregations[0].number_of_dependent_jobs, 2);
    assert_eq!(database.node_aggregations[0].url, "aggregations_42_5_0.bin");
    assert_eq!(database.leaf_jobs[0].status, JobStatus::Succeeded);
    assert_eq!(database.leaf_jobs[0].time_taken, Some(Duration::from_millis(60)));
    assert!(database.get_next_leaf_aggregation_job().is_none());
}

#[test]
fn job_without_closed_form_inputs_fails() {
    let generator = LeafAggregationWitnessGenerator::new(LeafCircuitTable::standard());
    let mut database = MemoryDatabase::new();
    database.insert_leaf_aggregation_job(metadata());
    let blobs = seeded_blobs(16, false);

    let claimed = database.get_next_leaf_aggregation_job().unwrap();
    let label = JobLabel::of(&claimed);
    let t = step(start().state, Report::Claimed { job: label });
    let (job_id, prepared) = generator.get_next_job(Some(fetch(&blobs, claimed))).unwrap();
    let error = prepared.unwrap_err();
    assert_eq!(
        error,
        JobError::MissingClosedFormInputs {
            key: ClosedFormInputKey { block_number: L1BatchNumber(42), circuit_id: 3 }
        }
    );
    assert_eq!(error.kind(), ErrorKind::MissingInput);

    let t = step(t.state, Report::Failed { error });
    assert_eq!(t.state, WorkerState::Failing { job: label, stop: true });
    let (failed_job, text) = match t.directive {
        Directive::RecordFailure { job_id, error } => (job_id, error),
        other => panic!("unexpected directive {:?}", other),
    };
    assert_eq!(failed_job, job_id);
    assert_eq!(text, "leaf aggregation job artifacts missing: block 42, circuit 3");
    let statement = generator.save_failure(failed_job, text);
    assert!(database.mark_leaf_aggregation_job_failed(&statement.error, statement.job_id));
    let t = step(t.state, Report::FailureRecorded);
    assert_eq!(t.state, WorkerState::Stopped);
    assert_eq!(t.directive, Directive::Stop);

    assert_eq!(database.leaf_jobs[0].status, JobStatus::Failed);
    let recorded = database.leaf_jobs[0].error.clone().unwrap();
    assert!(recorded.contains("42") && recorded.contains("circuit 3"));
    assert!(database.prover_jobs.is_empty());
    assert!(database.node_aggregations.is_empty());
}

#[test]
fn job_whose_second_write_is_rejected_fails() {
    let generator = LeafAggregationWitnessGenerator::new(LeafCircuitTable::standard());
    let mut database = MemoryDatabase::new();
    database.insert_leaf_aggregation_job(metadata());
    // Three blobs are there already; the store takes one more.
    let mut blobs = seeded_blobs(4, true);

    let claimed = database.get_next_leaf_aggregation_job().unwrap();
    let label = JobLabel::of(&claimed);
    let (_, prepared) = generator.get_next_job(Some(fetch(&blobs, claimed))).unwrap();
    let artifacts = process_leaf_aggregation_job(prepared.unwrap().into_job(9u8, 900u16), witnesses);
    let (circuits, outcomes) = write_all(&mut blobs, &generator, artifacts);
    assert_eq!(outcomes.len(), 2);
    assert!(outcomes[0].is_ok());
    assert_eq!(outcomes[1], Err("blob store is full".to_string()));

    let error = generator
        .save_result(7, Duration::from_millis(60), L1BatchNumber(42), 3, circuits, outcomes)
        .unwrap_err();
    assert_eq!(
        error,
        JobError::Persistence { written: 1, reason: "blob store is full".to_string() }
    );
    let state = WorkerState::Working { job: label, status: JobStatus::Persisting };
    let t = step(state, Report::Failed { error });
    assert_eq!(t.state, WorkerState::Failing { job: label, stop: false });
    assert_eq!(
        t.directive,
        Directive::RecordFailure {
            job_id: 7,
            error: "saving artifacts failed after 1 blobs: blob store is full".to_string(),
        }
    );
    assert!(database.mark_leaf_aggregation_job_failed("saving artifacts failed", 7));
    let t = step(t.state, Report::FailureRecorded);
    assert_eq!(t.directive, Directive::Poll { backoff: false });

    assert!(database.prover_jobs.is_empty());
    assert!(database.node_aggregations.is_empty());
    assert_eq!(database.leaf_jobs[0].status, JobStatus::Failed);
    // The blob that was written stays; nothing refers to it.
    assert_eq!(blobs.writes.len(), 4);
    assert!(matches!(blobs.writes[3].0, BlobKey::Aggregations(_)));
}
