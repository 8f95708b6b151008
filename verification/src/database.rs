//! Advancing the pipeline after a job: the statements that create the
//! downstream jobs, tell the next aggregation how many of them there are, and
//! mark the job as successful. The three belong to one transaction: either
//! all of them take effect or none does.

use std::time::Duration;
use vstd::prelude::*;
use crate::circuits::LeafCircuitTable;
use crate::error::JobError;
use crate::job::BlobUrls;
use crate::keys::L1BatchNumber;
use crate::persist::{all_written, circuit_urls};
use crate::round::{downstream_round, stage_round, AggregationRound};

verus! {

/// Creates one downstream job per entry of `circuit_ids_and_urls`, each with
/// the circuit it runs and the url of its input. The jobs belong to the round
/// `aggregation_round`, in its pass `depth`.
#[derive(Debug, PartialEq, Eq)]
pub struct InsertProverJobs {
    pub block_number: L1BatchNumber,
    pub circuit_ids_and_urls: Vec<(u8, String)>,
    pub aggregation_round: AggregationRound,
    pub depth: u16,
}

/// Tells the aggregation of `circuit_id` in the batch how many downstream jobs
/// it waits for, and where their queue states are.
#[derive(Debug, PartialEq, Eq)]
pub struct UpdateNodeAggregationJobsUrl {
    pub block_number: L1BatchNumber,
    pub circuit_id: u8,
    pub number_of_dependent_jobs: usize,
    pub depth: u16,
    pub url: String,
}

/// Marks the job as successful, with the time it took.
#[derive(Debug, PartialEq, Eq)]
pub struct MarkLeafAggregationAsSuccessful {
    pub job_id: u32,
    pub time_taken: Duration,
}

/// The statements of the one transaction that advances the pipeline after a
/// job, in the order in which they are issued.
#[derive(Debug, PartialEq, Eq)]
pub struct DatabaseUpdate {
    pub insert_prover_jobs: InsertProverJobs,
    pub update_node_aggregation_jobs_url: UpdateNodeAggregationJobsUrl,
    pub mark_leaf_aggregation_as_successful: MarkLeafAggregationAsSuccessful,
}

/// The transaction after job `job_id` of the batch `block_number`, whose
/// downstream jobs run the leaf circuit `leaf_circuit_id` and whose blobs are
/// at `blob_urls`.
pub open spec fn planned_update(
    leaf_circuit_id: u8,
    time_taken: Duration,
    block_number: L1BatchNumber,
    job_id: u32,
    blob_urls: BlobUrls,
) -> DatabaseUpdate {
    DatabaseUpdate {
        insert_prover_jobs: InsertProverJobs {
            block_number,
            circuit_ids_and_urls: blob_urls.circuit_ids_and_urls,
            aggregation_round: downstream_round(),
            depth: 0,
        },
        update_node_aggregation_jobs_url: UpdateNodeAggregationJobsUrl {
            block_number,
            circuit_id: leaf_circuit_id,
            number_of_dependent_jobs: blob_urls.circuit_ids_and_urls.len(),
            depth: 0,
            url: blob_urls.aggregations_urls,
        },
        mark_leaf_aggregation_as_successful: MarkLeafAggregationAsSuccessful { job_id, time_taken },
    }
}

/// Plans the transaction that advances the pipeline after a job of the circuit
/// `circuit_id`. The job fails when the circuit has no leaf circuit in `table`.
pub fn update_database(
    table: &LeafCircuitTable,
    time_taken: Duration,
    block_number: L1BatchNumber,
    job_id: u32,
    blob_urls: BlobUrls,
    circuit_id: u8,
) -> (result: Result<DatabaseUpdate, JobError>)
    ensures
        table.leaf_of(circuit_id) is None ==> result == Err::<DatabaseUpdate, JobError>(
            JobError::UnknownCircuit { circuit_id },
        ),
        table.leaf_of(circuit_id) matches Some(leaf_circuit_id) ==> result == Ok::<
            DatabaseUpdate,
            JobError,
        >(planned_update(leaf_circuit_id, time_taken, block_number, job_id, blob_urls)),
{
    let leaf_circuit_id: u8 = match table.get(circuit_id) {
        Some(leaf_circuit_id) => leaf_circuit_id,
        None => {
            return Err(JobError::UnknownCircuit { circuit_id });
        },
    };
    let number_of_dependent_jobs: usize = blob_urls.circuit_ids_and_urls.len();
    Ok(
        DatabaseUpdate {
            insert_prover_jobs: InsertProverJobs {
                block_number,
                circuit_ids_and_urls: blob_urls.circuit_ids_and_urls,
                aggregation_round: AggregationRound::NodeAggregation,
                depth: 0,
            },
            update_node_aggregation_jobs_url: UpdateNodeAggregationJobsUrl {
                block_number,
                circuit_id: leaf_circuit_id,
                number_of_dependent_jobs,
                depth: 0,
                url: blob_urls.aggregations_urls,
            },
            mark_leaf_aggregation_as_successful: MarkLeafAggregationAsSuccessful {
                job_id,
                time_taken,
            },
        },
    )
}

/// The jobs that a leaf-aggregation job creates belong to the round directly
/// after the round of the stage, never to that round or an earlier one.
pub proof fn downstream_jobs_are_in_the_next_round(
    leaf_circuit_id: u8,
    time_taken: Duration,
    block_number: L1BatchNumber,
    job_id: u32,
    blob_urls: BlobUrls,
)
    ensures
        stage_round().following() == Some(
            planned_update(
                leaf_circuit_id,
                time_taken,
                block_number,
                job_id,
                blob_urls,
            ).insert_prover_jobs.aggregation_round,
        ),
        stage_round().position() < downstream_round().position(),
{
}

/// Every downstream job of the transaction refers to a blob whose write was
/// reported as a success before the transaction was planned, and so does the
/// update of the next aggregation; and that update counts exactly the
/// downstream jobs that are created.
pub proof fn downstream_jobs_reference_written_blobs(
    outcomes: Seq<Result<String, String>>,
    circuits: nat,
    blob_urls: BlobUrls,
    leaf_circuit_id: u8,
    time_taken: Duration,
    block_number: L1BatchNumber,
    job_id: u32,
    i: int,
)
    requires
        all_written(outcomes, circuits as int),
        blob_urls.aggregations_urls == outcomes[0]->Ok_0,
        blob_urls.circuit_ids_and_urls@ == circuit_urls(leaf_circuit_id, outcomes),
        0 <= i < circuits,
    ensures
        ({
            let update = planned_update(leaf_circuit_id, time_taken, block_number, job_id, blob_urls);
            &&& update.insert_prover_jobs.circuit_ids_and_urls@.len() == circuits
            &&& update.update_node_aggregation_jobs_url.number_of_dependent_jobs == circuits
            &&& outcomes[i + 1] == Ok::<String, String>(
                update.insert_prover_jobs.circuit_ids_and_urls@[i].1,
            )
            &&& update.insert_prover_jobs.circuit_ids_and_urls@[i].0 == leaf_circuit_id
            &&& outcomes[0] == Ok::<String, String>(update.update_node_aggregation_jobs_url.url)
        }),
{
    assert(outcomes[i + 1] is Ok);
    assert(outcomes[0] is Ok);
}

} // verus!
