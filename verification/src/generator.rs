//! The leaf-aggregation witness generator: the stage as the job engine sees
//! it. Each method takes what the queue or the blob store answered and
//! decides what becomes of the job.

use std::time::Duration;
use vstd::prelude::*;
use crate::circuits::LeafCircuitTable;
use crate::database::{update_database, DatabaseUpdate};
use crate::error::{ErrorKind, JobError};
use crate::job::{BlobUrls, ClosedFormInputWrapper, FriProofWrapper};
use crate::keys::{L1BatchNumber, LeafAggregationJobMetadata};
use crate::persist::{all_written, circuit_urls, persistence_failure};
use crate::prepare::{
    get_artifacts, prepare_error, prepare_leaf_aggregation_job, recursive_proof_is_rejected,
    unwraps_to, PreparedInputs,
};
use crate::round::downstream_round;

verus! {

/// The witness generator of the leaf-aggregation stage.
#[derive(Debug, PartialEq, Eq)]
pub struct LeafAggregationWitnessGenerator {
    /// Which leaf circuit aggregates the proofs of which base-layer circuit.
    pub leaf_circuits: LeafCircuitTable,
}

/// A job as it was claimed from the queue, with what the blob store holds of
/// its inputs: the closed-form inputs, if present, and for each proof that the
/// job refers to, in order, the proof, if present.
#[derive(Debug, PartialEq, Eq)]
pub struct ClaimedJob<I, Q, B, R> {
    pub metadata: LeafAggregationJobMetadata,
    pub closed_form_input: Option<ClosedFormInputWrapper<I, Q>>,
    pub proofs: Vec<Option<FriProofWrapper<B, R>>>,
}

/// The statement that records the failure of a job in the queue.
#[derive(Debug, PartialEq, Eq)]
pub struct MarkLeafAggregationJobFailed {
    pub error: String,
    pub job_id: u32,
}

impl LeafAggregationWitnessGenerator {
    /// A generator that names leaf circuits by `leaf_circuits`.
    pub fn new(leaf_circuits: LeafCircuitTable) -> (generator: LeafAggregationWitnessGenerator)
        ensures
            generator.leaf_circuits == leaf_circuits,
    {
        LeafAggregationWitnessGenerator { leaf_circuits }
    }

    /// Why the claimed job cannot be prepared, if it cannot: its closed-form
    /// inputs are absent, or else what is wrong with its proofs or its circuit.
    pub open spec fn claim_error<I, Q, B, R>(&self, claimed: ClaimedJob<I, Q, B, R>) -> Option<
        JobError,
    > {
        if claimed.closed_form_input is None {
            Some(JobError::MissingClosedFormInputs { key: claimed.metadata.input_key() })
        } else {
            prepare_error(&self.leaf_circuits, &claimed.metadata, claimed.proofs@)
        }
    }

    /// Takes up what a poll of the queue brought. An empty queue brings
    /// nothing, and that is no failure. A claimed job comes back under its
    /// identifier: prepared, or with the failure that ends it.
    pub fn get_next_job<I, Q, B, R>(&self, claimed: Option<ClaimedJob<I, Q, B, R>>) -> (next: Option<
        (u32, Result<PreparedInputs<I, Q, B>, JobError>),
    >)
        ensures
            claimed is None <==> next is None,
            claimed matches Some(job) ==> {
                &&& next matches Some((job_id, prepared))
                &&& job_id == job.metadata.id
                &&& self.claim_error(job) matches Some(error) ==> prepared == Err::<
                    PreparedInputs<I, Q, B>,
                    JobError,
                >(error)
                &&& self.claim_error(job) is None ==> (prepared matches Ok(inputs) && {
                    &&& inputs.circuit_id == job.metadata.circuit_id
                    &&& inputs.block_number == job.metadata.block_number
                    &&& Some(inputs.leaf_circuit_id) == self.leaf_circuits.leaf_of(
                        job.metadata.circuit_id,
                    )
                    &&& Some(inputs.closed_form_inputs) == job.closed_form_input
                    &&& unwraps_to(job.proofs@, inputs.proofs@)
                })
            },
    {
        match claimed {
            None => None,
            Some(job) => {
                let job_id: u32 = job.metadata.id;
                match get_artifacts(&job.metadata, job.closed_form_input) {
                    Err(error) => Some((job_id, Err(error))),
                    Ok(closed_form_input) => Some(
                        (
                            job_id,
                            prepare_leaf_aggregation_job(
                                &self.leaf_circuits,
                                job.metadata,
                                closed_form_input,
                                job.proofs,
                            ),
                        ),
                    ),
                }
            },
        }
    }

    /// The statement that records that job `job_id` failed with `error`.
    pub fn save_failure(&self, job_id: u32, error: String) -> (statement:
        MarkLeafAggregationJobFailed)
        ensures
            statement.job_id == job_id,
            statement.error == error,
    {
        MarkLeafAggregationJobFailed { error, job_id }
    }

    /// Plans the transaction that advances the pipeline after job `job_id`,
    /// from what the blob store answered to the writes of the job's outcome:
    /// first the queue states, then the circuit of each of the `circuits`
    /// downstream jobs.
    ///
    /// There is a transaction only if every write succeeded: the blobs exist
    /// before any downstream job refers to them. Otherwise the job fails, and
    /// nothing of the pipeline changes.
    pub fn save_result(
        &self,
        job_id: u32,
        time_taken: Duration,
        block_number: L1BatchNumber,
        circuit_id: u8,
        circuits: usize,
        outcomes: Vec<Result<String, String>>,
    ) -> (result: Result<DatabaseUpdate, JobError>)
        ensures
            result is Ok <==> all_written(outcomes@, circuits as int) && self.leaf_circuits.leaf_of(
                circuit_id,
            ) is Some,
            result matches Ok(update) ==> {
                let leaf_circuit_id = self.leaf_circuits.leaf_of(circuit_id)->Some_0;
                let insert = update.insert_prover_jobs;
                let node = update.update_node_aggregation_jobs_url;
                let mark = update.mark_leaf_aggregation_as_successful;
                &&& insert.block_number == block_number
                &&& insert.circuit_ids_and_urls@ == circuit_urls(leaf_circuit_id, outcomes@)
                &&& insert.aggregation_round == downstream_round()
                &&& insert.depth == 0
                &&& node.block_number == block_number
                &&& node.circuit_id == leaf_circuit_id
                &&& node.number_of_dependent_jobs == circuits
                &&& node.depth == 0
                &&& node.url == outcomes[0]->Ok_0
                &&& mark.job_id == job_id
                &&& mark.time_taken == time_taken
            },
            !all_written(outcomes@, circuits as int) ==> (result matches Err(error)
                && persistence_failure(outcomes@, circuits as int, error)),
            all_written(outcomes@, circuits as int) && self.leaf_circuits.leaf_of(circuit_id) is None
                ==> result == Err::<DatabaseUpdate, JobError>(JobError::UnknownCircuit { circuit_id }),
    {
        let leaf_circuit_id: u8 = match self.leaf_circuits.get(circuit_id) {
            Some(leaf_circuit_id) => leaf_circuit_id,
            None => {
                // The urls are gathered all the same: a failed write is
                // reported before an unknown circuit.
                return match BlobUrls::collect(circuit_id, circuits, outcomes) {
                    Err(error) => Err(error),
                    Ok(_) => Err(JobError::UnknownCircuit { circuit_id }),
                };
            },
        };
        match BlobUrls::collect(leaf_circuit_id, circuits, outcomes) {
            Err(error) => Err(error),
            Ok(blob_urls) => update_database(
                &self.leaf_circuits,
                time_taken,
                block_number,
                job_id,
                blob_urls,
                circuit_id,
            ),
        }
    }
}

/// A claimed job with a recursive-layer proof among its proofs is never
/// prepared: the generator has a failure to report for it, of the class of
/// missing inputs, and so hands out no inputs to compute on.
pub proof fn job_with_recursive_proof_is_not_prepared<I, Q, B, R>(
    generator: LeafAggregationWitnessGenerator,
    claimed: ClaimedJob<I, Q, B, R>,
    position: int,
)
    requires
        0 <= position < claimed.proofs@.len(),
        claimed.proofs@[position] is Some,
        claimed.proofs@[position]->Some_0 is Recursive,
    ensures
        generator.claim_error(claimed) is Some,
        generator.claim_error(claimed)->Some_0.class() == ErrorKind::MissingInput,
{
    recursive_proof_is_rejected(&generator.leaf_circuits, &claimed.metadata, claimed.proofs@, position);
}

} // verus!
