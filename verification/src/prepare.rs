//! Preparation of a claimed job: its closed-form inputs must be present, every
//! proof it refers to must be present and of the base layer, and its circuit
//! must have a leaf circuit. Only then are parameters asked for.

use vstd::prelude::*;
use crate::circuits::LeafCircuitTable;
use crate::error::JobError;
use crate::job::{ClosedFormInputWrapper, FriProofWrapper, LeafAggregationWitnessGeneratorJob};
use crate::keys::{L1BatchNumber, LeafAggregationJobMetadata};

verus! {

/// The first thing wrong with the proofs fetched for a job, looking at the
/// referenced proofs in order from position `from`: a proof that is absent, a
/// proof of a recursive layer, or, when all referenced proofs are in order,
/// proofs beyond those referenced.
pub open spec fn first_proof_error<B, R>(
    job_id: u32,
    proof_ids: Seq<u32>,
    proofs: Seq<Option<FriProofWrapper<B, R>>>,
    from: int,
) -> Option<JobError>
    decreases proof_ids.len() - from,
{
    if from < 0 {
        None
    } else if from >= proof_ids.len() {
        if proofs.len() > proof_ids.len() {
            Some(JobError::UnreferencedProofs { job_id })
        } else {
            None
        }
    } else if from >= proofs.len() {
        Some(JobError::MissingProof { job_id, proof_id: proof_ids[from] })
    } else {
        match proofs[from] {
            None => Some(JobError::MissingProof { job_id, proof_id: proof_ids[from] }),
            Some(FriProofWrapper::Recursive(_)) => Some(
                JobError::UnexpectedRecursiveProof { job_id, proof_id: proof_ids[from] },
            ),
            Some(FriProofWrapper::Base(_)) => first_proof_error(job_id, proof_ids, proofs, from + 1),
        }
    }
}

/// Whether `base` holds, in order, the base-layer proofs that `proofs` wraps.
pub open spec fn unwraps_to<B, R>(proofs: Seq<Option<FriProofWrapper<B, R>>>, base: Seq<B>) -> bool {
    &&& base.len() == proofs.len()
    &&& forall|i: int|
        0 <= i < proofs.len() ==> #[trigger] proofs[i] == Some(
            FriProofWrapper::<B, R>::Base(base[i]),
        )
}

/// Takes the base-layer proofs out of what was fetched for the proof
/// identifiers `proof_ids`, or says what is wrong with the first proof that is
/// not in order.
pub fn expect_base_proofs<B, R>(
    job_id: u32,
    proof_ids: &Vec<u32>,
    proofs: Vec<Option<FriProofWrapper<B, R>>>,
) -> (result: Result<Vec<B>, JobError>)
    ensures
        first_proof_error(job_id, proof_ids@, proofs@, 0) matches Some(error) ==> result == Err::<
            Vec<B>,
            JobError,
        >(error),
        first_proof_error(job_id, proof_ids@, proofs@, 0) is None ==> (result matches Ok(base)
            && unwraps_to(proofs@, base@) && base.len() == proof_ids.len()),
{
    let mut base: Vec<B> = Vec::new();
    let mut position: usize = 0;
    for fetched in it: proofs
        invariant
            position == it.index(),
            it.seq() == proofs@,
            position <= proof_ids.len(),
            base.len() == position,
            forall|i: int|
                0 <= i < position ==> #[trigger] proofs@[i] == Some(
                    FriProofWrapper::<B, R>::Base(base[i]),
                ),
            first_proof_error(job_id, proof_ids@, proofs@, 0) == first_proof_error(
                job_id,
                proof_ids@,
                proofs@,
                position as int,
            ),
    {
        if position >= proof_ids.len() {
            return Err(JobError::UnreferencedProofs { job_id });
        }
        match fetched {
            Some(FriProofWrapper::Base(base_proof)) => {
                base.push(base_proof);
            },
            Some(FriProofWrapper::Recursive(_)) => {
                return Err(
                    JobError::UnexpectedRecursiveProof { job_id, proof_id: proof_ids[position] },
                );
            },
            None => {
                return Err(JobError::MissingProof { job_id, proof_id: proof_ids[position] });
            },
        }
        position = position + 1;
    }
    if position < proof_ids.len() {
        return Err(JobError::MissingProof { job_id, proof_id: proof_ids[position] });
    }
    Ok(base)
}

/// The closed-form inputs of a job as they came from the blob store, or the
/// failure of the job when the blob is absent.
pub fn get_artifacts<I, Q>(
    metadata: &LeafAggregationJobMetadata,
    fetched: Option<ClosedFormInputWrapper<I, Q>>,
) -> (result: Result<ClosedFormInputWrapper<I, Q>, JobError>)
    ensures
        fetched matches Some(inputs) ==> result == Ok::<ClosedFormInputWrapper<I, Q>, JobError>(
            inputs,
        ),
        fetched is None ==> result == Err::<ClosedFormInputWrapper<I, Q>, JobError>(
            JobError::MissingClosedFormInputs { key: metadata.input_key() },
        ),
{
    match fetched {
        Some(inputs) => Ok(inputs),
        None => Err(JobError::MissingClosedFormInputs { key: metadata.closed_form_input_key() }),
    }
}

/// The parameters that a job still needs: the verification key of its circuit,
/// and the parameters of the leaf circuit `leaf_circuit_id`.
#[derive(Clone, Copy, Debug, PartialEq, Eq, Structural)]
pub struct LeafParametersRequest {
    pub circuit_id: u8,
    pub leaf_circuit_id: u8,
}

/// A job whose blobs are in order and whose parameters are not yet known.
#[derive(Debug, PartialEq, Eq)]
pub struct PreparedInputs<I, Q, B> {
    pub circuit_id: u8,
    pub block_number: L1BatchNumber,
    pub leaf_circuit_id: u8,
    pub closed_form_inputs: ClosedFormInputWrapper<I, Q>,
    pub proofs: Vec<B>,
}

/// Why a job with these proofs and this circuit cannot be prepared, if it
/// cannot: the first proof that is not in order comes before a circuit without
/// a leaf circuit.
pub open spec fn prepare_error<B, R>(
    table: &LeafCircuitTable,
    metadata: &LeafAggregationJobMetadata,
    proofs: Seq<Option<FriProofWrapper<B, R>>>,
) -> Option<JobError> {
    match first_proof_error(metadata.id, metadata.prover_job_ids_for_proofs@, proofs, 0) {
        Some(error) => Some(error),
        None => {
            if table.leaf_of(metadata.circuit_id) is None {
                Some(JobError::UnknownCircuit { circuit_id: metadata.circuit_id })
            } else {
                None
            }
        },
    }
}

/// Checks what was fetched for a claimed job. On success the result holds the
/// inputs of the job and names the parameters to resolve; nothing is computed
/// for a job that fails here.
pub fn prepare_leaf_aggregation_job<I, Q, B, R>(
    table: &LeafCircuitTable,
    metadata: LeafAggregationJobMetadata,
    closed_form_input: ClosedFormInputWrapper<I, Q>,
    proofs: Vec<Option<FriProofWrapper<B, R>>>,
) -> (result: Result<PreparedInputs<I, Q, B>, JobError>)
    ensures
        prepare_error(table, &metadata, proofs@) matches Some(error) ==> result == Err::<
            PreparedInputs<I, Q, B>,
            JobError,
        >(error),
        prepare_error(table, &metadata, proofs@) is None ==> (result matches Ok(inputs) && {
            &&& inputs.circuit_id == metadata.circuit_id
            &&& inputs.block_number == metadata.block_number
            &&& Some(inputs.leaf_circuit_id) == table.leaf_of(metadata.circuit_id)
            &&& inputs.closed_form_inputs == closed_form_input
            &&& unwraps_to(proofs@, inputs.proofs@)
        }),
{
    let base = match expect_base_proofs(metadata.id, &metadata.prover_job_ids_for_proofs, proofs) {
        Ok(base) => base,
        Err(error) => {
            return Err(error);
        },
    };
    match table.get(metadata.circuit_id) {
        Some(leaf_circuit_id) => Ok(
            PreparedInputs {
                circuit_id: metadata.circuit_id,
                block_number: metadata.block_number,
                leaf_circuit_id,
                closed_form_inputs: closed_form_input,
                proofs: base,
            },
        ),
        None => Err(JobError::UnknownCircuit { circuit_id: metadata.circuit_id }),
    }
}

impl<I, Q, B> PreparedInputs<I, Q, B> {
    /// The parameters to resolve for this job.
    pub fn parameters_request(&self) -> (request: LeafParametersRequest)
        ensures
            request.circuit_id == self.circuit_id,
            request.leaf_circuit_id == self.leaf_circuit_id,
    {
        LeafParametersRequest { circuit_id: self.circuit_id, leaf_circuit_id: self.leaf_circuit_id }
    }

    /// The job, once the verification key of its circuit and the parameters of
    /// its leaf circuit are known.
    pub fn into_job<K, P>(self, base_vk: K, leaf_params: P) -> (job:
        LeafAggregationWitnessGeneratorJob<I, Q, B, K, P>)
        ensures
            job.circuit_id == self.circuit_id,
            job.block_number == self.block_number,
            job.closed_form_inputs == self.closed_form_inputs,
            job.proofs == self.proofs,
            job.base_vk == base_vk,
            job.leaf_params == leaf_params,
    {
        LeafAggregationWitnessGeneratorJob {
            circuit_id: self.circuit_id,
            block_number: self.block_number,
            closed_form_inputs: self.closed_form_inputs,
            proofs: self.proofs,
            base_vk,
            leaf_params,
        }
    }
}

/// A job that refers to a recursive-layer proof is never prepared: whatever
/// else was fetched for it, preparation has an error to report.
pub proof fn recursive_proof_is_rejected<B, R>(
    table: &LeafCircuitTable,
    metadata: &LeafAggregationJobMetadata,
    proofs: Seq<Option<FriProofWrapper<B, R>>>,
    position: int,
)
    requires
        0 <= position < proofs.len(),
        proofs[position] is Some,
        proofs[position]->Some_0 is Recursive,
    ensures
        prepare_error(table, metadata, proofs) is Some,
        prepare_error(table, metadata, proofs)->Some_0.class() == crate::error::ErrorKind::MissingInput,
{
    proof_defect_is_found(metadata.id, metadata.prover_job_ids_for_proofs@, proofs, position, 0);
}

/// A proof that is not a base-layer proof makes the search report an error,
/// from wherever at or before it the search starts.
proof fn proof_defect_is_found<B, R>(
    job_id: u32,
    proof_ids: Seq<u32>,
    proofs: Seq<Option<FriProofWrapper<B, R>>>,
    position: int,
    from: int,
)
    requires
        0 <= from <= position < proofs.len(),
        !(proofs[position] matches Some(FriProofWrapper::Base(_))),
    ensures
        first_proof_error(job_id, proof_ids, proofs, from) is Some,
        first_proof_error(job_id, proof_ids, proofs, from)->Some_0.class()
            == crate::error::ErrorKind::MissingInput,
    decreases proof_ids.len() - from,
{
    if from < proof_ids.len() && from < position {
        if proofs[from] matches Some(FriProofWrapper::Base(_)) {
            proof_defect_is_found(job_id, proof_ids, proofs, position, from + 1);
        }
    }
}

} // verus!
