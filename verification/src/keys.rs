//! Batch numbers, circuit identifiers and the composite keys under which the
//! stage reads and writes blobs.

use vstd::prelude::*;
use crate::round::AggregationRound;

verus! {

/// Number of the batch a job belongs to.
#[derive(Clone, Copy, Debug, PartialEq, Eq, Structural)]
pub struct L1BatchNumber(pub u32);

/// Key of the blob that holds the closed-form inputs of one circuit in one batch.
#[derive(Clone, Copy, Debug, PartialEq, Eq, Structural)]
pub struct ClosedFormInputKey {
    pub block_number: L1BatchNumber,
    pub circuit_id: u8,
}

/// Key of the blob that holds the queue states of all subsets of one circuit in
/// one batch, for the stage that later folds them together. `depth` numbers
/// the passes of a round over a batch, from zero.
#[derive(Clone, Copy, Debug, PartialEq, Eq, Structural)]
pub struct AggregationsKey {
    pub block_number: L1BatchNumber,
    pub circuit_id: u8,
    pub depth: u16,
}

/// Key of the blob that holds the circuit of one downstream job: the job for
/// subset `sequence_number` of the circuit `circuit_id` in the batch, in pass
/// `depth` of the round.
#[derive(Clone, Copy, Debug, PartialEq, Eq, Structural)]
pub struct FriCircuitKey {
    pub block_number: L1BatchNumber,
    pub sequence_number: u64,
    pub circuit_id: u8,
    pub aggregation_round: AggregationRound,
    pub depth: u16,
}

/// Descriptor of a claimable leaf-aggregation job, as the job queue holds it.
#[derive(Debug, PartialEq, Eq)]
pub struct LeafAggregationJobMetadata {
    pub id: u32,
    pub block_number: L1BatchNumber,
    pub circuit_id: u8,
    pub prover_job_ids_for_proofs: Vec<u32>,
}

impl LeafAggregationJobMetadata {
    /// Key of the closed-form inputs that the job needs.
    pub open spec fn input_key(&self) -> ClosedFormInputKey {
        ClosedFormInputKey { block_number: self.block_number, circuit_id: self.circuit_id }
    }

    /// Key of the closed-form inputs that the job needs.
    pub fn closed_form_input_key(&self) -> (key: ClosedFormInputKey)
        ensures
            key == self.input_key(),
            key.block_number == self.block_number,
            key.circuit_id == self.circuit_id,
    {
        ClosedFormInputKey { block_number: self.block_number, circuit_id: self.circuit_id }
    }
}

} // verus!
