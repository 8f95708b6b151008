//! The witness computation of one job: what it is called with, and what is
//! kept of its result.

use vstd::prelude::*;
use crate::job::{
    LeafAggregationArtifacts, LeafAggregationWitnessGeneratorJob, LeafWitnessInputs,
    LeafWitnessOutput,
};

verus! {

/// What the witness computation is called with for `job`: the circuit
/// identifier with the queue state and the closed-form inputs, the proofs,
/// the verification key, and the circuit identifier with the parameters of its
/// leaf circuit.
pub open spec fn witness_inputs<I, Q, B, K, P>(
    job: LeafAggregationWitnessGeneratorJob<I, Q, B, K, P>,
) -> LeafWitnessInputs<I, Q, B, K, P> {
    LeafWitnessInputs {
        subsets: (job.circuit_id as u64, job.closed_form_inputs.1, job.closed_form_inputs.0),
        proofs: job.proofs,
        base_vk: job.base_vk,
        leaf_params: (job.circuit_id, job.leaf_params),
    }
}

/// Runs the witness computation `create_leaf_witnesses` on the inputs of `job`
/// and labels its result with the circuit and the batch of the job.
pub fn process_leaf_aggregation_job<I, Q, B, K, P, C, F>(
    job: LeafAggregationWitnessGeneratorJob<I, Q, B, K, P>,
    create_leaf_witnesses: F,
) -> (artifacts: LeafAggregationArtifacts<I, Q, C>) where
    F: FnOnce(LeafWitnessInputs<I, Q, B, K, P>) -> LeafWitnessOutput<I, Q, C>,

    requires
        call_requires(create_leaf_witnesses, (witness_inputs(job),)),
    ensures
        artifacts.circuit_id == job.circuit_id,
        artifacts.block_number == job.block_number,
        call_ensures(
            create_leaf_witnesses,
            (witness_inputs(job),),
            (LeafWitnessOutput {
                aggregations: artifacts.aggregations,
                closed_form_inputs: artifacts.closed_form_inputs,
            }),
        ),
{
    let circuit_id: u8 = job.circuit_id;
    let block_number = job.block_number;
    let inputs = LeafWitnessInputs {
        subsets: (circuit_id as u64, job.closed_form_inputs.1, job.closed_form_inputs.0),
        proofs: job.proofs,
        base_vk: job.base_vk,
        leaf_params: (circuit_id, job.leaf_params),
    };
    let output = create_leaf_witnesses(inputs);
    LeafAggregationArtifacts {
        circuit_id,
        block_number,
        aggregations: output.aggregations,
        closed_form_inputs: output.closed_form_inputs,
    }
}

} // verus!
