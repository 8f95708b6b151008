//! What is accepted of the inputs fetched for a claimed job.

use leaf_aggregation::circuits::LeafCircuitTable;
use leaf_aggregation::error::{ErrorKind, JobError};
use leaf_aggregation::generator::{ClaimedJob, LeafAggregationWitnessGenerator};
use leaf_aggregation::job::{ClosedFormInputWrapper, FriProofWrapper};
use leaf_aggregation::keys::{ClosedFormInputKey, L1BatchNumber, LeafAggregationJobMetadata};
use leaf_aggregation::prepare::{
    expect_base_proofs, get_artifacts, prepare_leaf_aggregation_job, PreparedInputs,
};

type Proof = FriProofWrapper<u32, u32>;

fn metadata(proof_ids: Vec<u32>) -> LeafAggregationJobMetadata {
    LeafAggregationJobMetadata {
        id: 9,
        block_number: L1BatchNumber(42),
        circuit_id: 3,
        prover_job_ids_for_proofs: proof_ids,
    }
}

fn inputs() -> ClosedFormInputWrapper<u8, u8> {
    ClosedFormInputWrapper(vec![1, 2, 3], 2)
}

fn prepare(
    table: &LeafCircuitTable,
    proof_ids: Vec<u32>,
    proofs: Vec<Option<Proof>>,
) -> Result<PreparedInputs<u8, u8, u32>, JobError> {
    prepare_leaf_aggregation_job(table, metadata(proof_ids), inputs(), proofs)
}

#[test]
fn base_proofs_are_unwrapped_in_order() {
    let proofs = vec![
        Some(Proof::Base(11)),
        Some(Proof::Base(22)),
        Some(Proof::Base(33)),
    ];
    assert_eq!(expect_base_proofs(9, &vec![1, 2, 3], proofs), Ok(vec![11, 22, 33]));
}

#[test]
fn job_without_proofs_is_prepared() {
    let none: Vec<Option<Proof>> = Vec::new();
    assert_eq!(expect_base_proofs(9, &Vec::new(), none), Ok(Vec::new()));
}

#[test]
fn recursive_proof_is_rejected() {
    let proofs = vec![Some(Proof::Base(11)), Some(Proof::Recursive(22))];
    let error = expect_base_proofs(9, &vec![70, 71], proofs).unwrap_err();
    assert_eq!(error, JobError::UnexpectedRecursiveProof { job_id: 9, proof_id: 71 });
    assert_eq!(error.kind(), ErrorKind::MissingInput);
}

#[test]
fn recursive_proof_fails_the_preparation() {
    let table = LeafCircuitTable::standard();
    let proofs = vec![Some(Proof::Recursive(11)), Some(Proof::Base(22))];
    assert_eq!(
        prepare(&table, vec![70, 71], proofs),
        Err(JobError::UnexpectedRecursiveProof { job_id: 9, proof_id: 70 })
    );
}

#[test]
fn absent_proof_is_reported_with_its_identifier() {
    let proofs = vec![Some(Proof::Base(11)), None, Some(Proof::Recursive(5))];
    assert_eq!(
        expect_base_proofs(9, &vec![70, 71, 72], proofs),
        Err(JobError::MissingProof { job_id: 9, proof_id: 71 })
    );
}

#[test]
fn too_few_proofs_name_the_first_that_is_missing() {
    let proofs = vec![Some(Proof::Base(11))];
    assert_eq!(
        expect_base_proofs(9, &vec![70, 71, 72], proofs),
        Err(JobError::MissingProof { job_id: 9, proof_id: 71 })
    );
}

#[test]
fn proofs_beyond_those_referenced_are_rejected() {
    let proofs = vec![Some(Proof::Base(11)), Some(Proof::Base(12))];
    assert_eq!(
        expect_base_proofs(9, &vec![70], proofs),
        Err(JobError::UnreferencedProofs { job_id: 9 })
    );
}

#[test]
fn first_defect_wins_over_surplus() {
    let proofs = vec![None, Some(Proof::Base(12))];
    assert_eq!(
        expect_base_proofs(9, &vec![70], proofs),
        Err(JobError::MissingProof { job_id: 9, proof_id: 70 })
    );
}

#[test]
fn present_inputs_are_handed_on() {
    assert_eq!(get_artifacts(&metadata(vec![]), Some(inputs())), Ok(inputs()));
}

#[test]
fn absent_inputs_name_their_key() {
    let fetched: Option<ClosedFormInputWrapper<u8, u8>> = None;
    assert_eq!(
        get_artifacts(&metadata(vec![]), fetched),
        Err(JobError::MissingClosedFormInputs {
            key: ClosedFormInputKey { block_number: L1BatchNumber(42), circuit_id: 3 }
        })
    );
}

#[test]
fn prepared_inputs_name_the_leaf_circuit() {
    let table = LeafCircuitTable::standard();
    let prepared = prepare(&table, vec![70], vec![Some(Proof::Base(11))]).unwrap();
    assert_eq!(
        prepared,
        PreparedInputs {
            circuit_id: 3,
            block_number: L1BatchNumber(42),
            leaf_circuit_id: 5,
            closed_form_inputs: inputs(),
            proofs: vec![11],
        }
    );
    let request = prepared.parameters_request();
    assert_eq!(request.circuit_id, 3);
    assert_eq!(request.leaf_circuit_id, 5);
    let job = prepared.into_job("vk", "params");
    assert_eq!(job.circuit_id, 3);
    assert_eq!(job.block_number, L1BatchNumber(42));
    assert_eq!(job.closed_form_inputs, inputs());
    assert_eq!(job.proofs, vec![11]);
    assert_eq!(job.base_vk, "vk");
    assert_eq!(job.leaf_params, "params");
}

#[test]
fn circuit_without_leaf_circuit_is_rejected() {
    let table = LeafCircuitTable::new();
    assert_eq!(
        prepare(&table, vec![70], vec![Some(Proof::Base(11))]),
        Err(JobError::UnknownCircuit { circuit_id: 3 })
    );
}

#[test]
fn proof_defect_is_reported_before_unknown_circuit() {
    let table = LeafCircuitTable::new();
    assert_eq!(
        prepare(&table, vec![70], vec![Some(Proof::Recursive(11))]),
        Err(JobError::UnexpectedRecursiveProof { job_id: 9, proof_id: 70 })
    );
}

#[test]
fn empty_poll_is_no_failure() {
    let generator = LeafAggregationWitnessGenerator::new(LeafCircuitTable::standard());
    let nothing: Option<ClaimedJob<u8, u8, u32, u32>> = None;
    assert_eq!(generator.get_next_job(nothing), None);
}

#[test]
fn claimed_job_comes_back_under_its_identifier() {
    let generator = LeafAggregationWitnessGenerator::new(LeafCircuitTable::standard());
    let claimed = ClaimedJob {
        metadata: metadata(vec![70, 71]),
        closed_form_input: Some(inputs()),
        proofs: vec![Some(Proof::Base(1)), Some(Proof::Base(2))],
    };
    let (job_id, prepared) = generator.get_next_job(Some(claimed)).unwrap();
    assert_eq!(job_id, 9);
    assert_eq!(prepared.unwrap().proofs, vec![1, 2]);
}

#[test]
fn absent_inputs_are_reported_before_proofs() {
    let generator = LeafAggregationWitnessGenerator::new(LeafCircuitTable::standard());
    let claimed: ClaimedJob<u8, u8, u32, u32> = ClaimedJob {
        metadata: metadata(vec![70]),
        closed_form_input: None,
        proofs: vec![Some(Proof::Recursive(1))],
    };
    let (job_id, prepared) = generator.get_next_job(Some(claimed)).unwrap();
    assert_eq!(job_id, 9);
    assert_eq!(
        prepared,
        Err(JobError::MissingClosedFormInputs {
            key: ClosedFormInputKey { block_number: L1BatchNumber(42), circuit_id: 3 }
        })
    );
}
