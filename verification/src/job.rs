//! The values that pass through one leaf-aggregation job: what is fetched for
//! it, what is handed to the witness computation, and what comes back.
//!
//! The cryptographic payloads are type parameters. The stage moves them and
//! never looks inside: `I` is a closed-form input, `Q` the state of a queue
//! simulator, `B` a base-layer proof, `R` a recursive-layer proof, `K` a
//! verification key, `P` the parameters of a leaf circuit and `C` a recursive
//! circuit.

use vstd::prelude::*;
use crate::keys::L1BatchNumber;

verus! {

/// A proof as the blob store holds it: of the base layer or of a recursive
/// layer.
#[derive(Debug, PartialEq, Eq)]
pub enum FriProofWrapper<B, R> {
    Base(B),
    Recursive(R),
}

/// The closed-form inputs of one circuit in one batch, with the state of the
/// queue that says how they fall into subsets. It is read as one blob.
#[derive(Debug, PartialEq, Eq)]
pub struct ClosedFormInputWrapper<I, Q>(pub Vec<I>, pub Q);

/// A job with all of its inputs resolved, ready for the witness computation.
#[derive(Debug, PartialEq, Eq)]
pub struct LeafAggregationWitnessGeneratorJob<I, Q, B, K, P> {
    pub circuit_id: u8,
    pub block_number: L1BatchNumber,
    pub closed_form_inputs: ClosedFormInputWrapper<I, Q>,
    pub proofs: Vec<B>,
    pub base_vk: K,
    pub leaf_params: P,
}

/// What the witness computation is called with.
#[derive(Debug, PartialEq, Eq)]
pub struct LeafWitnessInputs<I, Q, B, K, P> {
    /// Circuit identifier, queue state and closed-form inputs.
    pub subsets: (u64, Q, Vec<I>),
    pub proofs: Vec<B>,
    pub base_vk: K,
    /// Circuit identifier and the parameters of its leaf circuit.
    pub leaf_params: (u8, P),
}

/// What the witness computation hands back: for each subset its number, the
/// state of its queue and the circuit of one downstream job, and the
/// closed-form inputs.
#[derive(Debug, PartialEq, Eq)]
pub struct LeafWitnessOutput<I, Q, C> {
    pub aggregations: Vec<(u64, Q, C)>,
    pub closed_form_inputs: Vec<I>,
}

/// The outcome of one job, before anything of it is stored.
#[derive(Debug, PartialEq, Eq)]
pub struct LeafAggregationArtifacts<I, Q, C> {
    pub circuit_id: u8,
    pub block_number: L1BatchNumber,
    pub aggregations: Vec<(u64, Q, C)>,
    pub closed_form_inputs: Vec<I>,
}

/// Where the blobs of one job were written: one url per downstream job, with
/// the circuit of that job, and the url of the queue states.
#[derive(Debug, PartialEq, Eq)]
pub struct BlobUrls {
    pub circuit_ids_and_urls: Vec<(u8, String)>,
    pub aggregations_urls: String,
}

} // verus!
