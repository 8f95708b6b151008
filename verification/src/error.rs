//! The ways in which a claimed job fails, and how a failure is described in
//! the job queue.

use vstd::prelude::*;
use vstd::string::StringExecFns;
use crate::keys::ClosedFormInputKey;
use crate::text::{append_decimal, decimal};

verus! {

/// The class of a failure.
#[derive(Clone, Copy, Debug, PartialEq, Eq, Structural)]
pub enum ErrorKind {
    /// An input that the job refers to is absent or is not what the stage accepts.
    MissingInput,
    /// The witness computation failed.
    Computation,
    /// A blob could not be written.
    Persistence,
    /// The transaction that advances the pipeline failed.
    StateAdvance,
}

/// A failure of one job. Every failure ends the job; none is retried.
#[derive(Debug, PartialEq, Eq)]
pub enum JobError {
    /// The closed-form inputs of the job are not in the blob store.
    MissingClosedFormInputs { key: ClosedFormInputKey },
    /// A proof that the job refers to is not in the blob store.
    MissingProof { job_id: u32, proof_id: u32 },
    /// A proof that the job refers to is a recursive-layer proof.
    UnexpectedRecursiveProof { job_id: u32, proof_id: u32 },
    /// More proofs were supplied than the job refers to.
    UnreferencedProofs { job_id: u32 },
    /// The circuit of the job has no leaf circuit.
    UnknownCircuit { circuit_id: u8 },
    /// The witness computation failed, for the given reason.
    Computation { reason: String },
    /// A blob could not be written, after `written` blobs of the job had been.
    Persistence { written: usize, reason: String },
    /// The transaction that advances the pipeline failed, for the given reason.
    StateAdvance { reason: String },
}

impl JobError {
    /// The class of the failure.
    pub open spec fn class(&self) -> ErrorKind {
        match self {
            JobError::MissingClosedFormInputs { .. } => ErrorKind::MissingInput,
            JobError::MissingProof { .. } => ErrorKind::MissingInput,
            JobError::UnexpectedRecursiveProof { .. } => ErrorKind::MissingInput,
            JobError::UnreferencedProofs { .. } => ErrorKind::MissingInput,
            JobError::UnknownCircuit { .. } => ErrorKind::MissingInput,
            JobError::Computation { .. } => ErrorKind::Computation,
            JobError::Persistence { .. } => ErrorKind::Persistence,
            JobError::StateAdvance { .. } => ErrorKind::StateAdvance,
        }
    }

    /// The text under which the failure is recorded.
    pub open spec fn description(&self) -> Seq<char> {
        match self {
            JobError::MissingClosedFormInputs { key } => {
                "leaf aggregation job artifacts missing: block "@ + decimal(
                    key.block_number.0 as nat,
                ) + ", circuit "@ + decimal(key.circuit_id as nat)
            },
            JobError::MissingProof { job_id, proof_id } => {
                "proof "@ + decimal(*proof_id as nat) + " missing for leaf agg "@ + decimal(
                    *job_id as nat,
                )
            },
            JobError::UnexpectedRecursiveProof { job_id, proof_id } => {
                "Expected only base proofs for leaf agg "@ + decimal(*job_id as nat)
                    + ", proof "@ + decimal(*proof_id as nat) + " is recursive"@
            },
            JobError::UnreferencedProofs { job_id } => {
                "more proofs than referenced for leaf agg "@ + decimal(*job_id as nat)
            },
            JobError::UnknownCircuit { circuit_id } => {
                "no leaf circuit for base circuit "@ + decimal(*circuit_id as nat)
            },
            JobError::Computation { reason } => "witness generation failed: "@ + reason@,
            JobError::Persistence { written, reason } => {
                "saving artifacts failed after "@ + decimal(*written as nat) + " blobs: "@
                    + reason@
            },
            JobError::StateAdvance { reason } => "database update failed: "@ + reason@,
        }
    }

    /// The class of the failure.
    pub fn kind(&self) -> (kind: ErrorKind)
        ensures
            kind == self.class(),
    {
        match self {
            JobError::MissingClosedFormInputs { .. } => ErrorKind::MissingInput,
            JobError::MissingProof { .. } => ErrorKind::MissingInput,
            JobError::UnexpectedRecursiveProof { .. } => ErrorKind::MissingInput,
            JobError::UnreferencedProofs { .. } => ErrorKind::MissingInput,
            JobError::UnknownCircuit { .. } => ErrorKind::MissingInput,
            JobError::Computation { .. } => ErrorKind::Computation,
            JobError::Persistence { .. } => ErrorKind::Persistence,
            JobError::StateAdvance { .. } => ErrorKind::StateAdvance,
        }
    }

    /// The text under which the failure is recorded.
    pub fn describe(&self) -> (text: String)
        ensures
            text@ == self.description(),
    {
        match self {
            JobError::MissingClosedFormInputs { key } => {
                let mut text = String::from_str("leaf aggregation job artifacts missing: block ");
                append_decimal(&mut text, key.block_number.0 as u64);
                text.append(", circuit ");
                append_decimal(&mut text, key.circuit_id as u64);
                text
            },
            JobError::MissingProof { job_id, proof_id } => {
                let mut text = String::from_str("proof ");
                append_decimal(&mut text, *proof_id as u64);
                text.append(" missing for leaf agg ");
                append_decimal(&mut text, *job_id as u64);
                text
            },
            JobError::UnexpectedRecursiveProof { job_id, proof_id } => {
                let mut text = String::from_str("Expected only base proofs for leaf agg ");
                append_decimal(&mut text, *job_id as u64);
                text.append(", proof ");
                append_decimal(&mut text, *proof_id as u64);
                text.append(" is recursive");
                text
            },
            JobError::UnreferencedProofs { job_id } => {
                let mut text = String::from_str("more proofs than referenced for leaf agg ");
                append_decimal(&mut text, *job_id as u64);
                text
            },
            JobError::UnknownCircuit { circuit_id } => {
                let mut text = String::from_str("no leaf circuit for base circuit ");
                append_decimal(&mut text, *circuit_id as u64);
                text
            },
            JobError::Computation { reason } => {
                let mut text = String::from_str("witness generation failed: ");
                text.append(reason.as_str());
                text
            },
            JobError::Persistence { written, reason } => {
                let mut text = String::from_str("saving artifacts failed after ");
                append_decimal(&mut text, *written as u64);
                text.append(" blobs: ");
                text.append(reason.as_str());
                text
            },
            JobError::StateAdvance { reason } => {
                let mut text = String::from_str("database update failed: ");
                text.append(reason.as_str());
                text
            },
        }
    }
}

} // verus!
