//! What the stage reports about a job: how long each phase took, and that the
//! job started and completed.

use std::time::Duration;
use vstd::prelude::*;
use crate::keys::L1BatchNumber;
use crate::round::{stage_round, AggregationRound};

verus! {

/// A phase of a job whose duration is measured.
#[derive(Clone, Copy, Debug, PartialEq, Eq, Structural)]
pub enum Phase {
    /// Fetching the closed-form inputs and the proofs.
    BlobFetch,
    /// Resolving the verification keys and the parameters of the leaf circuit.
    PrepareJob,
    /// The witness computation.
    WitnessGeneration,
    /// Writing the blobs of the outcome.
    BlobSave,
}

/// The name of the histogram that takes the durations of `phase`.
pub open spec fn metric_of(phase: Phase) -> Seq<char> {
    match phase {
        Phase::BlobFetch => "prover_fri.witness_generation.blob_fetch_time"@,
        Phase::PrepareJob => "prover_fri.witness_generation.prepare_job_time"@,
        Phase::WitnessGeneration => "prover_fri.witness_generation.witness_generation_time"@,
        Phase::BlobSave => "prover_fri.witness_generation.blob_save_time"@,
    }
}

/// The duration of one phase of one job, for the histogram `metric`, labelled
/// with the round of the stage.
#[derive(Debug, PartialEq, Eq)]
pub struct Measurement {
    pub phase: Phase,
    pub metric: &'static str,
    pub aggregation_round: AggregationRound,
    pub elapsed: Duration,
}

/// A line for the log of the stage.
#[derive(Debug, PartialEq, Eq)]
pub enum LogEvent {
    /// The witness computation of a job starts.
    Started { aggregation_round: AggregationRound, block_number: L1BatchNumber, circuit_id: u8 },
    /// The witness computation of a job is complete.
    Completed { block_number: L1BatchNumber, circuit_id: u8, elapsed: Duration },
}

impl Phase {
    /// The name of the histogram that takes the durations of the phase.
    pub fn metric_name(self) -> (name: &'static str)
        ensures
            name@ == metric_of(self),
    {
        match self {
            Phase::BlobFetch => "prover_fri.witness_generation.blob_fetch_time",
            Phase::PrepareJob => "prover_fri.witness_generation.prepare_job_time",
            Phase::WitnessGeneration => "prover_fri.witness_generation.witness_generation_time",
            Phase::BlobSave => "prover_fri.witness_generation.blob_save_time",
        }
    }
}

impl Measurement {
    /// The measurement that `phase` took `elapsed`.
    pub fn new(phase: Phase, elapsed: Duration) -> (measurement: Measurement)
        ensures
            measurement.phase == phase,
            measurement.metric@ == metric_of(phase),
            measurement.aggregation_round == stage_round(),
            measurement.elapsed == elapsed,
    {
        Measurement {
            phase,
            metric: phase.metric_name(),
            aggregation_round: AggregationRound::LeafAggregation,
            elapsed,
        }
    }
}

} // verus!
