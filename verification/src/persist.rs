//! Storing the outcome of a job: which blobs are written under which keys, and
//! what is known once the blob store has answered.
//!
//! Nothing here touches the pipeline state. A job whose blobs are not all
//! written ends with a failure, and the blobs written so far stay where they
//! are: no job will ever refer to them.

use vstd::prelude::*;
use vstd::string::StringExecFns;
use crate::circuits::LeafCircuitTable;
use crate::error::JobError;
use crate::job::{BlobUrls, LeafAggregationArtifacts};
use crate::keys::{AggregationsKey, FriCircuitKey, L1BatchNumber};
use crate::round::{downstream_round, AggregationRound};

verus! {

/// The blobs to write for one job, in the order in which they are written:
/// first the queue states of all subsets as one blob, then one circuit per
/// downstream job.
#[derive(Debug, PartialEq, Eq)]
pub struct SavePlan<Q, C> {
    /// The leaf circuit that the downstream jobs run.
    pub circuit_id: u8,
    pub aggregations_key: AggregationsKey,
    pub aggregations: Vec<(u64, Q)>,
    pub circuits: Vec<(FriCircuitKey, C)>,
}

/// The key of the circuit of the downstream job for subset `subset`.
pub open spec fn circuit_key(block_number: L1BatchNumber, leaf_circuit_id: u8, subset: u64)
    -> FriCircuitKey {
    FriCircuitKey {
        block_number,
        sequence_number: subset,
        circuit_id: leaf_circuit_id,
        aggregation_round: downstream_round(),
        depth: 0,
    }
}

/// The number and the queue state of each subset, in order.
pub open spec fn queue_states<Q, C>(aggregations: Seq<(u64, Q, C)>) -> Seq<(u64, Q)> {
    Seq::new(aggregations.len(), |i: int| (aggregations[i].0, aggregations[i].1))
}

/// The circuit of each subset under its key, in order.
pub open spec fn circuit_writes<Q, C>(
    block_number: L1BatchNumber,
    leaf_circuit_id: u8,
    aggregations: Seq<(u64, Q, C)>,
) -> Seq<(FriCircuitKey, C)> {
    Seq::new(
        aggregations.len(),
        |i: int| (circuit_key(block_number, leaf_circuit_id, aggregations[i].0), aggregations[i].2),
    )
}

/// Plans the blobs of a job's outcome. The job fails when its circuit has no
/// leaf circuit in `table`.
pub fn save_artifacts<I, Q, C>(table: &LeafCircuitTable, artifacts: LeafAggregationArtifacts<I, Q, C>)
    -> (result: Result<SavePlan<Q, C>, JobError>)
    ensures
        table.leaf_of(artifacts.circuit_id) is None ==> result == Err::<SavePlan<Q, C>, JobError>(
            JobError::UnknownCircuit { circuit_id: artifacts.circuit_id },
        ),
        table.leaf_of(artifacts.circuit_id) matches Some(leaf_circuit_id) ==> (result matches Ok(
            plan,
        ) && {
            &&& plan.circuit_id == leaf_circuit_id
            &&& plan.aggregations_key == (AggregationsKey {
                block_number: artifacts.block_number,
                circuit_id: leaf_circuit_id,
                depth: 0,
            })
            &&& plan.aggregations@ == queue_states(artifacts.aggregations@)
            &&& plan.circuits@ == circuit_writes(
                artifacts.block_number,
                leaf_circuit_id,
                artifacts.aggregations@,
            )
        }),
{
    let leaf_circuit_id: u8 = match table.get(artifacts.circuit_id) {
        Some(leaf_circuit_id) => leaf_circuit_id,
        None => {
            return Err(JobError::UnknownCircuit { circuit_id: artifacts.circuit_id });
        },
    };
    let block_number = artifacts.block_number;
    let ghost triples = artifacts.aggregations@;
    let mut aggregations: Vec<(u64, Q)> = Vec::new();
    let mut circuits: Vec<(FriCircuitKey, C)> = Vec::new();
    for triple in it: artifacts.aggregations
        invariant
            it.seq() == triples,
            aggregations.len() == it.index(),
            circuits.len() == it.index(),
            forall|i: int|
                0 <= i < it.index() ==> #[trigger] aggregations[i] == (triples[i].0, triples[i].1),
            forall|i: int|
                0 <= i < it.index() ==> #[trigger] circuits[i] == (
                    circuit_key(block_number, leaf_circuit_id, triples[i].0),
                    triples[i].2,
                ),
    {
        let (subset, queue, circuit) = triple;
        let key = FriCircuitKey {
            block_number,
            sequence_number: subset,
            circuit_id: leaf_circuit_id,
            aggregation_round: AggregationRound::NodeAggregation,
            depth: 0,
        };
        aggregations.push((subset, queue));
        circuits.push((key, circuit));
    }
    assert(aggregations@ =~= queue_states(triples));
    assert(circuits@ =~= circuit_writes(block_number, leaf_circuit_id, triples));
    Ok(
        SavePlan {
            circuit_id: leaf_circuit_id,
            aggregations_key: AggregationsKey { block_number, circuit_id: leaf_circuit_id, depth: 0 },
            aggregations,
            circuits,
        },
    )
}

/// The position of the first write that did not succeed among the first
/// `planned` reported outcomes, counting from `from`: the position of the
/// first failure, or where the outcomes or the plan end.
pub open spec fn writes_before_failure(
    outcomes: Seq<Result<String, String>>,
    planned: int,
    from: int,
) -> int
    decreases outcomes.len() - from,
{
    if from < 0 || from >= outcomes.len() || from >= planned {
        from
    } else if outcomes[from] is Err {
        from
    } else {
        writes_before_failure(outcomes, planned, from + 1)
    }
}

/// Whether every planned write of a job with `circuits` downstream jobs was
/// reported, and reported as a success.
pub open spec fn all_written(outcomes: Seq<Result<String, String>>, circuits: int) -> bool {
    &&& outcomes.len() == circuits + 1
    &&& forall|i: int| 0 <= i < outcomes.len() ==> (#[trigger] outcomes[i]) is Ok
}

/// The url of each downstream job's circuit, with the leaf circuit that the
/// job runs: the outcomes after the first, in order.
pub open spec fn circuit_urls(circuit_id: u8, outcomes: Seq<Result<String, String>>) -> Seq<
    (u8, String),
> {
    Seq::new((outcomes.len() - 1) as nat, |i: int| (circuit_id, outcomes[i + 1]->Ok_0))
}

/// Whether `error` is the failure of a job of which not every planned write
/// was reported as a success: it counts the blobs written before the first
/// write that did not succeed, and gives the reason of the blob store where
/// that write failed.
pub open spec fn persistence_failure(
    outcomes: Seq<Result<String, String>>,
    circuits: int,
    error: JobError,
) -> bool {
    &&& error matches JobError::Persistence { written, reason }
    &&& written == writes_before_failure(outcomes, circuits + 1, 0)
    &&& if written < outcomes.len() && written <= circuits {
        outcomes[written as int] == Err::<String, String>(reason)
    } else if written == outcomes.len() {
        reason@ == "blob write was not reported"@
    } else {
        reason@ == "more blob writes reported than planned"@
    }
}

impl BlobUrls {
    /// Gathers the urls of a job's blobs from what the blob store answered to
    /// the writes of its plan, in the order of the plan: the queue states
    /// first, then the circuit of each of the `circuits` downstream jobs.
    ///
    /// The urls are handed out only if every planned write was reported as a
    /// success. Otherwise the job fails, with the number of blobs written
    /// before the first write that failed or was not reported.
    pub fn collect(circuit_id: u8, circuits: usize, outcomes: Vec<Result<String, String>>) -> (result:
        Result<BlobUrls, JobError>)
        ensures
            all_written(outcomes@, circuits as int) <==> result is Ok,
            result matches Ok(urls) ==> {
                &&& urls.aggregations_urls == outcomes[0]->Ok_0
                &&& urls.circuit_ids_and_urls@ == circuit_urls(circuit_id, outcomes@)
            },
            result matches Err(error) ==> persistence_failure(outcomes@, circuits as int, error),
    {
        let mut aggregations_urls: Option<String> = None;
        let mut circuit_ids_and_urls: Vec<(u8, String)> = Vec::new();
        let mut written: usize = 0;
        let reported: usize = outcomes.len();
        for outcome in it: outcomes
            invariant
                it.seq() == outcomes@,
                reported == outcomes@.len(),
                written == it.index(),
                written <= circuits + 1,
                forall|i: int| 0 <= i < written ==> (#[trigger] outcomes@[i]) is Ok,
                writes_before_failure(outcomes@, circuits + 1, 0) == writes_before_failure(
                    outcomes@,
                    circuits + 1,
                    written as int,
                ),
                written == 0 ==> aggregations_urls is None && circuit_ids_and_urls.len() == 0,
                written > 0 ==> aggregations_urls == Some(outcomes@[0]->Ok_0)
                    && circuit_ids_and_urls.len() == written - 1,
                forall|i: int|
                    0 <= i < circuit_ids_and_urls.len() ==> #[trigger] circuit_ids_and_urls[i] == (
                        circuit_id,
                        outcomes@[i + 1]->Ok_0,
                    ),
        {
            if written > circuits {
                return Err(
                    JobError::Persistence {
                        written,
                        reason: String::from_str("more blob writes reported than planned"),
                    },
                );
            }
            match outcome {
                Ok(url) => {
                    if written == 0 {
                        aggregations_urls = Some(url);
                    } else {
                        circuit_ids_and_urls.push((circuit_id, url));
                    }
                },
                Err(reason) => {
                    return Err(JobError::Persistence { written, reason });
                },
            }
            assert(written < reported);
            written = written + 1;
        }
        match aggregations_urls {
            Some(aggregations_urls) => {
                if written <= circuits {
                    return Err(
                        JobError::Persistence {
                            written,
                            reason: String::from_str("blob write was not reported"),
                        },
                    );
                }
                assert(circuit_ids_and_urls@ =~= circuit_urls(circuit_id, outcomes@));
                Ok(BlobUrls { circuit_ids_and_urls, aggregations_urls })
            },
            None => Err(
                JobError::Persistence {
                    written,
                    reason: String::from_str("blob write was not reported"),
                },
            ),
        }
    }
}

} // verus!
