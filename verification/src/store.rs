//! A job store held in memory: the contract of the relational store that the
//! stage claims its jobs from and advances the pipeline in, as a value that
//! can be run.
//!
//! A claim is one atomic step, so that claims of several workers happen one
//! after the other, in some order. A transaction takes effect as a whole or
//! not at all.

use std::time::Duration;
use vstd::prelude::*;
use vstd::string::StringExecFns;
use crate::database::DatabaseUpdate;
use crate::engine::JobStatus;
use crate::error::JobError;
use crate::keys::{L1BatchNumber, LeafAggregationJobMetadata};
use crate::round::AggregationRound;

verus! {

/// A leaf-aggregation job in the store.
#[derive(Debug, PartialEq, Eq)]
pub struct LeafJobRow {
    pub id: u32,
    pub block_number: L1BatchNumber,
    pub circuit_id: u8,
    pub prover_job_ids_for_proofs: Vec<u32>,
    /// `Pending`, `Claimed`, `Succeeded` or `Failed`.
    pub status: JobStatus,
    /// The reason of the failure, for a job that failed.
    pub error: Option<String>,
    /// The time that the job took, for a job that succeeded.
    pub time_taken: Option<Duration>,
}

/// A downstream job in the store.
#[derive(Debug, PartialEq, Eq)]
pub struct ProverJobRow {
    pub block_number: L1BatchNumber,
    pub circuit_id: u8,
    pub url: String,
    pub aggregation_round: AggregationRound,
    pub depth: u16,
}

/// What the aggregation of one circuit in one batch waits for.
#[derive(Debug, PartialEq, Eq)]
pub struct NodeAggregationRow {
    pub block_number: L1BatchNumber,
    pub circuit_id: u8,
    pub depth: u16,
    pub number_of_dependent_jobs: usize,
    pub url: String,
}

/// A job store in memory.
#[derive(Debug, PartialEq, Eq)]
pub struct MemoryDatabase {
    pub leaf_jobs: Vec<LeafJobRow>,
    pub prover_jobs: Vec<ProverJobRow>,
    pub node_aggregations: Vec<NodeAggregationRow>,
}

/// A leaf-aggregation job, as a value.
pub struct LeafJob {
    pub id: u32,
    pub block_number: L1BatchNumber,
    pub circuit_id: u8,
    pub prover_job_ids_for_proofs: Seq<u32>,
    pub status: JobStatus,
    pub error: Option<Seq<char>>,
    pub time_taken: Option<Duration>,
}

/// A downstream job, as a value.
pub struct ProverJob {
    pub block_number: L1BatchNumber,
    pub circuit_id: u8,
    pub url: Seq<char>,
    pub aggregation_round: AggregationRound,
    pub depth: u16,
}

/// What an aggregation waits for, as a value.
pub struct NodeAggregation {
    pub block_number: L1BatchNumber,
    pub circuit_id: u8,
    pub depth: u16,
    pub number_of_dependent_jobs: usize,
    pub url: Seq<char>,
}

/// The content of a job store, as a value.
pub struct Database {
    pub leaf_jobs: Seq<LeafJob>,
    pub prover_jobs: Seq<ProverJob>,
    pub node_aggregations: Seq<NodeAggregation>,
}

impl DeepView for LeafJobRow {
    type V = LeafJob;

    open spec fn deep_view(&self) -> LeafJob {
        LeafJob {
            id: self.id,
            block_number: self.block_number,
            circuit_id: self.circuit_id,
            prover_job_ids_for_proofs: self.prover_job_ids_for_proofs@,
            status: self.status,
            error: match self.error {
                Some(error) => Some(error@),
                None => None,
            },
            time_taken: self.time_taken,
        }
    }
}

impl DeepView for ProverJobRow {
    type V = ProverJob;

    open spec fn deep_view(&self) -> ProverJob {
        ProverJob {
            block_number: self.block_number,
            circuit_id: self.circuit_id,
            url: self.url@,
            aggregation_round: self.aggregation_round,
            depth: self.depth,
        }
    }
}

impl DeepView for NodeAggregationRow {
    type V = NodeAggregation;

    open spec fn deep_view(&self) -> NodeAggregation {
        NodeAggregation {
            block_number: self.block_number,
            circuit_id: self.circuit_id,
            depth: self.depth,
            number_of_dependent_jobs: self.number_of_dependent_jobs,
            url: self.url@,
        }
    }
}

impl View for MemoryDatabase {
    type V = Database;

    open spec fn view(&self) -> Database {
        Database {
            leaf_jobs: self.leaf_jobs.deep_view(),
            prover_jobs: self.prover_jobs.deep_view(),
            node_aggregations: self.node_aggregations.deep_view(),
        }
    }
}

/// The position of the first job at or after `from` that nobody has claimed,
/// or the number of jobs if there is none.
pub open spec fn first_pending(jobs: Seq<LeafJob>, from: int) -> int
    decreases jobs.len() - from,
{
    if from < 0 || from >= jobs.len() {
        jobs.len() as int
    } else if jobs[from].status == JobStatus::Pending {
        from
    } else {
        first_pending(jobs, from + 1)
    }
}

/// The position of the job `job_id` at or after `from`, or the number of jobs
/// if there is none.
pub open spec fn position_of(jobs: Seq<LeafJob>, job_id: u32, from: int) -> int
    decreases jobs.len() - from,
{
    if from < 0 || from >= jobs.len() {
        jobs.len() as int
    } else if jobs[from].id == job_id {
        from
    } else {
        position_of(jobs, job_id, from + 1)
    }
}

/// `job` in another status.
pub open spec fn with_status(job: LeafJob, status: JobStatus) -> LeafJob {
    LeafJob { status, ..job }
}

impl Database {
    /// Whether no two jobs have the same identifier.
    pub open spec fn well_formed(self) -> bool {
        forall|i: int, j: int|
            0 <= i < j < self.leaf_jobs.len() ==> (#[trigger] self.leaf_jobs[i]).id != (
            #[trigger] self.leaf_jobs[j]).id
    }

    /// The job that the next claim gives out, if there is one: the first job
    /// that nobody has claimed.
    pub open spec fn claimable(self) -> Option<LeafJob> {
        let i = first_pending(self.leaf_jobs, 0);
        if i < self.leaf_jobs.len() {
            Some(self.leaf_jobs[i])
        } else {
            None
        }
    }

    /// The store after a claim: the job given out is claimed, and nothing else
    /// has changed.
    pub open spec fn after_claim(self) -> Database {
        let i = first_pending(self.leaf_jobs, 0);
        if i < self.leaf_jobs.len() {
            Database {
                leaf_jobs: self.leaf_jobs.update(
                    i,
                    with_status(self.leaf_jobs[i], JobStatus::Claimed),
                ),
                ..self
            }
        } else {
            self
        }
    }

    /// The status of the job `job_id`, if the store has that job.
    pub open spec fn status_of(self, job_id: u32) -> Option<JobStatus> {
        let i = position_of(self.leaf_jobs, job_id, 0);
        if i < self.leaf_jobs.len() {
            Some(self.leaf_jobs[i].status)
        } else {
            None
        }
    }

    /// The store after the failure of the job `job_id` was recorded: if the
    /// job is claimed, it has failed for the given reason, and nothing else
    /// has changed. A job that is not claimed stays as it is.
    pub open spec fn after_failure(self, job_id: u32, error: Seq<char>) -> Database {
        let i = position_of(self.leaf_jobs, job_id, 0);
        if i < self.leaf_jobs.len() && self.leaf_jobs[i].status == JobStatus::Claimed {
            Database {
                leaf_jobs: self.leaf_jobs.update(
                    i,
                    LeafJob {
                        status: JobStatus::Failed,
                        error: Some(error),
                        ..self.leaf_jobs[i]
                    },
                ),
                ..self
            }
        } else {
            self
        }
    }

    /// The store after the job that `metadata` describes was added: if the
    /// store had no job of that identifier, the job is there, claimed by
    /// nobody, and nothing else has changed. Otherwise the store is as before.
    pub open spec fn after_insert(self, metadata: LeafAggregationJobMetadata) -> Database {
        if self.status_of(metadata.id) is None {
            Database {
                leaf_jobs: self.leaf_jobs.push(
                    LeafJob {
                        id: metadata.id,
                        block_number: metadata.block_number,
                        circuit_id: metadata.circuit_id,
                        prover_job_ids_for_proofs: metadata.prover_job_ids_for_proofs@,
                        status: JobStatus::Pending,
                        error: None,
                        time_taken: None,
                    },
                ),
                ..self
            }
        } else {
            self
        }
    }
}

/// The position of the aggregation of the circuit `circuit_id` at depth
/// `depth` in the batch `block_number`, at or after `from`, or the number of
/// aggregations if there is none.
pub open spec fn aggregation_position(
    aggregations: Seq<NodeAggregation>,
    block_number: L1BatchNumber,
    circuit_id: u8,
    depth: u16,
    from: int,
) -> int
    decreases aggregations.len() - from,
{
    if from < 0 || from >= aggregations.len() {
        aggregations.len() as int
    } else if aggregations[from].block_number == block_number && aggregations[from].circuit_id
        == circuit_id && aggregations[from].depth == depth {
        from
    } else {
        aggregation_position(aggregations, block_number, circuit_id, depth, from + 1)
    }
}

/// The downstream jobs that a transaction creates: one per circuit and url, in
/// order.
pub open spec fn created_jobs(update: DatabaseUpdate) -> Seq<ProverJob> {
    let insert = update.insert_prover_jobs;
    Seq::new(
        insert.circuit_ids_and_urls@.len(),
        |i: int|
            ProverJob {
                block_number: insert.block_number,
                circuit_id: insert.circuit_ids_and_urls@[i].0,
                url: insert.circuit_ids_and_urls@[i].1@,
                aggregation_round: insert.aggregation_round,
                depth: insert.depth,
            },
    )
}

/// The aggregations after a transaction: the aggregation that the transaction
/// names waits for the given number of jobs at the given url, whether it was
/// there before or not.
pub open spec fn updated_aggregations(aggregations: Seq<NodeAggregation>, update: DatabaseUpdate)
    -> Seq<NodeAggregation> {
    let node = update.update_node_aggregation_jobs_url;
    let row = NodeAggregation {
        block_number: node.block_number,
        circuit_id: node.circuit_id,
        depth: node.depth,
        number_of_dependent_jobs: node.number_of_dependent_jobs,
        url: node.url@,
    };
    let i = aggregation_position(aggregations, node.block_number, node.circuit_id, node.depth, 0);
    if i < aggregations.len() {
        aggregations.update(i, row)
    } else {
        aggregations.push(row)
    }
}

impl Database {
    /// Whether the transaction `update` can commit: the job that it marks as
    /// successful is claimed.
    pub open spec fn accepts(self, update: DatabaseUpdate) -> bool {
        self.status_of(update.mark_leaf_aggregation_as_successful.job_id) == Some(
            JobStatus::Claimed,
        )
    }

    /// The store after the transaction `update` has committed: the downstream
    /// jobs exist, the aggregation knows of them, and the job has succeeded.
    pub open spec fn after_update(self, update: DatabaseUpdate) -> Database {
        let mark = update.mark_leaf_aggregation_as_successful;
        let i = position_of(self.leaf_jobs, mark.job_id, 0);
        Database {
            leaf_jobs: self.leaf_jobs.update(
                i,
                LeafJob {
                    status: JobStatus::Succeeded,
                    time_taken: Some(mark.time_taken),
                    ..self.leaf_jobs[i]
                },
            ),
            prover_jobs: self.prover_jobs + created_jobs(update),
            node_aggregations: updated_aggregations(self.node_aggregations, update),
        }
    }

    /// The store after the transaction `update` has run: as after its commit,
    /// if it was accepted and not interrupted, and else as before.
    pub open spec fn after_transaction(self, update: DatabaseUpdate, interrupted: bool) -> Database {
        if self.accepts(update) && !interrupted {
            self.after_update(update)
        } else {
            self
        }
    }
}

impl MemoryDatabase {
    /// An empty store.
    pub fn new() -> (database: MemoryDatabase)
        ensures
            database@.leaf_jobs.len() == 0,
            database@.prover_jobs.len() == 0,
            database@.node_aggregations.len() == 0,
            database@.well_formed(),
    {
        MemoryDatabase {
            leaf_jobs: Vec::new(),
            prover_jobs: Vec::new(),
            node_aggregations: Vec::new(),
        }
    }

    fn find_job(&self, job_id: u32) -> (position: usize)
        ensures
            position == position_of(self@.leaf_jobs, job_id, 0),
            position <= self.leaf_jobs.len(),
    {
        let mut position: usize = 0;
        while position < self.leaf_jobs.len()
            invariant
                position <= self.leaf_jobs.len(),
                self@.leaf_jobs.len() == self.leaf_jobs.len(),
                position_of(self@.leaf_jobs, job_id, 0) == position_of(
                    self@.leaf_jobs,
                    job_id,
                    position as int,
                ),
            decreases self.leaf_jobs.len() - position,
        {
            if self.leaf_jobs[position].id == job_id {
                return position;
            }
            position = position + 1;
        }
        position
    }

    /// Adds a job that nobody has claimed. A job whose identifier the store
    /// already has is not added.
    pub fn insert_leaf_aggregation_job(&mut self, metadata: LeafAggregationJobMetadata) -> (added:
        bool)
        ensures
            added <==> old(self)@.status_of(metadata.id) is None,
            final(self)@ == old(self)@.after_insert(metadata),
    {
        let position = self.find_job(metadata.id);
        if position < self.leaf_jobs.len() {
            return false;
        }
        self.leaf_jobs.push(
            LeafJobRow {
                id: metadata.id,
                block_number: metadata.block_number,
                circuit_id: metadata.circuit_id,
                prover_job_ids_for_proofs: metadata.prover_job_ids_for_proofs,
                status: JobStatus::Pending,
                error: None,
                time_taken: None,
            },
        );
        assert(self@.leaf_jobs =~= old(self)@.after_insert(metadata).leaf_jobs);
        true
    }

    /// Claims the first job that nobody has claimed, and hands out its
    /// description. The claim is one step: the job is claimed when the call
    /// returns, and no later claim gives it out again.
    pub fn get_next_leaf_aggregation_job(&mut self) -> (claimed: Option<
        LeafAggregationJobMetadata,
    >)
        ensures
            final(self)@ == old(self)@.after_claim(),
            old(self)@.claimable() is None <==> claimed is None,
            claimed matches Some(metadata) ==> {
                let job = old(self)@.claimable()->Some_0;
                &&& metadata.id == job.id
                &&& metadata.block_number == job.block_number
                &&& metadata.circuit_id == job.circuit_id
                &&& metadata.prover_job_ids_for_proofs@ == job.prover_job_ids_for_proofs
            },
    {
        let mut position: usize = 0;
        while position < self.leaf_jobs.len()
            invariant
                position <= self.leaf_jobs.len(),
                self@.leaf_jobs.len() == self.leaf_jobs.len(),
                *self == *old(self),
                first_pending(self@.leaf_jobs, 0) == first_pending(
                    self@.leaf_jobs,
                    position as int,
                ),
            decreases self.leaf_jobs.len() - position,
        {
            if self.leaf_jobs[position].status == JobStatus::Pending {
                let mut proof_ids: Vec<u32> = Vec::new();
                let count: usize = self.leaf_jobs[position].prover_job_ids_for_proofs.len();
                let mut next: usize = 0;
                while next < count
                    invariant
                        position < self.leaf_jobs.len(),
                        count == self.leaf_jobs[position as int].prover_job_ids_for_proofs.len(),
                        next <= count,
                        proof_ids@ == self.leaf_jobs[position as int].prover_job_ids_for_proofs@.subrange(
                            0,
                            next as int,
                        ),
                    decreases count - next,
                {
                    proof_ids.push(self.leaf_jobs[position].prover_job_ids_for_proofs[next]);
                    next = next + 1;
                }
                assert(proof_ids@ == self.leaf_jobs[position as int].prover_job_ids_for_proofs@);
                let metadata = LeafAggregationJobMetadata {
                    id: self.leaf_jobs[position].id,
                    block_number: self.leaf_jobs[position].block_number,
                    circuit_id: self.leaf_jobs[position].circuit_id,
                    prover_job_ids_for_proofs: proof_ids,
                };
                self.leaf_jobs[position].status = JobStatus::Claimed;
                assert(self@.leaf_jobs =~= old(self)@.after_claim().leaf_jobs);
                return Some(metadata);
            }
            position = position + 1;
        }
        None
    }

    /// Records that the job `job_id` failed for the reason `error`. Only a
    /// claimed job fails; the answer says whether the job did.
    pub fn mark_leaf_aggregation_job_failed(&mut self, error: &str, job_id: u32) -> (failed: bool)
        ensures
            final(self)@ == old(self)@.after_failure(job_id, error@),
            failed <==> old(self)@.status_of(job_id) == Some(JobStatus::Claimed),
    {
        let position = self.find_job(job_id);
        if position >= self.leaf_jobs.len() {
            return false;
        }
        if self.leaf_jobs[position].status != JobStatus::Claimed {
            return false;
        }
        self.leaf_jobs[position].status = JobStatus::Failed;
        self.leaf_jobs[position].error = Some(String::from_str(error));
        assert(self@.leaf_jobs =~= old(self)@.after_failure(job_id, error@).leaf_jobs);
        true
    }

    fn find_aggregation(&self, block_number: L1BatchNumber, circuit_id: u8, depth: u16) -> (position:
        usize)
        ensures
            position == aggregation_position(
                self@.node_aggregations,
                block_number,
                circuit_id,
                depth,
                0,
            ),
            position <= self.node_aggregations.len(),
    {
        let mut position: usize = 0;
        while position < self.node_aggregations.len()
            invariant
                position <= self.node_aggregations.len(),
                self@.node_aggregations.len() == self.node_aggregations.len(),
                aggregation_position(self@.node_aggregations, block_number, circuit_id, depth, 0)
                    == aggregation_position(
                    self@.node_aggregations,
                    block_number,
                    circuit_id,
                    depth,
                    position as int,
                ),
            decreases self.node_aggregations.len() - position,
        {
            let row = &self.node_aggregations[position];
            if row.block_number == block_number && row.circuit_id == circuit_id && row.depth
                == depth {
                return position;
            }
            position = position + 1;
        }
        position
    }

    /// Runs the transaction `update`. It commits if the job that it marks as
    /// successful is claimed and the transaction is not interrupted; then all
    /// of its statements have taken effect. Otherwise none has: the store is as
    /// it was, and the job is to be reported as failed.
    pub fn execute(&mut self, update: DatabaseUpdate, interrupted: bool) -> (result: Result<
        (),
        JobError,
    >)
        ensures
            result is Ok <==> old(self)@.accepts(update) && !interrupted,
            final(self)@ == old(self)@.after_transaction(update, interrupted),
            result matches Err(error) ==> {
                &&& error matches JobError::StateAdvance { reason }
                &&& reason@ == if old(self)@.accepts(update) {
                    "transaction was interrupted"@
                } else {
                    "job is not in progress"@
                }
            },
    {
        let mark = update.mark_leaf_aggregation_as_successful;
        let node = update.update_node_aggregation_jobs_url;
        let insert = update.insert_prover_jobs;
        let job = self.find_job(mark.job_id);
        if job >= self.leaf_jobs.len() || self.leaf_jobs[job].status != JobStatus::Claimed {
            return Err(JobError::StateAdvance { reason: String::from_str("job is not in progress") });
        }
        if interrupted {
            return Err(
                JobError::StateAdvance { reason: String::from_str("transaction was interrupted") },
            );
        }
        let ghost created = created_jobs(update);
        let ghost before = old(self)@.prover_jobs;
        let block_number = insert.block_number;
        let aggregation_round = insert.aggregation_round;
        let depth: u16 = insert.depth;
        for entry in it: insert.circuit_ids_and_urls
            invariant
                it.seq() == insert.circuit_ids_and_urls@,
                created == created_jobs(update),
                insert == update.insert_prover_jobs,
                block_number == insert.block_number,
                aggregation_round == insert.aggregation_round,
                depth == insert.depth,
                self.leaf_jobs == old(self).leaf_jobs,
                self.node_aggregations == old(self).node_aggregations,
                self@.prover_jobs == before + created.subrange(0, it.index() as int),
        {
            let ghost done = it.index() as int;
            let ghost prior = self@.prover_jobs;
            assert(entry == insert.circuit_ids_and_urls@[done]);
            let (circuit_id, url) = entry;
            self.prover_jobs.push(
                ProverJobRow { block_number, circuit_id, url, aggregation_round, depth },
            );
            assert(self@.prover_jobs =~= prior.push(created[done]));
            assert(before + created.subrange(0, done + 1) =~= (before + created.subrange(
                0,
                done,
            )).push(created[done]));
        }
        assert(created.subrange(0, created.len() as int) =~= created);
        let position = self.find_aggregation(node.block_number, node.circuit_id, node.depth);
        let row = NodeAggregationRow {
            block_number: node.block_number,
            circuit_id: node.circuit_id,
            depth: node.depth,
            number_of_dependent_jobs: node.number_of_dependent_jobs,
            url: node.url,
        };
        if position < self.node_aggregations.len() {
            self.node_aggregations[position] = row;
        } else {
            self.node_aggregations.push(row);
        }
        assert(self@.node_aggregations =~= updated_aggregations(
            old(self)@.node_aggregations,
            update,
        ));
        self.leaf_jobs[job].status = JobStatus::Succeeded;
        self.leaf_jobs[job].time_taken = Some(mark.time_taken);
        assert(self@.leaf_jobs =~= old(self)@.after_update(update).leaf_jobs);
        Ok(())
    }
}

/// Whether the jobs `after` are the jobs `before` some steps later: every job
/// is still there under its identifier, and a job that was claimed has not
/// become claimable again.
pub open spec fn keeps_claims(before: Seq<LeafJob>, after: Seq<LeafJob>) -> bool {
    &&& before.len() <= after.len()
    &&& forall|i: int|
        0 <= i < before.len() ==> (#[trigger] after[i]).id == before[i].id && (before[i].status
            != JobStatus::Pending ==> after[i].status != JobStatus::Pending)
}

proof fn first_pending_is_pending(jobs: Seq<LeafJob>, from: int)
    requires
        0 <= from,
    ensures
        from <= first_pending(jobs, from) || first_pending(jobs, from) == jobs.len(),
        first_pending(jobs, from) <= jobs.len(),
        first_pending(jobs, from) < jobs.len() ==> jobs[first_pending(jobs, from)].status
            == JobStatus::Pending,
    decreases jobs.len() - from,
{
    if from < jobs.len() && jobs[from].status != JobStatus::Pending {
        first_pending_is_pending(jobs, from + 1);
    }
}

/// What holds of the position that `position_of` finds: it lies at or after
/// `from`, it holds the job looked for, and no job before it does.
spec fn first_position_bounds(jobs: Seq<LeafJob>, job_id: u32, from: int) -> bool {
    let p = position_of(jobs, job_id, from);
    &&& p <= jobs.len()
    &&& (from <= p || p == jobs.len())
    &&& p < jobs.len() ==> jobs[p].id == job_id
    &&& forall|i: int| from <= i < p && i < jobs.len() ==> (#[trigger] jobs[i]).id != job_id
}

proof fn position_of_is_found(jobs: Seq<LeafJob>, job_id: u32, from: int)
    requires
        0 <= from,
    ensures
        first_position_bounds(jobs, job_id, from),
    decreases jobs.len() - from,
{
    if from < jobs.len() && jobs[from].id != job_id {
        position_of_is_found(jobs, job_id, from + 1);
    }
}

/// No two claims give out the same job. A claim gives out a job that nobody
/// had claimed, and leaves it claimed; whatever the store goes through after
/// that, as long as it keeps its claims, a later claim gives out another job.
pub proof fn claims_are_exclusive(store: Database, later: Database)
    requires
        store.well_formed(),
        later.well_formed(),
        store.claimable() is Some,
        keeps_claims(store.after_claim().leaf_jobs, later.leaf_jobs),
        later.claimable() is Some,
    ensures
        store.claimable()->Some_0.status == JobStatus::Pending,
        store.after_claim().status_of(store.claimable()->Some_0.id) == Some(JobStatus::Claimed),
        later.claimable()->Some_0.id != store.claimable()->Some_0.id,
{
    first_pending_is_pending(store.leaf_jobs, 0);
    first_pending_is_pending(later.leaf_jobs, 0);
    let i = first_pending(store.leaf_jobs, 0);
    let j = first_pending(later.leaf_jobs, 0);
    let claimed = store.after_claim();
    assert(claimed.leaf_jobs[i].status == JobStatus::Claimed);
    assert(later.leaf_jobs[i].id == claimed.leaf_jobs[i].id);
    assert(later.leaf_jobs[i].status != JobStatus::Pending);
    assert(i != j);
    position_of_is_found(claimed.leaf_jobs, store.leaf_jobs[i].id, 0);
    let p = position_of(claimed.leaf_jobs, store.leaf_jobs[i].id, 0);
    assert(claimed.leaf_jobs[i].id == store.leaf_jobs[i].id);
    if p < i {
        assert(claimed.leaf_jobs[p].id == store.leaf_jobs[p].id);
    }
    assert(p == i);
    if i < j {
        assert(later.leaf_jobs[i].id != later.leaf_jobs[j].id);
    } else {
        assert(later.leaf_jobs[j].id != later.leaf_jobs[i].id);
    }
}

/// Every step of the store keeps its claims: a new job, a claim, a recorded
/// failure and a transaction, interrupted or not, take no job back to where
/// it can be claimed, and they keep the identifiers apart.
pub proof fn steps_keep_claims(
    store: Database,
    metadata: LeafAggregationJobMetadata,
    job_id: u32,
    error: Seq<char>,
    update: DatabaseUpdate,
    interrupted: bool,
)
    requires
        store.well_formed(),
    ensures
        keeps_claims(store.leaf_jobs, store.after_insert(metadata).leaf_jobs),
        store.after_insert(metadata).well_formed(),
        keeps_claims(store.leaf_jobs, store.after_claim().leaf_jobs),
        keeps_claims(store.leaf_jobs, store.after_failure(job_id, error).leaf_jobs),
        keeps_claims(store.leaf_jobs, store.after_transaction(update, interrupted).leaf_jobs),
        store.after_claim().well_formed(),
        store.after_failure(job_id, error).well_formed(),
        store.after_transaction(update, interrupted).well_formed(),
{
    first_pending_is_pending(store.leaf_jobs, 0);
    position_of_is_found(store.leaf_jobs, job_id, 0);
    position_of_is_found(store.leaf_jobs, update.mark_leaf_aggregation_as_successful.job_id, 0);
    position_of_is_found(store.leaf_jobs, metadata.id, 0);
    let added = store.after_insert(metadata);
    assert forall|i: int, j: int| 0 <= i < j < added.leaf_jobs.len() implies (
    #[trigger] added.leaf_jobs[i]).id != (#[trigger] added.leaf_jobs[j]).id by {
        assert(added.leaf_jobs[i].id == store.leaf_jobs[i].id);
        if j < store.leaf_jobs.len() {
            assert(added.leaf_jobs[j].id == store.leaf_jobs[j].id);
        }
    }
    let a = store.after_claim();
    assert forall|i: int, j: int| 0 <= i < j < a.leaf_jobs.len() implies (#[trigger] a.leaf_jobs[i]).id
        != (#[trigger] a.leaf_jobs[j]).id by {
        assert(a.leaf_jobs[i].id == store.leaf_jobs[i].id);
        assert(a.leaf_jobs[j].id == store.leaf_jobs[j].id);
    }
    let b = store.after_failure(job_id, error);
    assert forall|i: int, j: int| 0 <= i < j < b.leaf_jobs.len() implies (#[trigger] b.leaf_jobs[i]).id
        != (#[trigger] b.leaf_jobs[j]).id by {
        assert(b.leaf_jobs[i].id == store.leaf_jobs[i].id);
        assert(b.leaf_jobs[j].id == store.leaf_jobs[j].id);
    }
    let c = store.after_transaction(update, interrupted);
    assert forall|i: int, j: int| 0 <= i < j < c.leaf_jobs.len() implies (#[trigger] c.leaf_jobs[i]).id
        != (#[trigger] c.leaf_jobs[j]).id by {
        assert(c.leaf_jobs[i].id == store.leaf_jobs[i].id);
        assert(c.leaf_jobs[j].id == store.leaf_jobs[j].id);
    }
}

/// Keeping claims carries over any number of steps: over none,
pub proof fn keeping_claims_is_reflexive(jobs: Seq<LeafJob>)
    ensures
        keeps_claims(jobs, jobs),
{
}

/// and over one step after another.
pub proof fn keeping_claims_is_transitive(a: Seq<LeafJob>, b: Seq<LeafJob>, c: Seq<LeafJob>)
    requires
        keeps_claims(a, b),
        keeps_claims(b, c),
    ensures
        keeps_claims(a, c),
{
    assert forall|i: int| 0 <= i < a.len() implies (#[trigger] c[i]).id == a[i].id && (a[i].status
        != JobStatus::Pending ==> c[i].status != JobStatus::Pending) by {
        assert(b[i].id == a[i].id);
    }
}

/// A transaction takes effect as a whole or not at all. One that is
/// interrupted before its commit, or that the store does not accept, leaves
/// neither downstream jobs nor the mark of success: the store is as before.
/// One that commits leaves every downstream job it names, and the job has
/// succeeded.
pub proof fn transactions_are_atomic(store: Database, update: DatabaseUpdate, interrupted: bool)
    requires
        store.well_formed(),
    ensures
        interrupted || !store.accepts(update) ==> store.after_transaction(update, interrupted)
            == store,
        !interrupted && store.accepts(update) ==> {
            let after = store.after_transaction(update, interrupted);
            let job_id = update.mark_leaf_aggregation_as_successful.job_id;
            &&& after.prover_jobs == store.prover_jobs + created_jobs(update)
            &&& created_jobs(update).len() == update.insert_prover_jobs.circuit_ids_and_urls@.len()
            &&& after.status_of(job_id) == Some(JobStatus::Succeeded)
        },
{
    let job_id = update.mark_leaf_aggregation_as_successful.job_id;
    position_of_is_found(store.leaf_jobs, job_id, 0);
    if !interrupted && store.accepts(update) {
        let after = store.after_transaction(update, interrupted);
        let i = position_of(store.leaf_jobs, job_id, 0);
        position_of_is_found(after.leaf_jobs, job_id, 0);
        let p = position_of(after.leaf_jobs, job_id, 0);
        assert(after.leaf_jobs[i].id == job_id);
        if p < i {
            assert(after.leaf_jobs[p].id == store.leaf_jobs[p].id);
        }
        assert(p == i);
    }
}

/// A transaction that has committed does not commit again: when the step that
/// saves a job is tried a second time, the store rejects the transaction and
/// no downstream job is created twice.
pub proof fn committed_transaction_is_not_repeated(store: Database, update: DatabaseUpdate)
    requires
        store.well_formed(),
        store.accepts(update),
    ensures
        !store.after_transaction(update, false).accepts(update),
        store.after_transaction(update, false).after_transaction(update, false)
            == store.after_transaction(update, false),
{
    transactions_are_atomic(store, update, false);
}

} // verus!
