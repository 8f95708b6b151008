//! A blob store held in memory: the contract of the blob store that the stage
//! writes to and reads from, as a value that can be run.

use vstd::prelude::*;
use vstd::string::StringExecFns;
use crate::keys::{AggregationsKey, ClosedFormInputKey, FriCircuitKey};
use crate::round::AggregationRound;
use crate::text::{append_decimal, decimal};

verus! {

/// The key of a blob.
#[derive(Clone, Copy, Debug, PartialEq, Eq, Structural)]
pub enum BlobKey {
    ClosedFormInput(ClosedFormInputKey),
    Proof(u32),
    Aggregations(AggregationsKey),
    Circuit(FriCircuitKey),
}

/// The name of a round in a url.
pub open spec fn round_name(round: AggregationRound) -> Seq<char> {
    match round {
        AggregationRound::BasicCircuits => "BasicCircuits"@,
        AggregationRound::LeafAggregation => "LeafAggregation"@,
        AggregationRound::NodeAggregation => "NodeAggregation"@,
        AggregationRound::Scheduler => "Scheduler"@,
    }
}

/// The url of the blob with the given key.
pub open spec fn url_of(key: BlobKey) -> Seq<char> {
    match key {
        BlobKey::ClosedFormInput(key) => "closed_form_inputs_"@ + decimal(
            key.block_number.0 as nat,
        ) + "_"@ + decimal(key.circuit_id as nat) + ".bin"@,
        BlobKey::Proof(id) => "proof_"@ + decimal(id as nat) + ".bin"@,
        BlobKey::Aggregations(key) => "aggregations_"@ + decimal(key.block_number.0 as nat) + "_"@
            + decimal(key.circuit_id as nat) + "_"@ + decimal(key.depth as nat) + ".bin"@,
        BlobKey::Circuit(key) => decimal(key.block_number.0 as nat) + "_"@ + decimal(
            key.sequence_number as nat,
        ) + "_"@ + decimal(key.circuit_id as nat) + "_"@ + round_name(key.aggregation_round)
            + "_"@ + decimal(key.depth as nat) + ".bin"@,
    }
}

fn round_text(round: AggregationRound) -> (name: &'static str)
    ensures
        name@ == round_name(round),
{
    match round {
        AggregationRound::BasicCircuits => "BasicCircuits",
        AggregationRound::LeafAggregation => "LeafAggregation",
        AggregationRound::NodeAggregation => "NodeAggregation",
        AggregationRound::Scheduler => "Scheduler",
    }
}

impl BlobKey {
    /// The url of the blob with this key.
    pub fn url(&self) -> (url: String)
        ensures
            url@ == url_of(*self),
    {
        match self {
            BlobKey::ClosedFormInput(key) => {
                let mut url = String::from_str("closed_form_inputs_");
                append_decimal(&mut url, key.block_number.0 as u64);
                url.append("_");
                append_decimal(&mut url, key.circuit_id as u64);
                url.append(".bin");
                url
            },
            BlobKey::Proof(id) => {
                let mut url = String::from_str("proof_");
                append_decimal(&mut url, *id as u64);
                url.append(".bin");
                url
            },
            BlobKey::Aggregations(key) => {
                let mut url = String::from_str("aggregations_");
                append_decimal(&mut url, key.block_number.0 as u64);
                url.append("_");
                append_decimal(&mut url, key.circuit_id as u64);
                url.append("_");
                append_decimal(&mut url, key.depth as u64);
                url.append(".bin");
                url
            },
            BlobKey::Circuit(key) => {
                let mut url = String::new();
                append_decimal(&mut url, key.block_number.0 as u64);
                url.append("_");
                append_decimal(&mut url, key.sequence_number);
                url.append("_");
                append_decimal(&mut url, key.circuit_id as u64);
                url.append("_");
                url.append(round_text(key.aggregation_round));
                url.append("_");
                append_decimal(&mut url, key.depth as u64);
                url.append(".bin");
                url
            },
        }
    }
}

/// What a store with the given writes, oldest first, holds under `key`: the
/// value of the latest write under that key.
pub open spec fn content<V>(writes: Seq<(BlobKey, V)>, key: BlobKey) -> Option<V>
    decreases writes.len(),
{
    if writes.len() == 0 {
        None
    } else if writes.last().0 == key {
        Some(writes.last().1)
    } else {
        content(writes.drop_last(), key)
    }
}

/// A blob store in memory that takes a bounded number of writes.
#[derive(Debug, PartialEq, Eq)]
pub struct MemoryBlobStore<V> {
    /// The writes that the store accepted, oldest first.
    pub writes: Vec<(BlobKey, V)>,
    /// The number of writes that the store accepts in all.
    pub capacity: usize,
}

impl<V> MemoryBlobStore<V> {
    /// What the store holds under `key`.
    pub open spec fn holds(&self, key: BlobKey) -> Option<V> {
        content(self.writes@, key)
    }

    /// An empty store that accepts `capacity` writes.
    pub fn new(capacity: usize) -> (store: MemoryBlobStore<V>)
        ensures
            store.capacity == capacity,
            store.writes@.len() == 0,
            forall|key: BlobKey| store.holds(key) is None,
    {
        MemoryBlobStore { writes: Vec::new(), capacity }
    }

    /// The blob under `key`, if there is one. Reading changes nothing.
    pub fn get(&self, key: BlobKey) -> (blob: Option<&V>)
        ensures
            blob matches Some(value) ==> self.holds(key) == Some(*value),
            blob is None <==> self.holds(key) is None,
    {
        let mut remaining: usize = self.writes.len();
        assert(self.writes@.subrange(0, remaining as int) =~= self.writes@);
        while remaining > 0
            invariant
                remaining <= self.writes.len(),
                content(self.writes@, key) == content(self.writes@.subrange(0, remaining as int), key),
            decreases remaining,
        {
            let ghost prefix = self.writes@.subrange(0, remaining as int);
            remaining = remaining - 1;
            assert(prefix.last() == self.writes@[remaining as int]);
            assert(prefix.drop_last() =~= self.writes@.subrange(0, remaining as int));
            if self.writes[remaining].0 == key {
                return Some(&self.writes[remaining].1);
            }
        }
        assert(self.writes@.subrange(0, 0).len() == 0);
        None
    }

    /// Writes `value` under `key` and answers with the url of the blob. A
    /// store that has taken all the writes it accepts rejects the write and
    /// stays as it is.
    pub fn put(&mut self, key: BlobKey, value: V) -> (outcome: Result<String, String>)
        ensures
            final(self).capacity == old(self).capacity,
            old(self).writes.len() < old(self).capacity <==> outcome is Ok,
            outcome matches Ok(url) ==> {
                &&& url@ == url_of(key)
                &&& final(self).writes@ == old(self).writes@.push((key, value))
                &&& final(self).holds(key) == Some(value)
                &&& forall|other: BlobKey|
                    other != key ==> final(self).holds(other) == old(self).holds(other)
            },
            outcome matches Err(reason) ==> {
                &&& reason@ == "blob store is full"@
                &&& *final(self) == *old(self)
            },
    {
        if self.writes.len() >= self.capacity {
            return Err(String::from_str("blob store is full"));
        }
        self.writes.push((key, value));
        proof {
            let writes = self.writes@;
            assert(writes.drop_last() =~= old(self).writes@);
            assert(writes.last() == (key, value));
        }
        Ok(key.url())
    }
}

/// Reading the same key twice gives the same content: a read changes nothing,
/// so both reads see the same store, and what a store holds under a key is
/// decided by its writes.
pub proof fn reads_are_repeatable<V>(
    store: MemoryBlobStore<V>,
    key: BlobKey,
    first: Option<V>,
    second: Option<V>,
)
    requires
        first == store.holds(key),
        second == store.holds(key),
    ensures
        first == second,
{
}

/// A write under one key does not change what is read under another.
pub proof fn writes_leave_other_keys<V>(
    writes: Seq<(BlobKey, V)>,
    written: BlobKey,
    value: V,
    key: BlobKey,
)
    requires
        written != key,
    ensures
        content(writes.push((written, value)), key) == content(writes, key),
        content(writes.push((key, value)), key) == Some(value),
{
    assert(writes.push((written, value)).drop_last() =~= writes);
    assert(writes.push((key, value)).drop_last() =~= writes);
}

} // verus!
