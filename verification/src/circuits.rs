//! The table that names, for a base-layer circuit, the recursive circuit that
//! aggregates its proofs.

use vstd::prelude::*;

verus! {

/// Lookup table from the identifier of a base-layer circuit to the identifier
/// of its leaf-layer recursive circuit. An entry is `None` where the base
/// circuit has no leaf circuit.
#[derive(Debug, PartialEq, Eq)]
pub struct LeafCircuitTable {
    pub entries: Vec<Option<u8>>,
}

/// The offset between a base-layer circuit and its leaf circuit in the layout
/// that `LeafCircuitTable::standard` describes.
pub const STANDARD_LEAF_OFFSET: u8 = 2;

/// What a table of the given entries answers for `base_id`.
pub open spec fn leaf_circuit_of(entries: Seq<Option<u8>>, base_id: u8) -> Option<u8> {
    if (base_id as int) < entries.len() {
        entries[base_id as int]
    } else {
        None
    }
}

/// What a table answers in which every base circuit is `offset` below its leaf
/// circuit.
pub open spec fn offset_leaf_circuit(offset: u8, base_id: u8) -> Option<u8> {
    if base_id + offset <= u8::MAX {
        Some((base_id + offset) as u8)
    } else {
        None
    }
}

impl LeafCircuitTable {
    /// The answer of the table for `base_id`.
    pub open spec fn leaf_of(&self, base_id: u8) -> Option<u8> {
        leaf_circuit_of(self.entries@, base_id)
    }

    /// A table without entries.
    pub fn new() -> (table: LeafCircuitTable)
        ensures
            forall|base_id: u8| table.leaf_of(base_id) is None,
    {
        LeafCircuitTable { entries: Vec::new() }
    }

    /// A table in which the leaf circuit of `base_id` is `base_id + offset`,
    /// for every base circuit for which that sum is an identifier.
    pub fn with_offset(offset: u8) -> (table: LeafCircuitTable)
        ensures
            forall|base_id: u8| table.leaf_of(base_id) == offset_leaf_circuit(offset, base_id),
    {
        let mut entries: Vec<Option<u8>> = Vec::new();
        let count: u16 = 256 - offset as u16;
        let mut next: u16 = 0;
        while next < count
            invariant
                entries.len() == next,
                next <= count,
                count == 256 - offset,
                forall|i: int|
                    0 <= i < entries.len() ==> #[trigger] entries[i] == Some((i + offset) as u8),
            decreases count - next,
        {
            entries.push(Some((next + offset as u16) as u8));
            next = next + 1;
        }
        let table = LeafCircuitTable { entries };
        assert forall|id: u8| table.leaf_of(id) == offset_leaf_circuit(offset, id) by {
            if id + offset <= u8::MAX {
                assert((id as int) < table.entries.len());
            }
        }
        table
    }

    /// The table of the standard layout.
    pub fn standard() -> (table: LeafCircuitTable)
        ensures
            forall|base_id: u8|
                table.leaf_of(base_id) == offset_leaf_circuit(STANDARD_LEAF_OFFSET, base_id),
    {
        LeafCircuitTable::with_offset(STANDARD_LEAF_OFFSET)
    }

    /// Sets the leaf circuit of `base_id`, and leaves every other entry as it
    /// was.
    pub fn set(&mut self, base_id: u8, leaf_id: Option<u8>)
        ensures
            final(self).leaf_of(base_id) == leaf_id,
            forall|other: u8| other != base_id ==> final(self).leaf_of(other) == old(self).leaf_of(other),
    {
        while self.entries.len() <= base_id as usize
            invariant
                forall|other: u8| self.leaf_of(other) == old(self).leaf_of(other),
                old(self).entries.len() <= self.entries.len(),
            decreases base_id + 1 - self.entries.len(),
        {
            self.entries.push(None);
        }
        self.entries[base_id as usize] = leaf_id;
    }

    /// The leaf circuit of `base_id`, if the table has one.
    pub fn get(&self, base_id: u8) -> (leaf_id: Option<u8>)
        ensures
            leaf_id == self.leaf_of(base_id),
    {
        if (base_id as usize) < self.entries.len() {
            self.entries[base_id as usize]
        } else {
            None
        }
    }
}

/// The identifier of the recursive circuit that aggregates the proofs of the
/// base-layer circuit `base_layer_circuit_id`, by the given table.
pub fn get_recursive_layer_circuit_id_for_base_layer(
    table: &LeafCircuitTable,
    base_layer_circuit_id: u8,
) -> (leaf_id: Option<u8>)
    ensures
        leaf_id == table.leaf_of(base_layer_circuit_id),
{
    table.get(base_layer_circuit_id)
}

} // verus!
