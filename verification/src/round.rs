//! Rounds of the aggregation pipeline, in the order in which a batch passes
//! through them.

use vstd::prelude::*;

verus! {

/// One round of the pipeline. The declaration order is the pipeline order.
#[derive(Clone, Copy, Debug, PartialEq, Eq, Structural)]
pub enum AggregationRound {
    BasicCircuits,
    LeafAggregation,
    NodeAggregation,
    Scheduler,
}

impl AggregationRound {
    /// Position of the round in the pipeline, starting at zero.
    pub open spec fn position(self) -> int {
        match self {
            AggregationRound::BasicCircuits => 0,
            AggregationRound::LeafAggregation => 1,
            AggregationRound::NodeAggregation => 2,
            AggregationRound::Scheduler => 3,
        }
    }

    /// The round that follows `self`, if there is one.
    pub open spec fn following(self) -> Option<AggregationRound> {
        match self {
            AggregationRound::BasicCircuits => Some(AggregationRound::LeafAggregation),
            AggregationRound::LeafAggregation => Some(AggregationRound::NodeAggregation),
            AggregationRound::NodeAggregation => Some(AggregationRound::Scheduler),
            AggregationRound::Scheduler => None,
        }
    }

    /// Position of the round in the pipeline, starting at zero.
    pub fn index(self) -> (i: u8)
        ensures
            i == self.position(),
    {
        match self {
            AggregationRound::BasicCircuits => 0,
            AggregationRound::LeafAggregation => 1,
            AggregationRound::NodeAggregation => 2,
            AggregationRound::Scheduler => 3,
        }
    }

    /// The round with the given position, if the position names one.
    pub fn from_index(i: u8) -> (round: Option<AggregationRound>)
        ensures
            i <= 3 <==> round is Some,
            round matches Some(r) ==> r.position() == i,
    {
        match i {
            0 => Some(AggregationRound::BasicCircuits),
            1 => Some(AggregationRound::LeafAggregation),
            2 => Some(AggregationRound::NodeAggregation),
            3 => Some(AggregationRound::Scheduler),
            _ => None,
        }
    }

    /// The round whose jobs a job of this round gives rise to. The last round
    /// has none.
    pub fn next(self) -> (round: Option<AggregationRound>)
        ensures
            round == self.following(),
    {
        match self {
            AggregationRound::BasicCircuits => Some(AggregationRound::LeafAggregation),
            AggregationRound::LeafAggregation => Some(AggregationRound::NodeAggregation),
            AggregationRound::NodeAggregation => Some(AggregationRound::Scheduler),
            AggregationRound::Scheduler => None,
        }
    }

    /// Whether `self` comes strictly before `other` in the pipeline.
    pub fn precedes(self, other: AggregationRound) -> (b: bool)
        ensures
            b == (self.position() < other.position()),
    {
        self.index() < other.index()
    }
}

/// The following round is the one directly after: a round never leads back to
/// itself or to an earlier round, and only the last round leads nowhere.
pub proof fn following_round_is_next(round: AggregationRound)
    ensures
        round.following() matches Some(next) ==> next.position() == round.position() + 1,
        round.following() is None <==> round == AggregationRound::Scheduler,
{
}

/// The round of the leaf-aggregation stage: its measurements and log lines
/// are labelled with it.
pub open spec fn stage_round() -> AggregationRound {
    AggregationRound::LeafAggregation
}

/// The round that the jobs created by a leaf-aggregation job belong to.
pub open spec fn downstream_round() -> AggregationRound {
    AggregationRound::NodeAggregation
}

/// The jobs that the stage creates belong to the round directly after its
/// own, never to its own round or an earlier one.
pub proof fn downstream_round_is_next()
    ensures
        stage_round().following() == Some(downstream_round()),
        stage_round().position() < downstream_round().position(),
{
}

} // verus!
