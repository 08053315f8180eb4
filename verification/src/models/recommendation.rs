//! The life of a recommendation.

use vstd::prelude::*;

verus! {

/// Where a recommendation stands.
#[derive(Clone, Copy, Debug, PartialEq, Eq, Structural)]
pub enum RecommendationStatus {
    Pending,
    Approved,
    Rejected,
    Executed,
    Failed,
}

impl Default for RecommendationStatus {
    /// A recommendation that has just arrived awaits a verdict.
    fn default() -> (status: Self)
        ensures
            status == RecommendationStatus::Pending,
    {
        RecommendationStatus::Pending
    }
}

impl RecommendationStatus {
    /// Nothing more happens to the recommendation.
    pub open spec fn spec_is_final(self) -> bool {
        self == RecommendationStatus::Rejected || self == RecommendationStatus::Executed || self
            == RecommendationStatus::Failed
    }

    /// Tells whether nothing more happens to the recommendation.
    pub fn is_final(&self) -> (done: bool)
        ensures
            done == self.spec_is_final(),
    {
        match self {
            RecommendationStatus::Rejected
            | RecommendationStatus::Executed
            | RecommendationStatus::Failed => true,
            _ => false,
        }
    }
}

} // verus!
