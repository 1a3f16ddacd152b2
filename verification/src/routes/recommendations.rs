//! Recommendation requests.
use vstd::prelude::*;

verus! {

/// A user looked at an item.
#[derive(Debug, Clone)]
pub struct TrackViewRequest {
    pub item_id: String,
}

/// How many recommendations to show.
#[derive(Debug, Clone, Copy, PartialEq, Eq, Structural)]
pub struct PaginationQuery {
    pub limit: Option<usize>,
}

impl PaginationQuery {
    /// The number of recommendations: 10 unless told otherwise, at most 50.
    pub fn effective_limit(&self) -> (r: usize)
        ensures
            r == match self.limit {
                Some(l) => if l < 50 {
                    l
                } else {
                    50
                },
                None => 10,
            },
            r <= 50,
    {
        let l = match self.limit {
            Some(l) => l,
            None => 10,
        };
        if l < 50 {
            l
        } else {
            50
        }
    }
}

} // verus!
