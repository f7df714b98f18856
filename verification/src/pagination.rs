//! Paging through results.
use vstd::prelude::*;

verus! {

/// How many results to skip and how many to return at most.
#[derive(Debug, Clone, Copy, PartialEq, Eq, Structural)]
pub struct Pagination {
    pub limit: Option<i64>,
    pub skip: Option<i64>,
}

} // verus!
