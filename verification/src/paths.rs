//! The plain values routes extract from a request's path and query.

use vstd::prelude::*;

verus! {

/// A verification token taken from the path.
#[derive(Debug)]
pub struct TokenPath {
    pub token: String,
}

/// A resource id taken from the path.
#[derive(Debug, Clone, Copy, PartialEq, Eq, Structural)]
pub struct ResourceIDPath {
    pub id: i32,
}

/// Pagination and search parameters taken from the query string.
#[derive(Debug)]
pub struct PaginationExtractor {
    pub per_page: Option<i64>,
    pub page: Option<i64>,
    pub q: Option<String>,
}

} // verus!
