//! Pagination: the page requested and one page of results.

use vstd::prelude::*;

verus! {

/// Page number used where the request names none.
pub const DEFAULT_PAGE: u64 = 1;

/// Page size used where the request names none.
pub const DEFAULT_SIZE: u64 = 15;

/// The page requested: a number counted from 1, and a size.
#[derive(Debug, Clone, Copy, PartialEq, Eq, Structural)]
pub struct PaginationParams {
    pub page: u64,
    pub size: u64,
}

/// The page number used where the request names none.
pub fn default_page() -> (r: u64)
    ensures
        r == DEFAULT_PAGE,
{
    DEFAULT_PAGE
}

/// The page size used where the request names none.
pub fn default_size() -> (r: u64)
    ensures
        r == DEFAULT_SIZE,
{
    DEFAULT_SIZE
}

/// One page of results, with the total number of results over all pages.
#[derive(Debug)]
pub struct Page<T> {
    pub page: u64,
    pub size: u64,
    pub total: u64,
    pub items: Vec<T>,
}

impl<T> Page<T> {
    /// A page made of the given parts.
    pub fn new(page: u64, size: u64, total: u64, items: Vec<T>) -> (r: Self)
        ensures
            r.page == page,
            r.size == size,
            r.total == total,
            r.items@ == items@,
    {
        Page { page, size, total, items }
    }

    /// The page that answers the request `pagination`.
    pub fn from_pagination(pagination: PaginationParams, total: u64, items: Vec<T>) -> (r: Self)
        ensures
            r.page == pagination.page,
            r.size == pagination.size,
            r.total == total,
            r.items@ == items@,
    {
        Self::new(pagination.page, pagination.size, total, items)
    }
}

} // verus!
