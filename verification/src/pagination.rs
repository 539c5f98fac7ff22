//! The pagination calculator: a (page, limit, total) triple becomes a page
//! window and its metadata.
//!
//! A `limit` of zero is substituted with a floor of one, so that the page
//! count is defined for every input; the substituted value is what the
//! result carries.

use vstd::prelude::*;

verus! {

/// The raw paging query as a transport layer hands it over; absent fields
/// mean the defaults (page 1, limit 10).
#[derive(Debug, Clone)]
pub struct PaginationParams {
    pub page: Option<u64>,
    pub limit: Option<u64>,
}

/// One page of results together with its paging metadata.
#[derive(Debug, Clone)]
pub struct PaginationResult<T> {
    pub data: Vec<T>,
    pub page: u64,
    pub limit: u64,
    pub total: u64,
    pub total_pages: u64,
}

/// `ceil(total / limit)`: the number of pages that `total` rows fill at
/// `limit` rows a page.
pub open spec fn spec_total_pages(total: int, limit: int) -> int
    recommends
        limit >= 1,
{
    if total == 0 {
        0
    } else {
        (total - 1) / limit + 1
    }
}

impl<T> PaginationResult<T> {
    /// Wraps one page of rows. `total_pages` is `ceil(total / limit)`,
    /// with a zero `limit` floored to one.
    pub fn new(data: Vec<T>, page: u64, limit: u64, total: u64) -> (r: Self)
        ensures
            r.data == data,
            r.page == page,
            r.limit == (if limit == 0 { 1u64 } else { limit }),
            r.total == total,
            r.total_pages as int == spec_total_pages(total as int, r.limit as int),
    {
        let lim: u64 = if limit == 0 { 1 } else { limit };
        let total_pages: u64 = if total == 0 {
            0
        } else {
            proof {
                vstd::arithmetic::div_mod::lemma_div_is_ordered_by_denominator(
                    (total - 1) as int,
                    1,
                    lim as int,
                );
            }
            (total - 1) / lim + 1
        };
        Self { data, page, limit: lim, total, total_pages }
    }
}

} // verus!
