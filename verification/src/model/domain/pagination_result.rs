//! Paging information returned with a page of results.

use vstd::prelude::*;

verus! {

/// Where a page stands in the whole result set.
#[derive(Clone, Debug)]
pub struct PaginationResult {
    pub number_of_elements: usize,
    pub page: i64,
    pub page_size: i64,
    pub total_pages: i64,
    pub total_elements: usize,
}

/// Number of pages needed for `total` elements, `per_page` to a page
/// (rounded up).
pub open spec fn pages_for(total: int, per_page: int) -> int {
    (total + per_page - 1) / per_page
}

/// The pages counted for a result set hold all of it and no page is
/// wholly empty: `pages * per_page` reaches the total, and one page fewer
/// would fall short of it.
pub proof fn lemma_pages_cover_total(total: int, per_page: int)
    requires
        total >= 0,
        per_page >= 1,
    ensures
        pages_for(total, per_page) >= 0,
        pages_for(total, per_page) * per_page >= total,
        total > 0 ==> (pages_for(total, per_page) - 1) * per_page < total,
        total == 0 ==> pages_for(total, per_page) == 0,
{
    let p = pages_for(total, per_page);
    assert(p >= 0 && p * per_page >= total && (total > 0 ==> (p - 1) * per_page < total)
        && (total == 0 ==> p == 0)) by (nonlinear_arith)
        requires
            total >= 0,
            per_page >= 1,
            p == (total + per_page - 1) / per_page,
    {
    }
}

} // verus!
