//! Paging of the account listing.

use vstd::prelude::*;
use crate::model::domain::pagination_result::{pages_for, PaginationResult};
use crate::model::domain::users::User;
use crate::model::response::page_result::PageResponse;

verus! {

/// Smallest account id on a page: the listing pages by id, `per_page`
/// ids to a page, converted to the id column's 32-bit type.
pub fn page_start_id(page: i64, per_page: i64) -> (r: i32)
    requires
        i64::MIN <= page * per_page <= i64::MAX,
    ensures
        r == (page * per_page) as i32,
{
    let p: i64 = page * per_page;
    #[verifier::truncate]
    let r = p as i32;
    r
}

/// Number of pages reported for `total` accounts, `per_page` to a page: the
/// rounded-up quotient, as the page count's 32-bit unsigned type holds it
/// (larger counts saturate). A page size of zero reports the largest count
/// when there are accounts, and a negative page size reports none, as the
/// floating-point division and saturating conversion do.
pub open spec fn page_count(total: int, per_page: int) -> int {
    if per_page >= 1 {
        let p = pages_for(total, per_page);
        if p > u32::MAX { u32::MAX as int } else { p }
    } else if per_page == 0 && total > 0 {
        u32::MAX as int
    } else {
        0
    }
}

/// Paging information of a page holding `n` of `total` accounts.
pub open spec fn page_info(n: nat, page: i64, per_page: i64, total: i64) -> PaginationResult {
    PaginationResult {
        number_of_elements: n as usize,
        page: page,
        page_size: per_page,
        total_pages: page_count(total as int, per_page as int) as i64,
        total_elements: total as usize,
    }
}

/// Assembles a page of the account listing from the two query results: the
/// count of all accounts (a failed count counts as 0) and the accounts on
/// the page (a failed load gives an empty page).
pub fn get_all_users(page: i64, per_page: i64, total: Option<i64>, loaded: Option<Vec<User>>) -> (r: PageResponse<User>)
    requires
        total matches Some(t) ==> t >= 0,
    ensures
        r.data@ == match loaded {
            Some(v) => v@,
            None => Seq::empty(),
        },
        r.pageable == page_info(r.data@.len(), page, per_page, match total {
            Some(t) => t,
            None => 0,
        }),
{
    let t: i64 = match total {
        Some(t) => t,
        None => 0,
    };
    let users: Vec<User> = match loaded {
        Some(v) => v,
        None => Vec::new(),
    };
    let max_pages: i64 = 4294967295;
    let total_pages: i64 = if per_page >= 1 {
        let q: i64 = t / per_page;
        let rem: i64 = t % per_page;
        assert(rem != 0 ==> q < i64::MAX) by (nonlinear_arith)
            requires
                t >= 0,
                per_page >= 1,
                q == t / per_page,
                rem == t % per_page,
                t <= i64::MAX,
        {
        }
        let p: i64 = if rem == 0 { q } else { q + 1 };
        proof {
            assert(p == pages_for(t as int, per_page as int)) by (nonlinear_arith)
                requires
                    t >= 0,
                    per_page >= 1,
                    q == t / per_page,
                    rem == t % per_page,
                    p == if rem == 0 { q as int } else { q + 1 },
            {
            }
        }
        if p > max_pages { max_pages } else { p }
    } else if per_page == 0 && t > 0 {
        max_pages
    } else {
        0
    };
    let pageable = PaginationResult {
        number_of_elements: users.len(),
        page: page,
        page_size: per_page,
        total_pages: total_pages,
        total_elements: #[verifier::truncate] (t as usize),
    };
    PageResponse { data: users, pageable }
}

/// How a listing transaction ends.
#[derive(Clone, Copy, PartialEq, Eq, Structural, Debug)]
pub enum TransactionEnd {
    Commit,
    Rollback,
}

/// A listing transaction is committed when the query succeeded and rolled
/// back otherwise.
pub fn transaction_end(query_ok: bool) -> (r: TransactionEnd)
    ensures
        r == (if query_ok { TransactionEnd::Commit } else { TransactionEnd::Rollback }),
{
    if query_ok {
        TransactionEnd::Commit
    } else {
        TransactionEnd::Rollback
    }
}

} // verus!
