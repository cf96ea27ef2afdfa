//! Paging query parameters.

use vstd::prelude::*;
use crate::validation::{check_range, errors_view, finish, outcome, range_error, range_ok, FieldError, FieldErrorView, ValidationErrors};

verus! {

/// `?page=..&pagesize=..`; the page is counted from 0.
#[derive(Clone, Debug)]
pub struct PageRequest {
    pub page: i64,
    pub pagesize: i64,
}

/// Page size used when the request gives none.
pub fn default_page_size() -> (r: i64)
    ensures
        r == 10,
{
    10
}

/// Page used when the request gives none.
pub fn default_page() -> (r: i64)
    ensures
        r == 0,
{
    0
}

/// Failed rules of a paging request: the page must be at least 0 and the
/// page size at least 1.
pub open spec fn page_request_errors(p: PageRequest) -> Seq<FieldErrorView> {
    (if range_ok(p.page as int, Some(0), None) {
        Seq::empty()
    } else {
        seq![range_error("page"@, p.page as int, Some(0), None)]
    }) + (if range_ok(p.pagesize as int, Some(1), None) {
        Seq::empty()
    } else {
        seq![range_error("pagesize"@, p.pagesize as int, Some(1), None)]
    })
}

impl PageRequest {
    /// Validates the paging parameters.
    pub fn validate(&self) -> (r: Result<(), ValidationErrors>)
        ensures
            outcome(page_request_errors(*self), r),
    {
        let mut errs: Vec<FieldError> = Vec::new();
        check_range(&mut errs, "page", self.page, Some(0), None);
        check_range(&mut errs, "pagesize", self.pagesize, Some(1), None);
        assert(errors_view(errs@) =~= page_request_errors(*self));
        finish(errs)
    }
}

} // verus!
