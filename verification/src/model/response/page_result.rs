//! A page of results with its paging information.

use vstd::prelude::*;
use crate::model::domain::pagination_result::PaginationResult;
use crate::model::domain::users::{shows, ResponseUser, User};

verus! {

/// One page of items.
#[derive(Clone, Debug)]
pub struct PageResponse<T> {
    pub data: Vec<T>,
    pub pageable: PaginationResult,
}

impl PageResponse<ResponseUser> {
    /// The public view of a page of accounts: same paging, each account
    /// shown without its id and hash, in the same order.
    pub fn from(page: PageResponse<User>) -> (r: PageResponse<ResponseUser>)
        ensures
            r.pageable == page.pageable,
            r.data.len() == page.data.len(),
            forall|i: int| 0 <= i < r.data.len() ==> shows(#[trigger] r.data@[i], page.data@[i]),
    {
        let mut data: Vec<ResponseUser> = Vec::new();
        let mut i: usize = 0;
        while i < page.data.len()
            invariant
                i <= page.data.len(),
                data.len() == i,
                forall|j: int| 0 <= j < i ==> shows(#[trigger] data@[j], page.data@[j]),
            decreases page.data.len() - i,
        {
            data.push(ResponseUser::from_ref(&page.data[i]));
            i = i + 1;
        }
        PageResponse { data, pageable: page.pageable }
    }
}

} // verus!
