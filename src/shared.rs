use vstd::prelude::*;

use crate::error::{AccessError, AppResult};

verus! {

/// One page of a listing and the number of items in the whole listing.
pub struct PaginatedList<T> {
    pub count: i64,
    pub items: Vec<T>,
}

/// Which page of a listing to show, counting from 1, and its size.
pub struct PaginationInput {
    pub page: i64,
    pub page_size: i64,
}

pub fn default_page() -> (r: i64)
    ensures
        r == 1,
{
    1
}

pub fn default_page_size() -> (r: i64)
    ensures
        r == 10,
{
    10
}

/// The number of items before the page: `(page - 1) * page_size`, where the
/// subtraction saturates at `i64::MIN`.
pub open spec fn page_offset(page: i64, page_size: i64) -> int {
    let before = if page - 1 < i64::MIN {
        i64::MIN as int
    } else {
        page - 1
    };
    before * page_size
}

impl PaginationInput {
    /// The offset of the page in the listing; `None` when it does not fit in
    /// an `i64`.
    pub fn offset(&self) -> (r: Option<i64>)
        ensures
            match r {
                Some(o) => o == page_offset(self.page, self.page_size),
                None => !(i64::MIN <= page_offset(self.page, self.page_size) <= i64::MAX),
            },
    {
        let before = if self.page == i64::MIN {
            i64::MIN
        } else {
            self.page - 1
        };
        before.checked_mul(self.page_size)
    }
}

/// The answer to a listing: `200` with the page and the total count (`0`
/// when counting failed), or a failure when the page could not be read.
pub fn paginated<T>(items: Option<Vec<T>>, count: Option<i64>) -> (r: AppResult<PaginatedList<T>>)
    ensures
        match items {
            Some(v) => r matches AppResult::Result(code, list) && code == 200 && list.items == v
                && list.count == match count {
                Some(c) => c,
                None => 0,
            },
            None => r matches AppResult::Error(code, msg) && code == 500 && msg@
                == "Something went wrong!"@,
        },
{
    match items {
        Some(v) => {
            let c = match count {
                Some(c) => c,
                None => 0,
            };
            AppResult::Result(200, PaginatedList { count: c, items: v })
        },
        None => {
            let e = AccessError::UpstreamFailure;
            AppResult::Error(e.status_code(), e.message())
        },
    }
}

} // verus!
