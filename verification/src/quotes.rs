//! The decision logic of the paginated quote listing: how many fetched rows
//! to return, whether to hand out a continuation token, and which page
//! number to report. The storage itself is the caller's concern; it fetches
//! up to four rows per request and acts on the plan.

use vstd::prelude::*;

verus! {

/// What a listing request should answer: how many of the fetched rows to
/// keep, whether a continuation token is owed, and the page number to
/// report.
pub struct ListPlan {
    pub keep: usize,
    pub make_token: bool,
    pub page: i32,
}

/// The plan of a first page, from the number of rows fetched (at most four):
/// a full fetch means more rows may exist, so only the first three are kept
/// and a fresh token is handed out; a shorter fetch is returned whole, with
/// no token. The reported page is always 1.
pub fn plan_first_page(fetched: usize) -> (r: ListPlan)
    requires
        fetched <= 4,
    ensures
        r.make_token == (fetched == 4),
        r.keep == if fetched == 4 {
            3int
        } else {
            fetched as int
        },
        r.page == 1,
{
    if fetched == 4 {
        ListPlan { keep: 3, make_token: true, page: 1 }
    } else {
        ListPlan { keep: fetched, make_token: false, page: 1 }
    }
}

/// The plan of a continuation page, from the number of rows fetched (at most
/// four) and the cursor's stored page: every fetched row is kept; a full
/// fetch keeps the token alive with the cursor advanced by one, a shorter
/// fetch retires it. The reported page is the advanced one.
pub fn plan_token_page(fetched: usize, cursor_page: i32) -> (r: ListPlan)
    requires
        fetched <= 4,
        cursor_page < i32::MAX,
    ensures
        r.make_token == (fetched == 4),
        r.keep == fetched,
        r.page == cursor_page + 1,
{
    ListPlan { keep: fetched, make_token: fetched == 4, page: cursor_page + 1 }
}

} // verus!
