//! Cursor pagination with a page size that is always between 1 and 100.
pub use crate::helpers::pagination::{Direction, HasOrderedId};
use crate::helpers::pagination::{
    cursor_of, direction_of, ids_of, page_rows, read_order_cursors, CursorPaginationParams as RawParams,
    CursorPaginationResponse as RawResponse,
};
use vstd::prelude::*;

verus! {

/// The number of rows on a page: from 1 to 100, and 10 when a request asks for another number.
#[derive(Clone, Copy, Debug, PartialEq, Eq)]
pub struct PerPage(usize);

impl PerPage {
    #[verifier::type_invariant]
    spec fn in_range(self) -> bool {
        1 <= self.0 <= 100
    }

    /// The page size.
    pub closed spec fn size(self) -> usize {
        self.0
    }

    /// The page size, a number from 1 to 100.
    pub fn value(self) -> (n: usize)
        ensures
            n == self.size(),
            1 <= n <= 100,
    {
        proof {
            use_type_invariant(&self);
        }
        self.0
    }

    /// The page size that a request's number asks for: the number itself from 1 to 100, and
    /// 10 otherwise.
    pub fn from_usize(value: usize) -> (p: Self)
        ensures
            p.size() == (if 1 <= value <= 100 {
                value
            } else {
                10
            }),
    {
        if 1 <= value && value <= 100 {
            PerPage(value)
        } else {
            PerPage(10)
        }
    }
}

impl Default for PerPage {
    fn default() -> (p: Self)
        ensures
            p.size() == 10,
    {
        PerPage(10)
    }
}

impl From<usize> for PerPage {
    fn from(value: usize) -> (p: Self)
        ensures
            p.size() == (if 1 <= value <= 100 {
                value
            } else {
                10
            }),
    {
        PerPage::from_usize(value)
    }
}

impl vstd::std_specs::convert::FromSpecImpl<usize> for PerPage {
    open spec fn obeys_from_spec() -> bool {
        true
    }

    closed spec fn from_spec(value: usize) -> Self {
        PerPage(
            if 1 <= value <= 100 {
                value
            } else {
                10
            },
        )
    }
}

/// What a request asks for: a page size and at most one cursor.
#[derive(Clone, Copy, Debug, Default)]
pub struct CursorPaginationParams {
    pub per_page: PerPage,
    pub prev_page: Option<u128>,
    pub next_page: Option<u128>,
}

impl CursorPaginationParams {
    /// The number of rows on a page.
    pub fn limit(&self) -> (r: usize)
        ensures
            r == self.per_page.size(),
            1 <= r <= 100,
    {
        self.per_page.value()
    }

    /// One row more than a page holds.
    pub fn limit_with_lookahead(&self) -> (r: usize)
        ensures
            r == self.per_page.size() + 1,
    {
        self.limit() + 1
    }

    /// The id that the page starts after.
    pub fn cursor(&self) -> (r: Option<u128>)
        ensures
            r == cursor_of(self.prev_page, self.next_page),
    {
        self.raw().cursor()
    }

    /// The order in which the page is read.
    pub fn direction(&self) -> (r: Direction)
        ensures
            r == direction_of(self.prev_page, self.next_page),
    {
        self.raw().direction()
    }

    fn raw(&self) -> (r: RawParams)
        ensures
            r.per_page == self.per_page.size(),
            r.prev_page == self.prev_page,
            r.next_page == self.next_page,
    {
        RawParams { per_page: self.per_page.value(), prev_page: self.prev_page, next_page: self.next_page }
    }
}

/// The cursors of the pages before and after the one shown.
#[derive(Debug)]
pub struct CursorPaginationResponse {
    pub prev_page: Option<u128>,
    pub next_page: Option<u128>,
}

impl CursorPaginationResponse {
    /// The cursors around a page read without look-ahead (see the page size-free version).
    pub fn new<T: HasOrderedId>(params: &CursorPaginationParams, results: &mut Vec<T>) -> (r: Self)
        ensures
            direction_of(params.prev_page, params.next_page) == Direction::Ascending ==> final(results)@ == old(results)@.reverse() && r.prev_page == (if old(results)@.len() > 0 {
                Some(old(results)@.last().ordered_id_spec())
            } else {
                None
            }) && r.next_page == (if old(results)@.len() > 0 {
                Some(old(results)@[0].ordered_id_spec())
            } else {
                None
            }),
            direction_of(params.prev_page, params.next_page) == Direction::Descending ==> final(results)@ == old(results)@ && r.prev_page == (if old(results)@.len() > 0 {
                Some(old(results)@[0].ordered_id_spec())
            } else {
                None
            }) && r.next_page == (if old(results)@.len() > 0 {
                Some(old(results)@.last().ordered_id_spec())
            } else {
                None
            }),
    {
        let raw = RawResponse::new(&params.raw(), results);
        CursorPaginationResponse { prev_page: raw.prev_page, next_page: raw.next_page }
    }

    /// The cursors around a page read with `limit_with_lookahead`; the row past the page, if
    /// any, is dropped, and rows read in ascending order are put back into descending order.
    pub fn new_with_lookahead<T: HasOrderedId>(
        params: &CursorPaginationParams,
        results: &mut Vec<T>,
    ) -> (r: Self)
        ensures
            ({
                let ids = ids_of(old(results)@);
                let cursors = read_order_cursors(
                    ids,
                    params.per_page.size(),
                    cursor_of(params.prev_page, params.next_page) is Some,
                );
                let kept = page_rows(old(results)@, params.per_page.size());
                if direction_of(params.prev_page, params.next_page) == Direction::Ascending {
                    &&& final(results)@ == kept.reverse()
                    &&& r.prev_page == cursors.1
                    &&& r.next_page == cursors.0
                } else {
                    &&& final(results)@ == kept
                    &&& r.prev_page == cursors.0
                    &&& r.next_page == cursors.1
                }
            }),
            old(results)@.len() == params.per_page.size() + 1 ==> {
                &&& final(results)@.len() == params.per_page.size()
                &&& (direction_of(params.prev_page, params.next_page) == Direction::Descending
                    ==> r.next_page == Some(final(results)@.last().ordered_id_spec()))
                &&& (direction_of(params.prev_page, params.next_page) == Direction::Ascending
                    ==> r.prev_page == Some(final(results)@[0].ordered_id_spec()))
            },
    {
        proof {
            use_type_invariant(&params.per_page);
        }
        let raw = RawResponse::new_with_lookahead(&params.raw(), results);
        CursorPaginationResponse { prev_page: raw.prev_page, next_page: raw.next_page }
    }
}

} // verus!
