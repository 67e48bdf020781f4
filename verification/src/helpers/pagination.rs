//! Cursor pagination: which page a request asks for, and the cursors of the neighbouring
//! pages.
use crate::params::pastes::message_if;
use crate::params::prelude::{reports, single_field, Result};
use vstd::prelude::*;

verus! {

pub const PER_PAGE_DEFAULT: usize = 10;
pub const PER_PAGE_MAX: usize = 100;

pub const PER_PAGE_REPORT_KEY: &'static str = "per_page";
pub const PER_PAGE_TOO_SMALL_MESSAGE: &'static str = "'per_page' must be greater than 0";
pub const PER_PAGE_TOO_LARGE_MESSAGE: &'static str = "'per_page' may not be greater than 100";

/// The order in which a page lists its rows, by id.
#[derive(Clone, Copy, Debug, PartialEq, Eq, Structural)]
pub enum Direction {
    Ascending,
    Descending,
}

impl Direction {
    /// The SQL keyword for the order.
    pub fn to_raw_sql(&self) -> (s: &'static str)
        ensures
            s@ == (match self {
                Direction::Ascending => "ASC"@,
                Direction::Descending => "DESC"@,
            }),
    {
        match self {
            Direction::Ascending => "ASC",
            Direction::Descending => "DESC",
        }
    }
}

/// A row that a page can be cut at: it has an id, and ids order the rows.
pub trait HasOrderedId {
    spec fn ordered_id_spec(&self) -> u128;

    fn ordered_id(&self) -> (r: u128)
        ensures
            r == self.ordered_id_spec(),
    ;
}

/// The ids of `rows`, in order.
pub open spec fn ids_of<T: HasOrderedId>(rows: Seq<T>) -> Seq<u128> {
    rows.map_values(|r: T| r.ordered_id_spec())
}

/// The cursor that a request names: the next page's when both are (wrongly) given.
pub open spec fn cursor_of(prev_page: Option<u128>, next_page: Option<u128>) -> Option<u128> {
    match next_page {
        Some(c) => Some(c),
        None => prev_page,
    }
}

/// The direction a request reads in: ascending only when it asks for the previous page
/// alone.
pub open spec fn direction_of(prev_page: Option<u128>, next_page: Option<u128>) -> Direction {
    if prev_page is Some && next_page is None {
        Direction::Ascending
    } else {
        Direction::Descending
    }
}

/// The messages that a page size earns.
pub open spec fn per_page_errors(per_page: usize) -> Seq<Seq<char>> {
    message_if(per_page < 1, PER_PAGE_TOO_SMALL_MESSAGE@) + message_if(
        per_page > PER_PAGE_MAX,
        PER_PAGE_TOO_LARGE_MESSAGE@,
    )
}

/// What a request asks for: a page size and at most one cursor.
#[derive(Clone, Copy, Debug)]
pub struct CursorPaginationParams {
    pub per_page: usize,
    pub prev_page: Option<u128>,
    pub next_page: Option<u128>,
}

impl Default for CursorPaginationParams {
    fn default() -> (r: Self)
        ensures
            r.per_page == PER_PAGE_DEFAULT,
            r.prev_page is None,
            r.next_page is None,
    {
        CursorPaginationParams { per_page: PER_PAGE_DEFAULT, prev_page: None, next_page: None }
    }
}

impl CursorPaginationParams {
    /// The number of rows on a page.
    pub fn limit(&self) -> (r: usize)
        ensures
            r == self.per_page,
    {
        self.per_page
    }

    /// One row more than a page holds, so that a query can tell whether another page follows.
    pub fn limit_with_lookahead(&self) -> (r: usize)
        requires
            self.per_page < usize::MAX,
        ensures
            r == self.per_page + 1,
    {
        self.per_page + 1
    }

    /// The id that the page starts after.
    pub fn cursor(&self) -> (r: Option<u128>)
        ensures
            r == cursor_of(self.prev_page, self.next_page),
    {
        match self.next_page {
            Some(c) => Some(c),
            None => self.prev_page,
        }
    }

    /// The order in which the page is read.
    pub fn direction(&self) -> (r: Direction)
        ensures
            r == direction_of(self.prev_page, self.next_page),
    {
        match (self.prev_page, self.next_page) {
            (Some(_), None) => Direction::Ascending,
            _ => Direction::Descending,
        }
    }

    /// Reports a page size under 1 or over 100.
    pub fn validate(&self) -> (r: Result<()>)
        ensures
            reports(r, single_field(PER_PAGE_REPORT_KEY@, per_page_errors(self.per_page))),
    {
        let report = crate::params::pastes::report_of(
            PER_PAGE_REPORT_KEY,
            self.per_page < 1,
            PER_PAGE_TOO_SMALL_MESSAGE,
            self.per_page > PER_PAGE_MAX,
            PER_PAGE_TOO_LARGE_MESSAGE,
            false,
            "",
            false,
            "",
        );
        assert(message_if(self.per_page < 1, PER_PAGE_TOO_SMALL_MESSAGE@) + message_if(
            self.per_page > PER_PAGE_MAX,
            PER_PAGE_TOO_LARGE_MESSAGE@,
        ) + message_if(false, ""@) + message_if(false, ""@) =~= per_page_errors(self.per_page));
        report.to_result()
    }
}

/// The rows that a page shows of what a look-ahead query returned: all but the extra row.
pub open spec fn page_rows<T>(rows: Seq<T>, per_page: usize) -> Seq<T> {
    if rows.len() > per_page {
        rows.drop_last()
    } else {
        rows
    }
}

/// The cursors of the neighbouring pages, in the order the query read the rows.
pub open spec fn read_order_cursors(
    ids: Seq<u128>,
    per_page: usize,
    has_cursor: bool,
) -> (Option<u128>, Option<u128>) {
    let prev = if has_cursor && ids.len() > 0 {
        Some(ids[0])
    } else {
        None
    };
    let kept = page_rows(ids, per_page);
    let next = if ids.len() > per_page && kept.len() > 0 {
        Some(kept.last())
    } else {
        None
    };
    (prev, next)
}

/// A page read with look-ahead (at most one row more than the page size) shows at most
/// `per_page` rows: the first ones read. Its cursor towards the rest of the rows exists exactly
/// when the extra row came back, and it is then the id of the last row shown, not of the extra
/// row, so the next page starts with the extra row. Its cursor back exists exactly when the
/// request named a cursor and some row came back, and it is the id of the first row read.
pub proof fn lemma_lookahead_page(ids: Seq<u128>, per_page: usize, has_cursor: bool)
    requires
        per_page >= 1,
        ids.len() <= per_page + 1,
    ensures
        page_rows(ids, per_page).len() <= per_page,
        page_rows(ids, per_page) == ids.take(page_rows(ids, per_page).len() as int),
        read_order_cursors(ids, per_page, has_cursor).1 is Some <==> ids.len() > per_page,
        read_order_cursors(ids, per_page, has_cursor).0 is Some <==> (has_cursor && ids.len() > 0),
        ids.len() == per_page + 1 ==> read_order_cursors(ids, per_page, has_cursor).1 == Some(
            ids[per_page - 1],
        ),
        has_cursor && ids.len() > 0 ==> read_order_cursors(ids, per_page, has_cursor).0 == Some(
            ids[0],
        ),
{
    if ids.len() > per_page {
        assert(ids.drop_last() =~= ids.take(per_page as int));
    } else {
        assert(ids =~= ids.take(ids.len() as int));
    }
}

/// A request that names only the previous page's cursor reads in ascending order from it; any
/// other request reads in descending order, from the next page's cursor when it names one.
pub proof fn lemma_cursor_direction(prev_page: Option<u128>, next_page: Option<u128>)
    ensures
        direction_of(prev_page, next_page) == Direction::Ascending <==> (prev_page is Some
            && next_page is None),
        direction_of(prev_page, next_page) == Direction::Ascending ==> cursor_of(
            prev_page,
            next_page,
        ) == prev_page,
        next_page is Some ==> cursor_of(prev_page, next_page) == next_page && direction_of(
            prev_page,
            next_page,
        ) == Direction::Descending,
        cursor_of(prev_page, next_page) is None ==> direction_of(prev_page, next_page)
            == Direction::Descending,
{
}

/// `v`, reversed in place.
pub fn reverse_vec<T>(v: &mut Vec<T>)
    ensures
        final(v)@ == old(v)@.reverse(),
{
    let mut out: Vec<T> = Vec::new();
    let ghost orig = v@;
    while v.len() > 0
        invariant
            v@ == orig.subrange(0, v@.len() as int),
            out@ == orig.subrange(v@.len() as int, orig.len() as int).reverse(),
            v@.len() <= orig.len(),
        decreases v@.len(),
    {
        let ghost before = v@;
        let x = v.pop().unwrap();
        proof {
            assert(out@.push(x) =~= orig.subrange(v@.len() as int, orig.len() as int).reverse());
        }
        out.push(x);
    }
    assert(out@ =~= orig.reverse());
    *v = out;
}

/// The cursors of the pages before and after the one shown.
#[derive(Debug)]
pub struct CursorPaginationResponse {
    pub prev_page: Option<u128>,
    pub next_page: Option<u128>,
}

impl CursorPaginationResponse {
    /// The cursors around a page whose rows were read without look-ahead: its first and last
    /// ids. Rows read in ascending order are put back into descending order.
    pub fn new<T: HasOrderedId>(params: &CursorPaginationParams, results: &mut Vec<T>) -> (r: Self)
        ensures
            direction_of(params.prev_page, params.next_page) == Direction::Ascending ==> final(results)@ == old(results)@.reverse()
                && r.prev_page == (if old(results)@.len() > 0 {
                    Some(old(results)@.last().ordered_id_spec())
                } else {
                    None
                }) && r.next_page == (if old(results)@.len() > 0 {
                    Some(old(results)@[0].ordered_id_spec())
                } else {
                    None
                }),
            direction_of(params.prev_page, params.next_page) == Direction::Descending ==> final(results)@ == old(results)@
                && r.prev_page == (if old(results)@.len() > 0 {
                    Some(old(results)@[0].ordered_id_spec())
                } else {
                    None
                }) && r.next_page == (if old(results)@.len() > 0 {
                    Some(old(results)@.last().ordered_id_spec())
                } else {
                    None
                }),
    {
        let n = results.len();
        let mut prev_page = if n > 0 {
            Some(results[0].ordered_id())
        } else {
            None
        };
        let mut next_page = if n > 0 {
            Some(results[n - 1].ordered_id())
        } else {
            None
        };
        if params.direction() == Direction::Ascending {
            reverse_vec(results);
            let t = next_page;
            next_page = prev_page;
            prev_page = t;
        }
        CursorPaginationResponse { prev_page, next_page }
    }

    /// The cursors around a page whose rows were read with `limit_with_lookahead`: the row past
    /// the page, if any, is dropped. A page reached through a cursor has a previous page; a page
    /// followed by more rows has a next one. Rows read in ascending order are put back into
    /// descending order, and the two cursors trade places.
    pub fn new_with_lookahead<T: HasOrderedId>(
        params: &CursorPaginationParams,
        results: &mut Vec<T>,
    ) -> (r: Self)
        ensures
            ({
                let ids = ids_of(old(results)@);
                let cursors = read_order_cursors(
                    ids,
                    params.per_page,
                    cursor_of(params.prev_page, params.next_page) is Some,
                );
                let kept = page_rows(old(results)@, params.per_page);
                if direction_of(params.prev_page, params.next_page) == Direction::Ascending {
                    &&& final(results)@ == kept.reverse()
                    &&& r.prev_page == cursors.1
                    &&& r.next_page == cursors.0
                } else {
                    &&& final(results)@ == kept
                    &&& r.prev_page == cursors.0
                    &&& r.next_page == cursors.1
                }
            }),
            old(results)@.len() == params.per_page + 1 && params.per_page >= 1 ==> {
                &&& final(results)@.len() == params.per_page
                &&& (direction_of(params.prev_page, params.next_page) == Direction::Descending
                    ==> r.next_page == Some(final(results)@.last().ordered_id_spec()))
                &&& (direction_of(params.prev_page, params.next_page) == Direction::Ascending
                    ==> r.prev_page == Some(final(results)@[0].ordered_id_spec()))
            },
    {
        let ghost ids = ids_of(results@);
        let mut prev_page = match params.cursor() {
            Some(_) => if results.len() > 0 {
                Some(results[0].ordered_id())
            } else {
                None
            },
            None => None,
        };
        let mut next_page: Option<u128> = None;
        let ghost orig = results@;
        if results.len() > params.per_page {
            results.pop();
            assert(results@ =~= orig.drop_last());
            if results.len() > 0 {
                let last = results.len() - 1;
                next_page = Some(results[last].ordered_id());
                assert(page_rows(ids, params.per_page) =~= ids_of(results@));
            }
        }
        if params.direction() == Direction::Ascending {
            reverse_vec(results);
            let t = next_page;
            next_page = prev_page;
            prev_page = t;
        }
        CursorPaginationResponse { prev_page, next_page }
    }
}

/// The SQL condition that starts a page after its cursor, given the order of the page.
pub fn cursor_condition(cursor: Option<u128>, direction: Direction) -> (s: &'static str)
    ensures
        s@ == (match (cursor, direction) {
            (None, _) => ""@,
            (Some(_), Direction::Ascending) => "AND pastes.id > :cursor"@,
            (Some(_), Direction::Descending) => "AND pastes.id < :cursor"@,
        }),
{
    match (cursor, direction) {
        (None, _) => "",
        (Some(_), Direction::Ascending) => "AND pastes.id > :cursor",
        (Some(_), Direction::Descending) => "AND pastes.id < :cursor",
    }
}

/// The SQL condition on a paste's visibility in a listing: only public pastes, unless the
/// listing is its owner's own, which shows the secret ones too.
pub fn visibility_condition(with_secrets: bool) -> (s: &'static str)
    ensures
        s@ == (if with_secrets {
            "1 = 1"@
        } else {
            "pastes.visibility = 'public'"@
        }),
{
    if with_secrets {
        "1 = 1"
    } else {
        "pastes.visibility = 'public'"
    }
}

} // verus!
