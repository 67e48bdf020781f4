use gluestick::helpers::pagination::{CursorPaginationParams, CursorPaginationResponse, Direction};
use gluestick::helpers::pagination_helper::{
    CursorPaginationParams as SizedParams, CursorPaginationResponse as SizedResponse, PerPage,
};
use gluestick::models::paste::{Body, Description, Filename, Paste, Visibility};
use gluestick::params::prelude::Error;

fn paste(id: u128) -> Paste {
    Paste {
        id,
        user_id: 1,
        filename: Filename::parse("a.txt").unwrap(),
        description: Description::parse("").unwrap(),
        body: Body::parse("x").unwrap(),
        visibility: Visibility::Public,
        created_at: 0,
        updated_at: 0,
    }
}

fn ids(v: &[Paste]) -> Vec<u128> {
    v.iter().map(|p| p.id).collect()
}

fn params(per_page: usize, prev_page: Option<u128>, next_page: Option<u128>) -> CursorPaginationParams {
    CursorPaginationParams { per_page, prev_page, next_page }
}

#[test]
fn cursor_and_direction() {
    let p = params(10, None, None);
    assert_eq!((p.cursor(), p.direction()), (None, Direction::Descending));
    let p = params(10, Some(5), None);
    assert_eq!((p.cursor(), p.direction()), (Some(5), Direction::Ascending));
    let p = params(10, Some(5), Some(7));
    assert_eq!((p.cursor(), p.direction()), (Some(7), Direction::Descending));
    assert_eq!(p.limit(), 10);
    assert_eq!(p.limit_with_lookahead(), 11);
    assert_eq!(Direction::Ascending.to_raw_sql(), "ASC");
    assert_eq!(Direction::Descending.to_raw_sql(), "DESC");
    let d = CursorPaginationParams::default();
    assert_eq!((d.per_page, d.prev_page, d.next_page), (10, None, None));
}

#[test]
fn page_size_is_validated() {
    assert!(params(1, None, None).validate().is_ok());
    assert!(params(100, None, None).validate().is_ok());
    for (n, msg) in [(0, "'per_page' must be greater than 0"), (101, "'per_page' may not be greater than 100")] {
        match params(n, None, None).validate() {
            Err(Error::Report(r)) => assert_eq!(r.get_first("per_page").unwrap(), msg),
            other => panic!("unexpected {other:?}"),
        }
    }
}

#[test]
fn first_page_with_more_rows() {
    let mut rows = vec![paste(9), paste(8), paste(7)];
    let r = CursorPaginationResponse::new_with_lookahead(&params(2, None, None), &mut rows);
    assert_eq!(ids(&rows), vec![9, 8]);
    assert_eq!((r.prev_page, r.next_page), (None, Some(8)));
}

#[test]
fn last_page_after_a_cursor() {
    let mut rows = vec![paste(6), paste(5)];
    let r = CursorPaginationResponse::new_with_lookahead(&params(2, None, Some(7)), &mut rows);
    assert_eq!(ids(&rows), vec![6, 5]);
    assert_eq!((r.prev_page, r.next_page), (Some(6), None));
}

#[test]
fn previous_page_is_put_back_in_order() {
    let mut rows = vec![paste(7), paste(8), paste(9)];
    let r = CursorPaginationResponse::new_with_lookahead(&params(2, Some(6), None), &mut rows);
    assert_eq!(ids(&rows), vec![8, 7]);
    assert_eq!((r.prev_page, r.next_page), (Some(8), Some(7)));
}

#[test]
fn page_without_lookahead() {
    let mut rows = vec![paste(3), paste(4)];
    let r = CursorPaginationResponse::new(&params(2, Some(2), None), &mut rows);
    assert_eq!(ids(&rows), vec![4, 3]);
    assert_eq!((r.prev_page, r.next_page), (Some(4), Some(3)));
    let mut empty: Vec<Paste> = Vec::new();
    let r = CursorPaginationResponse::new(&params(2, None, None), &mut empty);
    assert_eq!((r.prev_page, r.next_page), (None, None));
}

#[test]
fn page_size_is_kept_in_range() {
    assert_eq!(PerPage::from_usize(0).value(), 10);
    assert_eq!(PerPage::from_usize(1).value(), 1);
    assert_eq!(PerPage::from_usize(100).value(), 100);
    assert_eq!(PerPage::from(101).value(), 10);
    assert_eq!(PerPage::default().value(), 10);
    let p = SizedParams { per_page: PerPage::from_usize(2), prev_page: None, next_page: None };
    assert_eq!(p.limit_with_lookahead(), 3);
    let mut rows = vec![paste(9), paste(8), paste(7)];
    let r = SizedResponse::new_with_lookahead(&p, &mut rows);
    assert_eq!(ids(&rows), vec![9, 8]);
    assert_eq!(r.next_page, Some(8));
}
