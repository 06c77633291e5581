use page_hunter::{BaseQuery, PageWindow, PaginationError, SqlitePaginator};
use sqlx::{QueryBuilder, Sqlite};

fn users() -> BaseQuery<'static> {
    BaseQuery { builder: QueryBuilder::<Sqlite>::new("SELECT * FROM users") }
}

fn paginator(n: usize, size: usize) -> SqlitePaginator<'static> {
    SqlitePaginator::new(users(), n, size).unwrap()
}

fn state(p: &SqlitePaginator) -> (usize, usize, usize, usize, Option<usize>, Option<usize>, String) {
    (
        p.n(),
        p.page_size(),
        p.n_pages(),
        p.cur_page(),
        p.next_page(),
        p.prev_page(),
        p.query().builder.sql().to_string(),
    )
}

#[test]
fn new_starts_on_page_zero() {
    let p = paginator(100, 3);
    assert_eq!(p.n(), 100);
    assert_eq!(p.page_size(), 3);
    assert_eq!(p.n_pages(), 34);
    assert_eq!(p.cur_page(), 0);
    assert_eq!(p.next_page(), Some(1));
    assert_eq!(p.prev_page(), None);
    assert_eq!(p.query().builder.sql(), "SELECT * FROM users");
}

#[test]
fn new_refuses_a_page_size_of_zero() {
    assert!(matches!(
        SqlitePaginator::new(users(), 100, 0),
        Err(PaginationError::InvalidPageSize)
    ));
    assert!(matches!(SqlitePaginator::new(users(), 0, 0), Err(PaginationError::InvalidPageSize)));
}

#[test]
fn new_counts_the_pages() {
    for (n, size, pages, next) in [
        (0usize, 5usize, 0usize, None),
        (1, 5, 1, None),
        (5, 5, 1, None),
        (6, 5, 2, Some(1)),
        (100, 7, 15, Some(1)),
        (100, 100, 1, None),
        (100, 101, 1, None),
        (usize::MAX, 1, usize::MAX, Some(1)),
        (usize::MAX, usize::MAX, 1, None),
        (usize::MAX, 2, usize::MAX / 2 + 1, Some(1)),
    ] {
        let p = paginator(n, size);
        assert_eq!(p.n_pages(), pages, "{} rows by {}", n, size);
        assert_eq!(p.n_pages() == 0, n == 0);
        assert_eq!(p.next_page(), next);
        assert_eq!(p.prev_page(), None);
        assert_eq!(p.cur_page(), 0);
    }
}

#[test]
fn fetch_page_hands_out_the_window() {
    let mut p = paginator(100, 3);
    let window = p.fetch_page(2).unwrap();
    assert_eq!(window, PageWindow { page: 2, limit: 3, offset: 6 });
    assert_eq!(p.query().builder.sql(), "SELECT * FROM users LIMIT ? OFFSET ?");

    let mut p = paginator(100, 7);
    let window = p.fetch_page(4).unwrap();
    assert_eq!(window, PageWindow { page: 4, limit: 7, offset: 28 });
    let window = p.fetch_page(14).unwrap();
    assert_eq!(window, PageWindow { page: 14, limit: 7, offset: 98 });
}

#[test]
fn fetch_page_does_not_move_the_cursor() {
    let mut p = paginator(100, 3);
    p.fetch_page(20).unwrap();
    assert_eq!(p.cur_page(), 0);
    assert_eq!(p.next_page(), Some(1));
    assert_eq!(p.prev_page(), None);
}

#[test]
fn fetch_page_writes_one_window_however_often_it_is_asked() {
    let mut p = paginator(100, 3);
    p.fetch_page(2).unwrap();
    p.fetch_page(5).unwrap();
    p.fetch_page(0).unwrap();
    assert_eq!(p.query().builder.sql(), "SELECT * FROM users LIMIT ? OFFSET ?");
}

#[test]
fn fetch_page_out_of_range_changes_nothing() {
    let mut p = paginator(100, 3);
    p.fetch_page(2).unwrap();
    p.receive_page(2, vec![7, 8, 9]).unwrap();
    let before = state(&p);
    for page in [34, 35, 1000, usize::MAX] {
        assert!(matches!(p.fetch_page(page), Err(PaginationError::PageOutOfRange)));
        assert_eq!(state(&p), before);
    }
    assert_eq!(before.3, 2);
    assert_eq!(before.4, Some(3));
    assert_eq!(before.5, Some(1));
}

#[test]
fn no_page_can_be_fetched_of_no_rows() {
    let mut p = paginator(0, 5);
    let before = state(&p);
    assert!(matches!(p.fetch_page(0), Err(PaginationError::PageOutOfRange)));
    assert!(matches!(p.fetch_page(1), Err(PaginationError::PageOutOfRange)));
    assert!(matches!(p.fetch_cur_page(), Err(PaginationError::PageOutOfRange)));
    assert!(matches!(p.fetch_next_page(), Err(PaginationError::NoNextPage)));
    assert!(matches!(p.fetch_prev_page(), Err(PaginationError::NoPreviousPage)));
    assert!(matches!(p.receive_page(0, vec![1]), Err(PaginationError::PageOutOfRange)));
    assert_eq!(p.fetch_all_pages(), None);
    assert_eq!(state(&p), before);
}

#[test]
fn receive_page_moves_the_cursor() {
    let mut p = paginator(100, 3);
    let window = p.fetch_page(2).unwrap();
    let page = p.receive_page(window.page, vec!["user7", "user8", "user9"]).unwrap();
    assert_eq!(p.cur_page(), 2);
    assert_eq!(p.next_page(), Some(3));
    assert_eq!(p.prev_page(), Some(1));
    assert_eq!(page.get_items(), &vec!["user7", "user8", "user9"]);
    assert_eq!(page.get_page(), 2);
    assert_eq!(page.get_size(), 3);
    assert_eq!(page.get_pages(), 34);
    assert_eq!(page.get_total(), 100);
    assert_eq!(page.get_previous_page(), Some(1));
    assert_eq!(page.get_next_page(), Some(3));
}

#[test]
fn receive_page_out_of_range_changes_nothing() {
    let mut p = paginator(100, 7);
    p.receive_page(4, vec![0u8; 7]).unwrap();
    let before = state(&p);
    assert!(matches!(p.receive_page(15, vec![0u8]), Err(PaginationError::PageOutOfRange)));
    assert_eq!(state(&p), before);
}

#[test]
fn fetch_next_page_on_the_last_page_is_refused() {
    let mut p = paginator(100, 3);
    p.receive_page(33, vec![100]).unwrap();
    assert_eq!(p.cur_page(), 33);
    assert_eq!(p.next_page(), None);
    let before = state(&p);
    assert!(matches!(p.fetch_next_page(), Err(PaginationError::NoNextPage)));
    assert_eq!(p.cur_page(), 33);
    assert_eq!(state(&p), before);
}

#[test]
fn fetch_prev_page_on_the_first_page_is_refused() {
    let mut p = paginator(100, 3);
    let before = state(&p);
    assert!(matches!(p.fetch_prev_page(), Err(PaginationError::NoPreviousPage)));
    assert_eq!(state(&p), before);
}

#[test]
fn fetch_next_and_previous_ask_for_the_neighbours() {
    let mut p = paginator(100, 7);
    p.receive_page(4, vec![0u8; 7]).unwrap();
    assert_eq!(p.fetch_next_page().unwrap(), PageWindow { page: 5, limit: 7, offset: 35 });
    assert_eq!(p.fetch_prev_page().unwrap(), PageWindow { page: 3, limit: 7, offset: 21 });
    assert_eq!(p.fetch_cur_page().unwrap(), PageWindow { page: 4, limit: 7, offset: 28 });
    assert_eq!(p.cur_page(), 4);
}

#[test]
fn a_single_page_has_no_neighbours() {
    let mut p = paginator(3, 5);
    assert_eq!(p.fetch_cur_page().unwrap(), PageWindow { page: 0, limit: 5, offset: 0 });
    assert!(matches!(p.fetch_next_page(), Err(PaginationError::NoNextPage)));
    assert!(matches!(p.fetch_prev_page(), Err(PaginationError::NoPreviousPage)));
}

#[test]
fn all_pages_come_in_order_each_row_once() {
    let data: Vec<u32> = (1..=100).collect();
    for size in [1usize, 3, 7, 10, 99, 100, 101] {
        let mut p = paginator(data.len(), size);
        let mut all = Vec::new();
        let mut asked = Vec::new();
        let mut step = p.fetch_all_pages();
        while let Some(window) = step {
            asked.push(window.page);
            let from = window.offset as usize;
            let to = usize::min(from + window.limit as usize, data.len());
            let rows = data[from..to].to_vec();
            step = p.collect_page(window.page, rows, &mut all).unwrap();
        }
        assert_eq!(all.len(), p.n());
        assert_eq!(all, data);
        assert_eq!(asked, (0..p.n_pages()).collect::<Vec<usize>>());
        assert_eq!(p.cur_page(), p.n_pages() - 1);
        assert_eq!(p.next_page(), None);
    }
}

#[test]
fn collect_page_out_of_range_changes_nothing() {
    let mut p = paginator(10, 5);
    let mut all = vec![1, 2];
    let before = state(&p);
    let outcome = p.collect_page(2, vec![3, 4], &mut all);
    assert!(matches!(outcome, Err(PaginationError::PageOutOfRange)));
    assert_eq!(all, vec![1, 2]);
    assert_eq!(state(&p), before);
}

#[test]
fn collect_page_asks_for_the_page_after() {
    let mut p = paginator(10, 5);
    let mut all = Vec::new();
    let next = p.collect_page(0, vec![1, 2, 3, 4, 5], &mut all).unwrap();
    assert_eq!(next, Some(PageWindow { page: 1, limit: 5, offset: 5 }));
    assert_eq!(p.cur_page(), 0);
    let next = p.collect_page(1, vec![6, 7, 8, 9, 10], &mut all).unwrap();
    assert_eq!(next, None);
    assert_eq!(p.cur_page(), 1);
    assert_eq!(all, vec![1, 2, 3, 4, 5, 6, 7, 8, 9, 10]);
}

#[test]
fn a_window_wider_than_a_bound_integer_wraps() {
    let mut p = paginator(10, usize::MAX);
    let window = p.fetch_page(0).unwrap();
    assert_eq!(window.page, 0);
    assert_eq!(window.offset, 0);
    assert_eq!(window.limit, usize::MAX as i64);
}

#[test]
fn count_query_wraps_the_text() {
    let mut query = users();
    assert_eq!(query.count_query(), "select count(*) from (SELECT * FROM users)");
    query.builder.push(" WHERE age > 30");
    assert_eq!(
        query.count_query(),
        "select count(*) from (SELECT * FROM users WHERE age > 30)"
    );
}

fn filtered() -> BaseQuery<'static> {
    let mut query = users();
    query.builder.push(" WHERE age > ").push(30).push(" ORDER BY id");
    query
}

#[test]
fn rebased_keeps_the_whole_text_through_a_reset() {
    let mut plain = filtered();
    plain.builder.reset();
    assert_eq!(plain.builder.sql(), "SELECT * FROM users");

    let mut fresh = filtered().rebased();
    assert_eq!(fresh.builder.sql(), "SELECT * FROM users WHERE age > 30 ORDER BY id");
    fresh.builder.reset();
    assert_eq!(fresh.builder.sql(), "SELECT * FROM users WHERE age > 30 ORDER BY id");
}

#[test]
fn new_keeps_what_was_pushed_into_the_query() {
    let query = filtered();
    let count = SqlitePaginator::begin(&query, 3).unwrap();
    assert_eq!(count, "select count(*) from (SELECT * FROM users WHERE age > 30 ORDER BY id)");
    let p = SqlitePaginator::new(query, 100, 3).unwrap();
    assert_eq!(p.query().builder.sql(), "SELECT * FROM users WHERE age > 30 ORDER BY id");
}

#[test]
fn pages_are_asked_for_over_the_text_that_was_counted() {
    let mut p = SqlitePaginator::new(filtered(), 100, 3).unwrap();
    let paged = "SELECT * FROM users WHERE age > 30 ORDER BY id LIMIT ? OFFSET ?";
    p.fetch_page(2).unwrap();
    assert_eq!(p.query().builder.sql(), paged);
    p.fetch_page(2).unwrap();
    assert_eq!(p.query().builder.sql(), paged);
    p.receive_page(2, vec![7, 8, 9]).unwrap();
    p.fetch_next_page().unwrap();
    assert_eq!(p.query().builder.sql(), paged);
    p.fetch_prev_page().unwrap();
    assert_eq!(p.query().builder.sql(), paged);
    p.fetch_cur_page().unwrap();
    assert_eq!(p.query().builder.sql(), paged);
    p.fetch_all_pages().unwrap();
    assert_eq!(p.query().builder.sql(), paged);
    let mut all = Vec::new();
    p.collect_page(0, vec![1, 2, 3], &mut all).unwrap();
    assert_eq!(p.query().builder.sql(), paged);
}

#[test]
fn begin_refuses_a_page_size_of_zero() {
    assert!(matches!(
        SqlitePaginator::begin(&users(), 0),
        Err(PaginationError::InvalidPageSize)
    ));
    assert_eq!(
        SqlitePaginator::begin(&users(), 1).unwrap(),
        "select count(*) from (SELECT * FROM users)"
    );
}

#[test]
fn query_mut_hands_out_the_held_query() {
    let mut p = paginator(100, 3);
    p.fetch_page(1).unwrap();
    let sql = p.query_mut().builder.sql().to_string();
    assert_eq!(sql, "SELECT * FROM users LIMIT ? OFFSET ?");
    assert_eq!(p.cur_page(), 0);
}
