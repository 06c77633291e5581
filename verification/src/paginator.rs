//! The cursor over the pages of a query.
//!
//! The paginator does not talk to the data source. Asked for a page, it
//! checks the request, writes the page's window into the query and hands the
//! window out; the caller runs the query and hands the rows back, and only
//! then does the cursor move.

use vstd::prelude::*;
use crate::errors::PaginationError;
use crate::layout::{
    count_pages, lemma_page_bounds, next_of, page_count, page_len, previous_of,
};
use crate::page::{link_model, Page, PageModel};
use crate::query::{
    base_text, bound_values, count_text, query_text, rebased_on, to_bound, window_of, windowed,
    BaseQuery, PageWindow,
};

verus! {

/// Where a paginator stands.
pub struct PaginatorModel {
    pub total: nat,
    pub size: nat,
    pub pages: nat,
    pub current: nat,
    pub next: Option<nat>,
    pub previous: Option<nat>,
}

impl PaginatorModel {
    /// The page count follows from the total and the size, the current page
    /// is one of the pages (page 0 where there is none), and the links lead
    /// to its neighbours.
    pub open spec fn wf(self) -> bool {
        &&& self.size > 0
        &&& self.pages == page_count(self.total, self.size)
        &&& (self.pages > 0 ==> self.current < self.pages)
        &&& (self.pages == 0 ==> self.current == 0)
        &&& self.next == next_of(self.current, self.pages)
        &&& self.previous == previous_of(self.current)
    }

    /// Where a paginator stands when it is made: on page 0.
    pub open spec fn started(total: nat, size: nat) -> PaginatorModel {
        PaginatorModel {
            total,
            size,
            pages: page_count(total, size),
            current: 0,
            next: next_of(0, page_count(total, size)),
            previous: None,
        }
    }

    /// The same paginator, turned to `page`.
    pub open spec fn turned_to(self, page: nat) -> PaginatorModel {
        PaginatorModel {
            current: page,
            next: next_of(page, self.pages),
            previous: previous_of(page),
            ..self
        }
    }

    /// The page that the paginator stands on, holding `items`.
    pub open spec fn page_of<T>(self, items: Seq<T>) -> PageModel<T> {
        PageModel {
            items,
            page: self.current,
            size: self.size,
            total: self.total,
            pages: self.pages,
            previous_page: self.previous,
            next_page: self.next,
        }
    }
}

/// A cursor over the pages of `query`.
pub struct SqlitePaginator<'q> {
    query: BaseQuery<'q>,
    n: usize,
    page_size: usize,
    n_pages: usize,
    cur_page: usize,
    next_page: Option<usize>,
    prev_page: Option<usize>,
}

impl<'q> View for SqlitePaginator<'q> {
    type V = PaginatorModel;

    closed spec fn view(&self) -> PaginatorModel {
        PaginatorModel {
            total: self.n as nat,
            size: self.page_size as nat,
            pages: self.n_pages as nat,
            current: self.cur_page as nat,
            next: link_model(self.next_page),
            previous: link_model(self.prev_page),
        }
    }
}

/// What a paginator answers when it is asked for `page`: out of range, it
/// refuses and stays as it is; in range, it hands out the page's window and
/// has written it into the query. The cursor stays where it was.
pub open spec fn asks_for(
    before: &SqlitePaginator,
    after: &SqlitePaginator,
    page: usize,
    outcome: Result<PageWindow, PaginationError>,
) -> bool {
    &&& after@ == before@
    &&& if page < before@.pages {
        &&& outcome matches Ok(window)
        &&& window == window_of(page, before@.size)
        &&& windowed(&before.held_query(), &after.held_query(), window)
    } else {
        &&& outcome matches Err(PaginationError::PageOutOfRange)
        &&& *after == *before
    }
}

impl<'q> SqlitePaginator<'q> {
    /// The invariant of a paginator.
    pub open spec fn wf(&self) -> bool {
        self@.wf()
    }

    /// The query that is paginated. The window of the page last asked for is
    /// written behind its first text.
    pub closed spec fn held_query(&self) -> BaseQuery<'q> {
        self.query
    }

    /// The query, to read it.
    pub fn query(&self) -> (query: &BaseQuery<'q>)
        ensures
            *query == self.held_query(),
    {
        &self.query
    }

    /// The query, to run it. The cursor is not touched.
    pub fn query_mut(&mut self) -> (query: &mut BaseQuery<'q>)
        ensures
            *query == old(self).held_query(),
            final(self).held_query() == *final(query),
            final(self)@ == old(self)@,
    {
        &mut self.query
    }

    /// The number of rows that are paginated over.
    pub fn n(&self) -> (n: usize)
        ensures
            n == self@.total,
    {
        self.n
    }

    /// The number of rows that a page holds at most.
    pub fn page_size(&self) -> (size: usize)
        ensures
            size == self@.size,
    {
        self.page_size
    }

    /// The number of pages.
    pub fn n_pages(&self) -> (pages: usize)
        ensures
            pages == self@.pages,
    {
        self.n_pages
    }

    /// The number of the current page, counted from 0.
    pub fn cur_page(&self) -> (page: usize)
        ensures
            page == self@.current,
    {
        self.cur_page
    }

    /// The number of the page after the current one, if there is one.
    pub fn next_page(&self) -> (link: Option<usize>)
        ensures
            link_model(link) == self@.next,
    {
        self.next_page
    }

    /// The number of the page before the current one, if there is one.
    pub fn prev_page(&self) -> (link: Option<usize>)
        ensures
            link_model(link) == self@.previous,
    {
        self.prev_page
    }

    /// Begins a paginator over `query`: checks the page size, before anything
    /// is asked of the data source, and hands out the query that counts the
    /// rows of the whole text that `query` holds. A page size of zero is
    /// refused.
    pub fn begin(query: &BaseQuery<'q>, page_size: usize) -> (outcome: Result<
        String,
        PaginationError,
    >)
        ensures
            page_size == 0 ==> outcome matches Err(PaginationError::InvalidPageSize),
            page_size > 0 ==> (outcome matches Ok(sql) && sql@ == count_text(query_text(query))),
    {
        if page_size == 0 {
            return Err(PaginationError::InvalidPageSize);
        }
        Ok(query.count_query())
    }

    /// A paginator over `query`, which has `n` rows, at `page_size` rows a
    /// page. It stands on page 0. A page size of zero is refused.
    ///
    /// The paginator pages over the whole text that `query` holds, the text
    /// that `begin` counts: it keeps that text in a builder made with it, so
    /// that every window is written behind all of it. Arguments bound in
    /// `query` are not kept: neither the count nor a page is run with them.
    pub fn new(query: BaseQuery<'q>, n: usize, page_size: usize) -> (outcome: Result<
        Self,
        PaginationError,
    >)
        ensures
            page_size == 0 ==> outcome matches Err(PaginationError::InvalidPageSize),
            page_size > 0 ==> (outcome matches Ok(made) && made.wf() && rebased_on(
                &query,
                &made.held_query(),
            ) && made@ == PaginatorModel::started(n as nat, page_size as nat)),
    {
        if page_size == 0 {
            return Err(PaginationError::InvalidPageSize);
        }
        let n_pages: usize = count_pages(n, page_size);
        let next_page: Option<usize> = if n_pages > 1 {
            Some(1)
        } else {
            None
        };
        Ok(
            SqlitePaginator {
                query: query.rebased(),
                n,
                page_size,
                n_pages,
                cur_page: 0,
                next_page,
                prev_page: None,
            },
        )
    }

    /// Asks for the page `page`.
    pub fn fetch_page(&mut self, page: usize) -> (outcome: Result<PageWindow, PaginationError>)
        requires
            old(self).wf(),
        ensures
            asks_for(old(self), final(self), page, outcome),
    {
        if page >= self.n_pages {
            return Err(PaginationError::PageOutOfRange);
        }
        proof {
            lemma_page_bounds(self.n as nat, page as nat, self.page_size as nat);
        }
        let offset: usize = page * self.page_size;
        let window = PageWindow { page, limit: to_bound(self.page_size), offset: to_bound(offset) };
        self.query.set_window(&window);
        Ok(window)
    }

    /// Asks for the current page once more.
    pub fn fetch_cur_page(&mut self) -> (outcome: Result<PageWindow, PaginationError>)
        requires
            old(self).wf(),
        ensures
            asks_for(old(self), final(self), old(self)@.current as usize, outcome),
    {
        self.fetch_page(self.cur_page)
    }

    /// Asks for the page after the current one. Where there is none, it
    /// refuses and the paginator stays as it is.
    pub fn fetch_next_page(&mut self) -> (outcome: Result<PageWindow, PaginationError>)
        requires
            old(self).wf(),
        ensures
            match old(self)@.next {
                Some(page) => page < old(self)@.pages && asks_for(
                    old(self),
                    final(self),
                    page as usize,
                    outcome,
                ),
                None => outcome matches Err(PaginationError::NoNextPage) && *final(self) == *old(
                    self,
                ),
            },
    {
        match self.next_page {
            Some(page) => self.fetch_page(page),
            None => Err(PaginationError::NoNextPage),
        }
    }

    /// Asks for the page before the current one. Where there is none, it
    /// refuses and the paginator stays as it is.
    pub fn fetch_prev_page(&mut self) -> (outcome: Result<PageWindow, PaginationError>)
        requires
            old(self).wf(),
        ensures
            match old(self)@.previous {
                Some(page) => page < old(self)@.pages && asks_for(
                    old(self),
                    final(self),
                    page as usize,
                    outcome,
                ),
                None => outcome matches Err(PaginationError::NoPreviousPage) && *final(self)
                    == *old(self),
            },
    {
        match self.prev_page {
            Some(page) => self.fetch_page(page),
            None => Err(PaginationError::NoPreviousPage),
        }
    }

    /// Takes in the rows of the page `page`, which the caller has fetched:
    /// the cursor moves to that page, and the rows come back as the page.
    /// Out of range, it refuses and the paginator stays as it is.
    pub fn receive_page<T>(&mut self, page: usize, rows: Vec<T>) -> (outcome: Result<
        Page<T>,
        PaginationError,
    >)
        requires
            old(self).wf(),
        ensures
            final(self).wf(),
            final(self).held_query() == old(self).held_query(),
            page >= old(self)@.pages ==> (outcome matches Err(PaginationError::PageOutOfRange)
                && *final(self) == *old(self)),
            page < old(self)@.pages ==> (outcome matches Ok(made) && final(self)@ == old(
                self,
            )@.turned_to(page as nat) && made@ == final(self)@.page_of(rows@)
                && made@.consistent()),
            outcome matches Ok(made) ==> (made@.well_filled() <==> rows@.len() == page_len(
                old(self)@.total,
                page as nat,
                old(self)@.size,
            )),
    {
        if page >= self.n_pages {
            return Err(PaginationError::PageOutOfRange);
        }
        self.turn_to(page);
        Ok(
            Page::from_parts(
                rows,
                self.cur_page,
                self.page_size,
                self.n,
                self.n_pages,
                self.prev_page,
                self.next_page,
            ),
        )
    }

    /// Starts a pass over all pages: asks for page 0, if there is a page.
    pub fn fetch_all_pages(&mut self) -> (first: Option<PageWindow>)
        requires
            old(self).wf(),
        ensures
            final(self)@ == old(self)@,
            old(self)@.pages == 0 ==> first is None && *final(self) == *old(self),
            old(self)@.pages > 0 ==> (first matches Some(window) && window == window_of(
                0,
                old(self)@.size,
            ) && windowed(&old(self).held_query(), &final(self).held_query(), window)),
    {
        match self.fetch_page(0) {
            Ok(window) => Some(window),
            Err(_) => None,
        }
    }

    /// Goes on with a pass over all pages: takes in the rows of the page
    /// `page`, puts them behind those collected in `all`, moves the cursor to
    /// that page, and asks for the page after it, if there is one. Out of
    /// range, it refuses, and the paginator and `all` stay as they are.
    pub fn collect_page<T>(&mut self, page: usize, rows: Vec<T>, all: &mut Vec<T>) -> (outcome:
        Result<Option<PageWindow>, PaginationError>)
        requires
            old(self).wf(),
        ensures
            final(self).wf(),
            page >= old(self)@.pages ==> (outcome matches Err(PaginationError::PageOutOfRange)
                && *final(self) == *old(self) && final(all)@ == old(all)@),
            page < old(self)@.pages ==> final(self)@ == old(self)@.turned_to(page as nat)
                && final(all)@ == old(all)@ + rows@,
            page + 1 < old(self)@.pages ==> (outcome matches Ok(Some(window)) && window
                == window_of((page + 1) as usize, old(self)@.size) && windowed(
                &old(self).held_query(),
                &final(self).held_query(),
                window,
            )),
            page + 1 == old(self)@.pages ==> (outcome matches Ok(None) && final(self).held_query()
                == old(self).held_query()),
    {
        if page >= self.n_pages {
            return Err(PaginationError::PageOutOfRange);
        }
        self.turn_to(page);
        let mut rows = rows;
        all.append(&mut rows);
        match self.next_page {
            Some(next) => {
                let asked = self.fetch_page(next);
                match asked {
                    Ok(window) => Ok(Some(window)),
                    Err(e) => Err(e),
                }
            },
            None => Ok(None),
        }
    }

    /// Moves the cursor to `page` and sets the links to its neighbours.
    fn turn_to(&mut self, page: usize)
        requires
            old(self).wf(),
            page < old(self)@.pages,
        ensures
            final(self).wf(),
            final(self).held_query() == old(self).held_query(),
            final(self)@ == old(self)@.turned_to(page as nat),
    {
        self.cur_page = page;
        self.next_page = if page + 1 < self.n_pages {
            Some(page + 1)
        } else {
            None
        };
        self.prev_page = if page > 0 {
            Some(page - 1)
        } else {
            None
        };
    }
}

/// On the last page there is no next page, and on page 0 no previous one: a
/// paginator there refuses to go further.
pub proof fn lemma_no_link_past_the_ends(paginator: PaginatorModel)
    requires
        paginator.wf(),
    ensures
        paginator.current + 1 >= paginator.pages ==> paginator.next is None,
        paginator.current == 0 ==> paginator.previous is None,
        paginator.next matches Some(page) ==> page == paginator.current + 1 && page
            < paginator.pages,
        paginator.previous matches Some(page) ==> page + 1 == paginator.current && page
            < paginator.pages,
{
}

/// Turning to a page that is among the pages keeps a paginator sound, changes
/// nothing but the current page and the links, and the page that it then
/// stands on is sound in its place, whatever it holds.
pub proof fn lemma_turning_keeps_sound<T>(paginator: PaginatorModel, page: nat, items: Seq<T>)
    requires
        paginator.wf(),
        page < paginator.pages,
    ensures
        paginator.turned_to(page).wf(),
        paginator.turned_to(page).total == paginator.total,
        paginator.turned_to(page).size == paginator.size,
        paginator.turned_to(page).pages == paginator.pages,
        paginator.turned_to(page).page_of(items).consistent(),
{
}

/// Every page is asked for over the text that was counted: where a paginator
/// holds `query` re-based, the query of the first page asked for, and of any
/// page asked for after it, is the whole text of `query` with one window
/// behind it, and the two arguments of that window are all that is bound.
pub proof fn lemma_pages_over_the_counted_text(
    query: &BaseQuery,
    made: &SqlitePaginator,
    first: &SqlitePaginator,
    second: &SqlitePaginator,
    page: usize,
    again: usize,
    one: PageWindow,
    other: PageWindow,
)
    requires
        rebased_on(query, &made.held_query()),
        asks_for(made, first, page, Ok(one)),
        asks_for(first, second, again, Ok(other)),
    ensures
        query_text(&first.held_query()) == query_text(query) + " LIMIT ? OFFSET ?"@,
        bound_values(&first.held_query()) == seq![Some(one.limit), Some(one.offset)],
        query_text(&second.held_query()) == query_text(query) + " LIMIT ? OFFSET ?"@,
        bound_values(&second.held_query()) == seq![Some(other.limit), Some(other.offset)],
        base_text(&second.held_query()) == query_text(query),
        again == page ==> other == one && second@ == made@,
{
}

/// Where the number of rows and the page size fit into a 64-bit signed
/// integer, the window of every page is exact: its limit is the page size and
/// its offset the number of rows on the pages before it. Beyond that the
/// bound values wrap.
pub proof fn lemma_windows_are_exact(paginator: PaginatorModel, page: usize)
    requires
        paginator.wf(),
        page < paginator.pages,
        paginator.total <= i64::MAX,
        paginator.size <= i64::MAX,
    ensures
        window_of(page, paginator.size).page == page,
        window_of(page, paginator.size).limit == paginator.size,
        window_of(page, paginator.size).offset == page * paginator.size,
        window_of(page, paginator.size).offset < paginator.total,
{
    lemma_page_bounds(paginator.total, page as nat, paginator.size);
}

} // verus!
