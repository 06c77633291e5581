//! One page of records, with where it stands among the pages.

use vstd::prelude::*;
use crate::errors::PaginationError;
use crate::layout::{
    count_pages, lemma_page_bounds, lemma_page_count_is_ceiling, next_of, page_count, page_end,
    page_items, page_len, page_start, previous_of,
};

verus! {

/// What a page is: its records and its place.
pub struct PageModel<T> {
    pub items: Seq<T>,
    pub page: nat,
    pub size: nat,
    pub total: nat,
    pub pages: nat,
    pub previous_page: Option<nat>,
    pub next_page: Option<nat>,
}

impl<T> PageModel<T> {
    /// The place is sound: the page count follows from the total and the
    /// size, the page is one of the pages (page 0 where there is none), and
    /// the links lead to the neighbours.
    pub open spec fn consistent(self) -> bool {
        &&& self.size > 0
        &&& self.pages == page_count(self.total, self.size)
        &&& (self.pages > 0 ==> self.page < self.pages)
        &&& (self.pages == 0 ==> self.page == 0)
        &&& self.previous_page == previous_of(self.page)
        &&& self.next_page == next_of(self.page, self.pages)
    }

    /// The page holds as many records as its place gives it.
    pub open spec fn well_filled(self) -> bool {
        self.items.len() == page_len(self.total, self.page, self.size)
    }
}

/// The page `page` of `data`, at `size` records a page.
pub open spec fn built<T>(data: Seq<T>, page: nat, size: nat) -> PageModel<T> {
    PageModel {
        items: page_items(data, page, size),
        page,
        size,
        total: data.len(),
        pages: page_count(data.len(), size),
        previous_page: previous_of(page),
        next_page: next_of(page, page_count(data.len(), size)),
    }
}

/// Whether `page` can be built from `total` records: it is one of the pages,
/// or it is page 0 of no records.
pub open spec fn buildable(total: nat, page: nat, size: nat) -> bool {
    page < page_count(total, size) || (total == 0 && page == 0)
}

/// What `Page::build` answers for `data`, `page` and `size`.
pub open spec fn builds<T>(
    data: Seq<T>,
    page: nat,
    size: nat,
    outcome: Result<Page<T>, PaginationError>,
) -> bool {
    if size == 0 {
        outcome matches Err(PaginationError::InvalidPageSize)
    } else if !buildable(data.len(), page, size) {
        outcome matches Err(PaginationError::PageOutOfRange)
    } else {
        outcome matches Ok(made) && made@ == built(data, page, size)
    }
}

/// One page of records of type `T`.
pub struct Page<T> {
    items: Vec<T>,
    page: usize,
    size: usize,
    total: usize,
    pages: usize,
    previous_page: Option<usize>,
    next_page: Option<usize>,
}

/// A link as a number of the model.
pub open spec fn link_model(link: Option<usize>) -> Option<nat> {
    match link {
        Some(to) => Some(to as nat),
        None => None,
    }
}

impl<T> View for Page<T> {
    type V = PageModel<T>;

    closed spec fn view(&self) -> PageModel<T> {
        PageModel {
            items: self.items@,
            page: self.page as nat,
            size: self.size as nat,
            total: self.total as nat,
            pages: self.pages as nat,
            previous_page: link_model(self.previous_page),
            next_page: link_model(self.next_page),
        }
    }
}

impl<T> Page<T> {
    /// Puts a page together from its parts, as they are.
    pub(crate) fn from_parts(
        items: Vec<T>,
        page: usize,
        size: usize,
        total: usize,
        pages: usize,
        previous_page: Option<usize>,
        next_page: Option<usize>,
    ) -> (made: Page<T>)
        ensures
            made@ == (PageModel {
                items: items@,
                page: page as nat,
                size: size as nat,
                total: total as nat,
                pages: pages as nat,
                previous_page: link_model(previous_page),
                next_page: link_model(next_page),
            }),
    {
        Page { items, page, size, total, pages, previous_page, next_page }
    }

    /// Cuts the page `page` out of `all_items`, at `size` records a page.
    ///
    /// A size of zero is refused, and so is a page that is not among the
    /// pages; page 0 of no records is the one empty page.
    pub fn build(all_items: Vec<T>, page: usize, size: usize) -> (outcome: Result<
        Page<T>,
        PaginationError,
    >)
        ensures
            builds(all_items@, page as nat, size as nat, outcome),
            outcome matches Ok(made) ==> made@.consistent() && made@.well_filled(),
    {
        if size == 0 {
            return Err(PaginationError::InvalidPageSize);
        }
        let total: usize = all_items.len();
        let pages: usize = count_pages(total, size);
        if !(page < pages || (total == 0 && page == 0)) {
            return Err(PaginationError::PageOutOfRange);
        }
        proof {
            lemma_page_count_is_ceiling(total as nat, size as nat);
            if page < pages {
                lemma_page_bounds(total as nat, page as nat, size as nat);
            }
            lemma_built_is_sound(all_items@, page as nat, size as nat);
        }
        let start: usize = page * size;
        let mut all_items = all_items;
        let ghost data = all_items@;
        let mut items: Vec<T> = all_items.split_off(start);
        items.truncate(size);
        let previous_page: Option<usize> = if page > 0 {
            Some(page - 1)
        } else {
            None
        };
        let next_page: Option<usize> = if page + 1 < pages {
            Some(page + 1)
        } else {
            None
        };
        proof {
            assert(items@ =~= page_items(data, page as nat, size as nat));
        }
        Ok(Page { items, page, size, total, pages, previous_page, next_page })
    }

    /// The records of the page, in their order.
    pub fn get_items(&self) -> (items: &Vec<T>)
        ensures
            items@ == self@.items,
    {
        &self.items
    }

    /// The records of the page, handed over.
    pub fn into_items(self) -> (items: Vec<T>)
        ensures
            items@ == self@.items,
    {
        self.items
    }

    /// The number of the page, counted from 0.
    pub fn get_page(&self) -> (page: usize)
        ensures
            page == self@.page,
    {
        self.page
    }

    /// The number of records that a page holds at most.
    pub fn get_size(&self) -> (size: usize)
        ensures
            size == self@.size,
    {
        self.size
    }

    /// The number of records over all pages.
    pub fn get_total(&self) -> (total: usize)
        ensures
            total == self@.total,
    {
        self.total
    }

    /// The number of pages.
    pub fn get_pages(&self) -> (pages: usize)
        ensures
            pages == self@.pages,
    {
        self.pages
    }

    /// The number of the page before this one, if there is one.
    pub fn get_previous_page(&self) -> (link: Option<usize>)
        ensures
            link_model(link) == self@.previous_page,
    {
        self.previous_page
    }

    /// The number of the page after this one, if there is one.
    pub fn get_next_page(&self) -> (link: Option<usize>)
        ensures
            link_model(link) == self@.next_page,
    {
        self.next_page
    }
}

/// A page that can be built is sound in its place and holds what its place
/// gives it: at most `size` records, and as many as that on every page but
/// the last.
pub proof fn lemma_built_is_sound<T>(data: Seq<T>, page: nat, size: nat)
    requires
        size > 0,
        buildable(data.len(), page, size),
    ensures
        built(data, page, size).consistent(),
        built(data, page, size).well_filled(),
        built(data, page, size).items.len() <= size,
        page + 1 < page_count(data.len(), size) ==> built(data, page, size).items.len() == size,
{
    lemma_page_count_is_ceiling(data.len(), size);
    if page < page_count(data.len(), size) {
        lemma_page_bounds(data.len(), page, size);
    } else {
        assert(page_start(page, size) == 0) by (nonlinear_arith)
            requires
                page == 0,
        ;
        assert(page_end(data.len(), page, size) == 0);
    }
}

/// Building is a function of what it is given: two answers to the same
/// request are both refusals for the same reason, or both the same page.
pub proof fn lemma_build_agrees<T>(
    data: Seq<T>,
    page: nat,
    size: nat,
    first: Result<Page<T>, PaginationError>,
    second: Result<Page<T>, PaginationError>,
)
    requires
        builds(data, page, size, first),
        builds(data, page, size, second),
    ensures
        first is Ok <==> second is Ok,
        first is Ok ==> first->Ok_0@ == second->Ok_0@,
        first is Err ==> first->Err_0 == second->Err_0,
{
}

} // verus!
