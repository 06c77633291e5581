//! How a run of rows is cut into pages: the page count, the rows that a page
//! covers, and the links from a page to its neighbours.

use vstd::prelude::*;

verus! {

/// The number of pages that `total` rows fill at `size` rows a page: `total / size`,
/// rounded up. No page has a size of zero; for it the count is zero.
pub open spec fn page_count(total: nat, size: nat) -> nat {
    if size == 0 {
        0
    } else if total % size == 0 {
        total / size
    } else {
        total / size + 1
    }
}

/// The page before `page`, if there is one.
pub open spec fn previous_of(page: nat) -> Option<nat> {
    if page > 0 {
        Some((page - 1) as nat)
    } else {
        None
    }
}

/// The page after `page` among `pages` pages, if there is one.
pub open spec fn next_of(page: nat, pages: nat) -> Option<nat> {
    if page + 1 < pages {
        Some(page + 1)
    } else {
        None
    }
}

/// The index of the first row of `page`.
pub open spec fn page_start(page: nat, size: nat) -> nat {
    page * size
}

/// The index one past the last row of `page`, where there are `total` rows.
pub open spec fn page_end(total: nat, page: nat, size: nat) -> nat {
    if (page + 1) * size <= total {
        (page + 1) * size
    } else {
        total
    }
}

/// The number of rows on `page`.
pub open spec fn page_len(total: nat, page: nat, size: nat) -> nat {
    if page_start(page, size) <= total {
        (page_end(total, page, size) - page_start(page, size)) as nat
    } else {
        0
    }
}

/// The rows of `data` that stand on `page`, in their order.
pub open spec fn page_items<T>(data: Seq<T>, page: nat, size: nat) -> Seq<T> {
    if page_start(page, size) <= data.len() {
        data.subrange(page_start(page, size) as int, page_end(data.len(), page, size) as int)
    } else {
        Seq::empty()
    }
}

/// The rows of the first `upto` pages of `data`, one page after the other.
pub open spec fn pages_joined<T>(data: Seq<T>, size: nat, upto: nat) -> Seq<T>
    decreases upto,
{
    if upto == 0 {
        Seq::empty()
    } else {
        pages_joined(data, size, (upto - 1) as nat) + page_items(data, (upto - 1) as nat, size)
    }
}

/// The page count is the quotient rounded up: it is the least number of pages
/// of `size` rows that hold `total` rows, and it is zero exactly when there is
/// no row.
pub proof fn lemma_page_count_is_ceiling(total: nat, size: nat)
    requires
        size > 0,
    ensures
        page_count(total, size) * size >= total,
        total > 0 ==> (page_count(total, size) - 1) * size < total,
        page_count(total, size) == 0 <==> total == 0,
        page_count(total, size) <= total,
{
    let q = total / size;
    let r = total % size;
    assert(total == q * size + r && 0 <= r < size) by (nonlinear_arith)
        requires
            size > 0,
            q == total / size,
            r == total % size,
    ;
    assert((q + 1) * size == q * size + size) by (nonlinear_arith);
    assert((q - 1) * size == q * size - size) by (nonlinear_arith);
    assert(q * size >= q) by (nonlinear_arith)
        requires
            size > 0,
            q >= 0,
    ;
    if r != 0 && q * size == total {
        assert(false);
    }
    if total > 0 && q == 0 {
        assert(q * size == 0) by (nonlinear_arith)
            requires
                q == 0,
        ;
    }
}

/// Every page in range starts at a row that exists, every page but the last
/// is full, and the last one holds at least one row and at most `size`.
pub proof fn lemma_page_bounds(total: nat, page: nat, size: nat)
    requires
        size > 0,
        page < page_count(total, size),
    ensures
        page_start(page, size) < page_end(total, page, size) <= total,
        page + 1 < page_count(total, size) ==> page_len(total, page, size) == size,
        page + 1 == page_count(total, size) ==> page_end(total, page, size) == total,
        0 < page_len(total, page, size) <= size,
{
    let pages = page_count(total, size);
    lemma_page_count_is_ceiling(total, size);
    assert((page + 1) * size == page * size + size) by (nonlinear_arith);
    assert(page * size <= (pages - 1) * size) by (nonlinear_arith)
        requires
            page <= pages - 1,
            size > 0,
    ;
    if page + 1 < pages {
        assert((page + 1) * size <= (pages - 1) * size) by (nonlinear_arith)
            requires
                page + 1 <= pages - 1,
                size > 0,
        ;
    } else {
        assert((page + 1) * size == pages * size);
    }
}

/// The first `upto` pages, joined, are the rows before the end of the last of
/// them: nothing is left out, nothing comes twice, and the order is kept.
pub proof fn lemma_pages_joined_is_prefix<T>(data: Seq<T>, size: nat, upto: nat)
    requires
        size > 0,
        upto <= page_count(data.len(), size),
    ensures
        upto == 0 ==> pages_joined(data, size, upto) == Seq::<T>::empty(),
        upto > 0 ==> pages_joined(data, size, upto) == data.take(
            page_end(data.len(), (upto - 1) as nat, size) as int,
        ),
    decreases upto,
{
    if upto > 0 {
        let last = (upto - 1) as nat;
        lemma_page_bounds(data.len(), last, size);
        lemma_pages_joined_is_prefix(data, size, last);
        let start = page_start(last, size) as int;
        let end = page_end(data.len(), last, size) as int;
        if last > 0 {
            let before = (last - 1) as nat;
            lemma_page_bounds(data.len(), before, size);
            assert(page_end(data.len(), before, size) == start);
        }
        assert(pages_joined(data, size, last) == data.take(start)) by {
            if last == 0 {
                assert(data.take(0) =~= Seq::<T>::empty());
            }
        }
        assert(data.take(start) + data.subrange(start, end) =~= data.take(end));
    }
}

/// All the pages of `data`, joined in ascending order, are `data` itself: as
/// many rows as there are, each once, in their order.
pub proof fn lemma_all_pages_joined<T>(data: Seq<T>, size: nat)
    requires
        size > 0,
    ensures
        pages_joined(data, size, page_count(data.len(), size)) == data,
        pages_joined(data, size, page_count(data.len(), size)).len() == data.len(),
{
    let pages = page_count(data.len(), size);
    lemma_pages_joined_is_prefix(data, size, pages);
    lemma_page_count_is_ceiling(data.len(), size);
    if pages > 0 {
        lemma_page_bounds(data.len(), (pages - 1) as nat, size);
        assert(data.take(data.len() as int) =~= data);
    } else {
        assert(data =~= Seq::<T>::empty());
    }
}

/// A pass over all pages collects every row once, in order: where the rows
/// collected so far are the pages before `page`, joined, the rows of `page`
/// behind them are the pages up to and with `page`, joined; and after the
/// last page they are `data` itself.
pub proof fn lemma_collecting_all_pages<T>(
    data: Seq<T>,
    size: nat,
    page: nat,
    collected: Seq<T>,
    rows: Seq<T>,
)
    requires
        size > 0,
        page < page_count(data.len(), size),
        collected == pages_joined(data, size, page),
        rows == page_items(data, page, size),
    ensures
        collected + rows == pages_joined(data, size, page + 1),
        page + 1 == page_count(data.len(), size) ==> collected + rows == data,
        page + 1 == page_count(data.len(), size) ==> (collected + rows).len() == data.len(),
{
    assert((page + 1 - 1) as nat == page);
    lemma_all_pages_joined(data, size);
}

/// Among `pages` pages, with `page` one of them: the link back is absent on
/// page 0 alone, the link forward on the last page alone, and a link that is
/// there leads to the page next to `page`, which is one of the pages.
pub proof fn lemma_links_lead_to_neighbours(page: nat, pages: nat)
    requires
        page < pages,
    ensures
        previous_of(page) is None <==> page == 0,
        next_of(page, pages) is None <==> page + 1 == pages,
        previous_of(page) matches Some(before) ==> before + 1 == page && before < pages,
        next_of(page, pages) matches Some(after) ==> after == page + 1 && after < pages,
{
}

/// Counts the pages that `total` rows fill at `size` rows a page.
pub fn count_pages(total: usize, size: usize) -> (pages: usize)
    requires
        size > 0,
    ensures
        pages == page_count(total as nat, size as nat),
{
    let whole: usize = total / size;
    if total % size == 0 {
        whole
    } else {
        proof {
            lemma_page_count_is_ceiling(total as nat, size as nat);
        }
        whole + 1
    }
}

} // verus!
