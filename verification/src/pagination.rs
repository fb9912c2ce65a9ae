//! Page arithmetic: the parameters of a listing request, how many pages a
//! table has, and which rows a page holds.
//!
//! Pages are numbered from 1. Page `p` of size `n` holds the rows at the
//! indices `(p - 1) * n` up to, and not including, `p * n`, as far as the
//! table has them. A page past the last one is empty, and so is page 0.

use vstd::prelude::*;

verus! {

/// The page that is listed when a request names none.
pub const DEFAULT_PAGE: u64 = 1;

/// The page size that is used when a request names none.
pub const DEFAULT_POSTS_PER_PAGE: u64 = 5;

/// The parameters of a listing request. Either may be absent.
#[derive(Debug, Clone, Copy, PartialEq, Eq, Structural)]
pub struct Params {
    pub page: Option<u64>,
    pub posts_per_page: Option<u64>,
}

impl Params {
    /// The page that the request asks for: the one it names, else the first.
    pub open spec fn effective_page(self) -> u64 {
        match self.page {
            Some(page) => page,
            None => DEFAULT_PAGE,
        }
    }

    /// The page size that the request asks for: the one it names, else five.
    pub open spec fn effective_posts_per_page(self) -> u64 {
        match self.posts_per_page {
            Some(posts_per_page) => posts_per_page,
            None => DEFAULT_POSTS_PER_PAGE,
        }
    }

    /// A request with the given parameters.
    pub fn new(page: Option<u64>, posts_per_page: Option<u64>) -> (params: Self)
        ensures
            params.page == page,
            params.posts_per_page == posts_per_page,
    {
        Params { page, posts_per_page }
    }

    /// The page to list, with the default filled in.
    pub fn page_or_default(&self) -> (page: u64)
        ensures
            page == self.effective_page(),
    {
        match self.page {
            Some(page) => page,
            None => DEFAULT_PAGE,
        }
    }

    /// The page size to use, with the default filled in.
    pub fn posts_per_page_or_default(&self) -> (posts_per_page: u64)
        ensures
            posts_per_page == self.effective_posts_per_page(),
    {
        match self.posts_per_page {
            Some(posts_per_page) => posts_per_page,
            None => DEFAULT_POSTS_PER_PAGE,
        }
    }
}

impl Default for Params {
    /// The request that names neither a page nor a page size.
    fn default() -> (params: Self)
        ensures
            params.page is None,
            params.posts_per_page is None,
    {
        Params { page: None, posts_per_page: None }
    }
}

/// Number of pages that `total` rows fill at `page_size` rows a page: the
/// quotient `total / page_size`, rounded up.
pub open spec fn page_count(total: int, page_size: int) -> int {
    if total % page_size == 0 {
        total / page_size
    } else {
        total / page_size + 1
    }
}

/// Index of the first row of page `page`.
pub open spec fn page_start(page: int, page_size: int) -> int {
    (page - 1) * page_size
}

/// The page on which the row at index `index` stands.
pub open spec fn page_holding(index: int, page_size: int) -> int {
    index / page_size + 1
}

/// The place on its page of the row at index `index`, counted from 0.
pub open spec fn place_on_page(index: int, page_size: int) -> int {
    index % page_size
}

/// Whether page `page` holds any of `total` rows.
pub open spec fn page_in_range(total: int, page: int, page_size: int) -> bool {
    page >= 1 && page_size >= 1 && page_start(page, page_size) < total
}

/// Index one past the last row of page `page` in a table of `total` rows.
pub open spec fn page_end(total: int, page: int, page_size: int) -> int {
    if page_start(page, page_size) + page_size <= total {
        page_start(page, page_size) + page_size
    } else {
        total
    }
}

/// The rows of page `page`, in the order of the table.
pub open spec fn page_of<T>(rows: Seq<T>, page: int, page_size: int) -> Seq<T> {
    if page_in_range(rows.len() as int, page, page_size) {
        rows.subrange(page_start(page, page_size), page_end(rows.len() as int, page, page_size))
    } else {
        Seq::empty()
    }
}

/// Computes the number of pages of `total` rows.
pub fn count_pages(total: u64, page_size: u64) -> (pages: u64)
    requires
        page_size > 0,
    ensures
        pages == page_count(total as int, page_size as int),
{
    let full: u64 = total / page_size;
    if total % page_size == 0 {
        full
    } else {
        assert(full < u64::MAX) by (nonlinear_arith)
            requires
                full == total / page_size,
                total % page_size != 0,
                page_size > 0,
                total <= u64::MAX,
        ;
        full + 1
    }
}

/// Number of rows that come before page `page`, where a `u64` can hold it.
///
/// `None` for page 0, which does not exist, and for a page so far out that
/// the number does not fit: no table reaches it.
pub fn page_offset(page: u64, page_size: u64) -> (offset: Option<u64>)
    ensures
        match offset {
            Some(rows) => page >= 1 && rows == page_start(page as int, page_size as int),
            None => page == 0 || page_start(page as int, page_size as int) > u64::MAX,
        },
{
    if page == 0 {
        None
    } else {
        (page - 1).checked_mul(page_size)
    }
}

/// The bounds of page `page` in a table of `total` rows: the index of its
/// first row and the index one past its last. An empty page has the bounds
/// `(0, 0)`.
pub fn page_bounds(total: usize, page: u64, page_size: u64) -> (bounds: (usize, usize))
    ensures
        page_in_range(total as int, page as int, page_size as int) ==> {
            &&& bounds.0 == page_start(page as int, page_size as int)
            &&& bounds.1 == page_end(total as int, page as int, page_size as int)
        },
        !page_in_range(total as int, page as int, page_size as int) ==> bounds == (0usize, 0usize),
        bounds.0 <= bounds.1 <= total,
        bounds.1 - bounds.0 <= page_size,
{
    if page_size == 0 {
        return (0, 0);
    }
    match page_offset(page, page_size) {
        None => (0, 0),
        Some(offset) => {
            if offset >= total as u64 {
                (0, 0)
            } else {
                let start: usize = offset as usize;
                let room: usize = total - start;
                if page_size >= room as u64 {
                    (start, total)
                } else {
                    (start, start + page_size as usize)
                }
            }
        },
    }
}

/// The page count is the quotient rounded up: that many pages have room for
/// all the rows, and one page fewer has not.
pub proof fn lemma_page_count_is_ceiling(total: int, page_size: int)
    requires
        total >= 0,
        page_size > 0,
    ensures
        page_count(total, page_size) >= 0,
        page_count(total, page_size) == 0 <==> total == 0,
        page_count(total, page_size) * page_size >= total,
        total > 0 ==> (page_count(total, page_size) - 1) * page_size < total,
{
    let q = total / page_size;
    let r = total % page_size;
    assert(total == q * page_size + r && 0 <= r < page_size && q >= 0) by (nonlinear_arith)
        requires
            total >= 0,
            page_size > 0,
            q == total / page_size,
            r == total % page_size,
    ;
    let count = page_count(total, page_size);
    assert(count * page_size >= total && (total > 0 ==> (count - 1) * page_size < total) && (count
        == 0 <==> total == 0)) by (nonlinear_arith)
        requires
            total == q * page_size + r,
            0 <= r < page_size,
            q >= 0,
            count == (if r == 0 {
                q
            } else {
                q + 1
            }),
    ;
}

/// A page never holds more rows than the page size.
pub proof fn lemma_page_len<T>(rows: Seq<T>, page: int, page_size: int)
    requires
        page_size >= 1,
    ensures
        page_of(rows, page, page_size).len() <= page_size,
        page_of(rows, page, page_size).len() <= rows.len(),
        page_of(rows, page, page_size).len() > 0 <==> page_in_range(
            rows.len() as int,
            page,
            page_size,
        ),
{
    if page_in_range(rows.len() as int, page, page_size) {
        assert(page_start(page, page_size) >= 0) by (nonlinear_arith)
            requires
                page >= 1,
                page_size >= 1,
        ;
    }
}

/// The pages that hold rows are the pages from 1 to the page count: every one
/// of them holds a row, and no other page does.
pub proof fn lemma_pages_in_range(total: int, page: int, page_size: int)
    requires
        total >= 0,
        page_size >= 1,
    ensures
        page_in_range(total, page, page_size) <==> 1 <= page <= page_count(total, page_size),
{
    lemma_page_count_is_ceiling(total, page_size);
    let count = page_count(total, page_size);
    if 1 <= page <= count {
        assert((page - 1) * page_size <= (count - 1) * page_size) by (nonlinear_arith)
            requires
                page <= count,
                page_size >= 1,
        ;
    }
    if page > count {
        assert((page - 1) * page_size >= count * page_size) by (nonlinear_arith)
            requires
                page - 1 >= count,
                page_size >= 1,
        ;
    }
}

/// Every row is on the page that its index names, at the place that its index
/// names.
pub proof fn lemma_row_on_page<T>(rows: Seq<T>, i: int, page_size: int)
    requires
        0 <= i < rows.len(),
        page_size >= 1,
    ensures
        1 <= page_holding(i, page_size) <= page_count(rows.len() as int, page_size),
        0 <= place_on_page(i, page_size) < page_of(
            rows,
            page_holding(i, page_size),
            page_size,
        ).len(),
        page_of(rows, page_holding(i, page_size), page_size)[place_on_page(i, page_size)]
            == rows[i],
{
    let page = page_holding(i, page_size);
    let offset = place_on_page(i, page_size);
    assert(i == (page - 1) * page_size + offset && 0 <= offset < page_size && page >= 1)
        by (nonlinear_arith)
        requires
            i >= 0,
            page_size >= 1,
            page == i / page_size + 1,
            offset == i % page_size,
    ;
    assert(page_in_range(rows.len() as int, page, page_size));
    lemma_pages_in_range(rows.len() as int, page, page_size);
}

/// A row of a page is the row of the table at the page's start plus its place
/// on the page.
pub proof fn lemma_page_row<T>(rows: Seq<T>, page: int, page_size: int, k: int)
    requires
        page_size >= 1,
        0 <= k < page_of(rows, page, page_size).len(),
    ensures
        0 <= page_start(page, page_size) + k < rows.len(),
        page_of(rows, page, page_size)[k] == rows[page_start(page, page_size) + k],
{
    lemma_page_len(rows, page, page_size);
    assert(page_start(page, page_size) >= 0) by (nonlinear_arith)
        requires
            page >= 1,
            page_size >= 1,
    ;
}

} // verus!
