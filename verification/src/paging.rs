//! Pages: the window of rows that a page request asks for, and the cut of
//! that window out of a list.

use vstd::prelude::*;

verus! {

/// The size of a page where the request names none that is positive.
pub const DEFAULT_PAGE_SIZE: i64 = 10;

/// The size of a page of glossary terms where the request names none.
pub const DEFAULT_TERM_PAGE_SIZE: i64 = 12;

/// One page of a longer list, with the number of rows in the whole list
/// and the page and size that were asked for.
#[derive(Debug)]
pub struct PageVO<T> {
    pub items: Vec<T>,
    pub total: i64,
    pub page: i64,
    pub size: i64,
}

/// A request for a page of orders.
#[derive(Clone, Copy, Debug)]
pub struct PageOrderDTO {
    pub page: Option<i64>,
    pub size: Option<i64>,
}

/// A request for a page of articles.
#[derive(Clone, Copy, Debug)]
pub struct PageArticleDTO {
    pub page: Option<i64>,
    pub size: Option<i64>,
}

/// A request for a page of glossary terms, of one category or matching a
/// search.
#[derive(Debug)]
pub struct PageTermDTO {
    pub page: Option<i64>,
    pub size: Option<i64>,
    pub category: Option<String>,
    pub search: Option<String>,
}

/// The number in `given`, or `default` without one.
pub open spec fn or_default(given: Option<i64>, default: i64) -> i64 {
    match given {
        Some(n) => n,
        None => default,
    }
}

impl PageOrderDTO {
    /// The page asked for, the first without a number.
    pub fn page_number(&self) -> (page: i64)
        ensures
            page == or_default(self.page, 1),
    {
        match self.page {
            Some(n) => n,
            None => 1,
        }
    }

    /// The page size asked for, `DEFAULT_PAGE_SIZE` without a number.
    pub fn page_size(&self) -> (size: i64)
        ensures
            size == or_default(self.size, DEFAULT_PAGE_SIZE),
    {
        match self.size {
            Some(n) => n,
            None => DEFAULT_PAGE_SIZE,
        }
    }
}

impl PageArticleDTO {
    /// The page asked for, the first without a number.
    pub fn page_number(&self) -> (page: i64)
        ensures
            page == or_default(self.page, 1),
    {
        match self.page {
            Some(n) => n,
            None => 1,
        }
    }

    /// The page size asked for, `DEFAULT_PAGE_SIZE` without a number.
    pub fn page_size(&self) -> (size: i64)
        ensures
            size == or_default(self.size, DEFAULT_PAGE_SIZE),
    {
        match self.size {
            Some(n) => n,
            None => DEFAULT_PAGE_SIZE,
        }
    }
}

impl PageTermDTO {
    /// The page asked for, the first without a number.
    pub fn page_number(&self) -> (page: i64)
        ensures
            page == or_default(self.page, 1),
    {
        match self.page {
            Some(n) => n,
            None => 1,
        }
    }

    /// The page size asked for, `DEFAULT_TERM_PAGE_SIZE` without a number.
    pub fn page_size(&self) -> (size: i64)
        ensures
            size == or_default(self.size, DEFAULT_TERM_PAGE_SIZE),
    {
        match self.size {
            Some(n) => n,
            None => DEFAULT_TERM_PAGE_SIZE,
        }
    }
}

/// The rows of a list that make up a page: `limit` rows from the row
/// `offset` on, counted from zero.
#[derive(Clone, Copy, Debug, PartialEq, Eq, Structural)]
pub struct PageWindow {
    pub limit: i64,
    pub offset: i64,
}

/// The size of a page: `size`, or `DEFAULT_PAGE_SIZE` where `size` is not
/// positive.
pub open spec fn limit_of(size: i64) -> int {
    if size <= 0 {
        DEFAULT_PAGE_SIZE as int
    } else {
        size as int
    }
}

/// The rows before the page `page` of `size` rows: none before the first
/// page, and a page number that is not positive counts as the first.
pub open spec fn offset_of(page: i64, size: i64) -> int {
    if page <= 0 {
        0
    } else {
        (page - 1) * limit_of(size)
    }
}

/// The window of the page `page` where pages hold `size` rows, with the
/// defaults of `limit_of` and `offset_of` for numbers that are not
/// positive.
pub fn page_window(page: i64, size: i64) -> (window: PageWindow)
    requires
        offset_of(page, size) <= i64::MAX,
    ensures
        window.limit == limit_of(size),
        window.offset == offset_of(page, size),
        window.limit >= 1,
        window.offset >= 0,
{
    let limit: i64 = if size <= 0 {
        DEFAULT_PAGE_SIZE
    } else {
        size
    };
    if page <= 0 {
        return PageWindow { limit, offset: 0 };
    }
    let before: i64 = page - 1;
    assert(before * limit == offset_of(page, size));
    assert(0 <= before * limit) by (nonlinear_arith)
        requires
            before >= 0,
            limit >= 1,
    ;
    PageWindow { limit, offset: before * limit }
}

/// Where the window begins in a list of `len` rows.
pub open spec fn window_start(window: PageWindow, len: nat) -> int {
    if window.offset < 0 {
        0
    } else if window.offset > len {
        len as int
    } else {
        window.offset as int
    }
}

/// Where the window ends in a list of `len` rows.
pub open spec fn window_end(window: PageWindow, len: nat) -> int {
    let start = window_start(window, len);
    if window.limit <= 0 {
        start
    } else if start + window.limit > len {
        len as int
    } else {
        start + window.limit
    }
}

/// The rows of `rows` inside the window: fewer than `limit` where the list
/// ends before the window does, none for a window behind the list.
pub open spec fn window_rows<T>(rows: Seq<T>, window: PageWindow) -> Seq<T> {
    rows.subrange(window_start(window, rows.len()), window_end(window, rows.len()))
}

/// The rows of the page `page` where pages hold `size` rows and count
/// from one: the window of `size` rows behind the `(page - 1) * size`
/// rows of the pages before it. A page before the first has no rows, and
/// a negative size sets no limit, so that the page holds every row.
pub open spec fn page_rows<T>(rows: Seq<T>, page: i64, size: i64) -> Seq<T> {
    if size < 0 {
        rows
    } else if page >= 1 {
        window_rows(rows, PageWindow { limit: size, offset: ((page - 1) * size) as i64 })
    } else {
        Seq::empty()
    }
}

/// Whether `paginate` takes the page `page` of `size` rows. With a size
/// that is not negative: the number before `page` and the rows before the
/// page can be counted in an `i64`, and the page is not the one numbered
/// zero, whose rows cannot be told, unless it is to hold no rows at all.
/// With a negative size: the page is the first.
pub open spec fn can_paginate(page: i64, size: i64) -> bool {
    if size < 0 {
        page == 1
    } else {
        &&& page != 0 || size == 0
        &&& i64::MIN <= page - 1
        &&& i64::MIN <= (page - 1) * size <= i64::MAX
    }
}

/// Decides whether `paginate` takes the page `page` of `size` rows.
pub fn page_is_countable(page: i64, size: i64) -> (yes: bool)
    ensures
        yes == can_paginate(page, size),
{
    if size < 0 {
        return page == 1;
    }
    if page == i64::MIN {
        return false;
    }
    if size == 0 {
        assert((page - 1) * size == 0) by (nonlinear_arith)
            requires
                size == 0,
        ;
        return true;
    }
    if page == 0 {
        return false;
    }
    if page >= 1 {
        let before: i64 = page - 1;
        let most: i64 = i64::MAX / size;
        assert((before <= most) <==> (before * size <= i64::MAX)) by (nonlinear_arith)
            requires
                size > 0,
                before >= 0,
                most == i64::MAX / size,
        ;
        assert(before * size >= 0) by (nonlinear_arith)
            requires
                size > 0,
                before >= 0,
        ;
        before <= most
    } else {
        let before: i64 = page - 1;
        let back: u64 = (-(before + 1)) as u64 + 1;
        let room: u64 = 0x8000_0000_0000_0000;
        let most: u64 = room / (size as u64);
        assert((back <= most) <==> (before * size >= i64::MIN)) by (nonlinear_arith)
            requires
                size > 0,
                back == -before,
                back > 0,
                most == room / (size as u64),
                room == 0x8000_0000_0000_0000,
                i64::MIN == -0x8000_0000_0000_0000,
        ;
        assert(before * size <= 0) by (nonlinear_arith)
            requires
                size > 0,
                before < 0,
        ;
        back <= most
    }
}

/// Cuts the page `page` of `size` rows out of `rows`: the items are copies
/// of the rows of the page, in their order, none for a page before the
/// first and all rows for a first page of negative size, and the page
/// carries the length of the whole list with the page and size as given.
pub fn paginate<T: Clone>(rows: &Vec<T>, page: i64, size: i64) -> (out: PageVO<T>)
    requires
        can_paginate(page, size),
        rows.len() <= i64::MAX,
    ensures
        out.total == rows.len(),
        out.page == page,
        out.size == size,
        out.items.len() == page_rows(rows@, page, size).len(),
        forall|i: int|
            0 <= i < out.items.len() ==> cloned(
                #[trigger] page_rows(rows@, page, size)[i],
                out.items[i],
            ),
{
    let len = rows.len();
    let mut items: Vec<T> = Vec::new();
    let mut start: usize = 0;
    let mut end: usize = len;
    if size >= 0 {
        if page < 1 {
            return PageVO { items, total: len as i64, page, size };
        }
        assert(0 <= (page - 1) * size) by (nonlinear_arith)
            requires
                page >= 1,
                size >= 0,
        ;
        let offset: i64 = (page - 1) * size;
        let ghost window = PageWindow { limit: size, offset };
        start = if offset as u64 > len as u64 {
            len
        } else {
            offset as usize
        };
        end = if size as u64 > (len - start) as u64 {
            len
        } else {
            start + size as usize
        };
        assert(start == window_start(window, rows@.len()));
        assert(end == window_end(window, rows@.len()));
    }
    assert(page_rows(rows@, page, size) =~= rows@.subrange(start as int, end as int));
    let mut i: usize = start;
    while i < end
        invariant
            start <= i <= end <= rows.len(),
            items.len() == i - start,
            forall|k: int| 0 <= k < items.len() ==> cloned(rows[start + k], #[trigger] items[k]),
        decreases end - i,
    {
        items.push(rows[i].clone());
        i += 1;
    }
    PageVO { items, total: len as i64, page, size }
}

/// Decides whether `page_window` takes the page `page` of `size` rows:
/// whether the rows before the page can be counted in an `i64`.
pub fn window_is_countable(page: i64, size: i64) -> (yes: bool)
    ensures
        yes == (offset_of(page, size) <= i64::MAX),
{
    if page <= 0 {
        return true;
    }
    let limit: i64 = if size <= 0 {
        DEFAULT_PAGE_SIZE
    } else {
        size
    };
    let before: i64 = page - 1;
    let most: i64 = i64::MAX / limit;
    assert((before <= most) <==> (before * limit <= i64::MAX)) by (nonlinear_arith)
        requires
            limit > 0,
            before >= 0,
            most == i64::MAX / limit,
    ;
    before <= most
}

} // verus!
