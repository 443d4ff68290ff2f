//! Which slice of the product table a page shows.
use vstd::prelude::*;

verus! {

/// The page requested, at least the first.
pub open spec fn requested_page(page: Option<i64>) -> i64 {
    match page {
        Some(p) => if p < 1 {
            1
        } else {
            p
        },
        None => 1,
    }
}

/// The page size requested, or `default_per_page`, kept between 1 and 100.
pub open spec fn requested_per_page(per_page: Option<i64>, default_per_page: i64) -> i64 {
    let n = match per_page {
        Some(n) => n,
        None => default_per_page,
    };
    if n < 1 {
        1
    } else if n > 100 {
        100
    } else {
        n
    }
}

/// A page of results: its number, its size and the rows skipped before it.
#[derive(Debug, Clone, Copy)]
pub struct PageWindow {
    pub page: i64,
    pub per_page: i64,
    pub offset: i64,
}

/// Whether `w` is the page that a request for `page` and `per_page` selects.
pub open spec fn selects(w: PageWindow, page: Option<i64>, per_page: Option<i64>, default_per_page: i64) -> bool {
    &&& w.page == requested_page(page)
    &&& w.per_page == requested_per_page(per_page, default_per_page)
    &&& w.offset == (w.page - 1) * w.per_page
}

/// Whether the offset of the page a request selects fits in an `i64`.
pub open spec fn window_fits(page: Option<i64>, per_page: Option<i64>, default_per_page: i64) -> bool {
    (requested_page(page) - 1) * requested_per_page(per_page, default_per_page) <= i64::MAX
}

/// The page a request selects, where its offset fits in an `i64`.
pub open spec fn requested_window(page: Option<i64>, per_page: Option<i64>, default_per_page: i64) -> PageWindow {
    let p = requested_page(page);
    let n = requested_per_page(per_page, default_per_page);
    PageWindow { page: p, per_page: n, offset: ((p - 1) * n) as i64 }
}

/// The page a request selects. `None` where the offset `(page - 1) * per_page`
/// does not fit in an `i64` (the computation overflows).
pub fn page_window(page: Option<i64>, per_page: Option<i64>, default_per_page: i64) -> (w: Option<PageWindow>)
    ensures
        w is Some <==> window_fits(page, per_page, default_per_page),
        w matches Some(w) ==> selects(w, page, per_page, default_per_page) && w == requested_window(
            page,
            per_page,
            default_per_page,
        ),
{
    let requested = match page {
        Some(p) => p,
        None => 1,
    };
    let page_number = if requested < 1 {
        1
    } else {
        requested
    };
    let size = match per_page {
        Some(n) => n,
        None => default_per_page,
    };
    let size = if size < 1 {
        1
    } else if size > 100 {
        100
    } else {
        size
    };
    match (page_number - 1).checked_mul(size) {
        Some(offset) => Some(PageWindow { page: page_number, per_page: size, offset }),
        None => None,
    }
}

} // verus!
