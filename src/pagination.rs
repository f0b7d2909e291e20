//! Pagination and the hard cap on the number of matches a search reports.
use vstd::prelude::*;
use crate::document::IndexedDocument;
use vstd::arithmetic::div_mod::{lemma_fundamental_div_mod, lemma_fundamental_div_mod_converse};

verus! {

/// Page size used when a request names none.
pub const DEFAULT_PER_PAGE: usize = 10;

/// The page size in force: the requested one, at least 1, by default 10.
pub open spec fn effective_per_page(per_page: Option<usize>) -> int {
    match per_page {
        None => 10,
        Some(n) => if n < 1 { 1 } else { n as int },
    }
}

/// Number of pages: `ceil(total / per_page)`, 0 when there are no matches.
pub open spec fn page_count(total: int, per_page: int) -> int {
    if total == 0 { 0 } else { (total + per_page - 1) / per_page }
}

/// The page shown: the requested one (at least 1), brought back to the
/// last page when it lies beyond it.
pub open spec fn effective_page(total: int, page: Option<usize>, per_page: int) -> int {
    let p = match page {
        None => 1,
        Some(p) => if p < 1 { 1 } else { p as int },
    };
    let pages = page_count(total, per_page);
    if pages > 0 && p > pages { pages } else { p }
}

pub open spec fn min_int(a: int, b: int) -> int {
    if a < b { a } else { b }
}

/// Offset of the first document of the page.
pub open spec fn page_start(total: int, page: Option<usize>, per_page: Option<usize>) -> int {
    let pp = effective_per_page(per_page);
    min_int((effective_page(total, page, pp) - 1) * pp, total)
}

/// Offset just past the last document of the page.
pub open spec fn page_end(total: int, page: Option<usize>, per_page: Option<usize>) -> int {
    min_int(page_start(total, page, per_page) + effective_per_page(per_page), total)
}

proof fn lemma_page_count(total: int, pp: int)
    requires
        total > 0,
        pp >= 1,
    ensures
        (total + pp - 1) / pp == total / pp + if total % pp == 0 { 0int } else { 1int },
{
    let q = total / pp;
    let m = total % pp;
    lemma_fundamental_div_mod(total, pp);
    if m == 0 {
        lemma_fundamental_div_mod_converse(total + pp - 1, pp, q, pp - 1);
    } else {
        assert((q + 1) * pp == q * pp + pp) by (nonlinear_arith);
        lemma_fundamental_div_mod_converse(total + pp - 1, pp, q + 1, m - 1);
    }
}

proof fn lemma_start_below_total(total: int, pp: int, page: int)
    requires
        total > 0,
        pp >= 1,
        1 <= page <= (total + pp - 1) / pp,
    ensures
        (page - 1) * pp < total,
{
    assert((page - 1) * pp < total) by (nonlinear_arith)
        requires
            total > 0,
            pp >= 1,
            1 <= page,
            page <= (total + pp - 1) / pp,
    ;
}

/// Computes `(start, end, page, per_page, pages)` for `total` matches.
pub fn paginate(total: usize, page: Option<usize>, per_page: Option<usize>) -> (r: (
    usize,
    usize,
    usize,
    usize,
    usize,
))
    ensures
        r.3 == effective_per_page(per_page),
        r.4 == page_count(total as int, r.3 as int),
        r.2 == effective_page(total as int, page, r.3 as int),
        r.0 == page_start(total as int, page, per_page),
        r.1 == page_end(total as int, page, per_page),
{
    let per_page: usize = match per_page {
        None => DEFAULT_PER_PAGE,
        Some(n) => if n < 1 { 1 } else { n },
    };
    let mut page: usize = match page {
        None => 1,
        Some(p) => if p < 1 { 1 } else { p },
    };
    let pages: usize = if total == 0 {
        0
    } else {
        let q = total / per_page;
        let m = total % per_page;
        proof {
            lemma_fundamental_div_mod(total as int, per_page as int);
            lemma_page_count(total as int, per_page as int);
            if m != 0 {
                assert(q < total) by (nonlinear_arith)
                    requires total == q * per_page + m, m > 0, m < per_page, q >= 0;
            } else {
                assert(q >= 1) by (nonlinear_arith)
                    requires total == q * per_page, total > 0, per_page >= 1, q >= 0;
            }
        }
        if m == 0 { q } else { q + 1 }
    };
    assert(pages == page_count(total as int, per_page as int));
    if pages > 0 && page > pages {
        page = pages;
    }
    let start: usize = if total == 0 {
        0
    } else {
        proof {
            lemma_start_below_total(total as int, per_page as int, page as int);
        }
        (page - 1) * per_page
    };
    assert(start as int == min_int((page - 1) * per_page, total as int)) by (nonlinear_arith)
        requires
            total == 0 ==> start == 0,
            total != 0 ==> start == (page - 1) * per_page && (page - 1) * per_page < total,
            page >= 1,
            per_page >= 1,
    ;
    let end: usize = if total - start < per_page { total } else { start + per_page };
    (start, end, page, per_page, pages)
}

/// A total capped at the hard search limit, with the flag that says
/// whether the cap applied.
pub fn apply_search_limit(total: usize, limit: usize) -> (r: (usize, bool))
    ensures
        r.1 == (total > limit),
        r.0 == if total > limit { limit } else { total },
{
    if total > limit {
        (limit, true)
    } else {
        (total, false)
    }
}

/// Where a page of results lies among the (capped) matches.
#[derive(Clone, Copy, Debug, PartialEq, Eq, Structural)]
pub struct SearchWindow {
    /// Matches counted, capped at the search limit.
    pub total: usize,
    pub overflow: bool,
    pub start: usize,
    pub end: usize,
    pub page: usize,
    pub per_page: usize,
    pub max_page: usize,
}

/// Applies the search limit to `count` true matches and paginates the
/// result. The page holds the documents at offsets `start..end`, so nothing
/// is fetched when nothing matched.
pub fn search_window(count: usize, limit: usize, page: Option<usize>, per_page: Option<usize>) -> (w: SearchWindow)
    ensures
        w.overflow == (count > limit),
        w.total == if count > limit { limit } else { count },
        w.per_page == effective_per_page(per_page),
        w.max_page == page_count(w.total as int, w.per_page as int),
        w.page == effective_page(w.total as int, page, w.per_page as int),
        w.start == page_start(w.total as int, page, per_page),
        w.end == page_end(w.total as int, page, per_page),
        w.start <= w.end <= w.total,
        w.total == 0 ==> w.end == 0,
{
    let (total, overflow) = apply_search_limit(count, limit);
    let (start, end, page, per_page, max_page) = paginate(total, page, per_page);
    SearchWindow { total, overflow, start, end, page, per_page, max_page }
}

/// One page of search results, sorted by date, newest first.
#[derive(Clone, Debug, PartialEq, Eq)]
pub struct SearchResult {
    pub page: usize,
    pub per_page: usize,
    pub max_page: usize,
    pub overflow: bool,
    pub contents: Vec<IndexedDocument>,
}

impl SearchResult {
    /// Assembles a result from its window and the documents fetched for it.
    pub fn new(w: SearchWindow, contents: Vec<IndexedDocument>) -> (r: SearchResult)
        ensures
            r.page == w.page,
            r.per_page == w.per_page,
            r.max_page == w.max_page,
            r.overflow == w.overflow,
            r.contents@ == contents@,
    {
        SearchResult {
            page: w.page,
            per_page: w.per_page,
            max_page: w.max_page,
            overflow: w.overflow,
            contents,
        }
    }
}

/// Pages past the last one show the last page, and every page but the last
/// is full.
pub proof fn lemma_page_clamp(total: usize, page: usize, per_page: usize)
    requires
        total > 0,
        per_page >= 1,
    ensures
        page >= page_count(total as int, per_page as int) ==> effective_page(total as int, Some(page), per_page as int)
            == page_count(total as int, per_page as int),
        effective_page(total as int, Some(page), per_page as int) < page_count(total as int, per_page as int)
            ==> page_end(total as int, Some(page), Some(per_page)) - page_start(total as int, Some(page), Some(per_page))
            == per_page,
{
    let pp = per_page as int;
    let n = page_count(total as int, pp);
    let p = effective_page(total as int, Some(page), pp);
    assert(n >= 1) by (nonlinear_arith)
        requires total > 0, pp >= 1, n == (total + pp - 1) / pp;
    if p < n {
        assert(p * pp < total) by (nonlinear_arith)
            requires total > 0, pp >= 1, 1 <= p, p < n, n == (total + pp - 1) / pp;
        assert((p - 1) * pp + pp == p * pp) by (nonlinear_arith);
    }
}

} // verus!
