use ssg_mng::aggregation::{top_terms, top_terms_checked};
use ssg_mng::document::IndexedDocument;
use ssg_mng::pagination::{apply_search_limit, paginate, search_window, SearchResult};
use ssg_mng::query::{build_query, DateRange, SearchParams};

fn s(v: &str) -> String {
    v.to_string()
}

fn params() -> SearchParams {
    SearchParams {
        word: None,
        draft: None,
        date_from: None,
        date_to: None,
        tags: None,
        categories: None,
        page: None,
        per_page: None,
    }
}

fn doc(id: &str, tags: &[&str], categories: &[&str]) -> IndexedDocument {
    IndexedDocument {
        id: s(id),
        title: s("title"),
        description: String::new(),
        body: s("body"),
        draft: false,
        date: 1_700_000_000,
        tags: tags.iter().map(|t| s(t)).collect(),
        categories: categories.iter().map(|c| s(c)).collect(),
    }
}

#[test]
fn empty_request_places_no_constraint() {
    let q = build_query(&params());
    assert!(q.word.is_none());
    assert!(q.draft.is_none());
    assert!(q.date.is_none());
    assert!(q.tags.is_empty());
    assert!(q.categories.is_empty());
    let mut draft = doc("d", &[], &[]);
    draft.draft = true;
    assert!(q.matches_filters(&draft));
}

#[test]
fn free_text_whitespace_is_normalized() {
    let mut p = params();
    p.word = Some(s("  rust\u{3000}verus \t\n search  "));
    let q = build_query(&p);
    assert_eq!(q.word, Some(s("rust verus search")));
}

#[test]
fn inverted_range_equals_ordered_range() {
    let mut inverted = params();
    inverted.date_from = Some(2_000);
    inverted.date_to = Some(1_000);
    let mut ordered = params();
    ordered.date_from = Some(1_000);
    ordered.date_to = Some(2_000);
    let a = build_query(&inverted);
    let b = build_query(&ordered);
    assert_eq!(a.date, Some(DateRange { from: Some(1_000), to: Some(2_000) }));
    assert_eq!(a.date, b.date);
    let mut d = doc("x", &[], &[]);
    for date in [999, 1_000, 1_500, 2_000, 2_001] {
        d.date = date;
        assert_eq!(a.matches_filters(&d), b.matches_filters(&d));
    }
}

#[test]
fn one_sided_range_is_unbounded_on_the_other_side() {
    let mut p = params();
    p.date_to = Some(50);
    let q = build_query(&p);
    assert_eq!(q.date, Some(DateRange { from: None, to: Some(50) }));
}

#[test]
fn facet_entries_are_trimmed_and_blank_ones_dropped() {
    let mut p = params();
    p.tags = Some(vec![s(" go "), s(""), s("   "), s("rust"), s("\u{a0}x y\u{2003}"), s("\u{3000}")]);
    let q = build_query(&p);
    assert_eq!(q.tags, vec![s("go"), s("rust"), s("x y")]);
}

#[test]
fn facets_are_or_within_and_across_lists() {
    let d = doc("p", &["a", "b"], &["y"]);
    let mut p = params();
    p.tags = Some(vec![s("b"), s("c")]);
    assert!(build_query(&p).matches_filters(&d));
    p.categories = Some(vec![s("x")]);
    assert!(!build_query(&p).matches_filters(&d));
    p.categories = Some(vec![s("x"), s("y")]);
    assert!(build_query(&p).matches_filters(&d));
}

#[test]
fn draft_filter_is_exact() {
    let mut p = params();
    p.draft = Some(false);
    let q = build_query(&p);
    let mut d = doc("p", &[], &[]);
    assert!(q.matches_filters(&d));
    d.draft = true;
    assert!(!q.matches_filters(&d));
}

#[test]
fn twenty_five_matches_make_three_pages() {
    assert_eq!(paginate(25, Some(1), Some(10)), (0, 10, 1, 10, 3));
    assert_eq!(paginate(25, Some(2), Some(10)), (10, 20, 2, 10, 3));
    assert_eq!(paginate(25, Some(3), Some(10)), (20, 25, 3, 10, 3));
    assert_eq!(paginate(25, Some(4), Some(10)), (20, 25, 3, 10, 3));
    assert_eq!(paginate(25, Some(usize::MAX), Some(10)), (20, 25, 3, 10, 3));
}

#[test]
fn page_and_page_size_are_clamped() {
    assert_eq!(paginate(25, Some(0), Some(0)), (0, 1, 1, 1, 25));
    assert_eq!(paginate(25, None, None), (0, 10, 1, 10, 3));
    assert_eq!(paginate(0, Some(7), Some(10)), (0, 0, 7, 10, 0));
    assert_eq!(paginate(0, Some(usize::MAX), None), (0, 0, usize::MAX, 10, 0));
    assert_eq!(paginate(usize::MAX, Some(2), Some(usize::MAX)), (0, usize::MAX, 1, usize::MAX, 1));
}

#[test]
fn overflow_caps_total_at_search_limit() {
    assert_eq!(apply_search_limit(1500, 1000), (1000, true));
    assert_eq!(apply_search_limit(1000, 1000), (1000, false));
    let w = search_window(1500, 1000, Some(500), Some(10));
    assert!(w.overflow);
    assert_eq!(w.total, 1000);
    assert_eq!(w.max_page, 100);
    assert_eq!(w.page, 100);
    assert_eq!((w.start, w.end), (990, 1000));
    let r = SearchResult::new(w, vec![doc("a", &[], &[])]);
    assert!(r.overflow);
    assert_eq!((r.page, r.per_page, r.max_page, r.contents.len()), (100, 10, 100, 1));
}

#[test]
fn top_term_of_three_and_one() {
    let entries = vec![(s("a"), 2), (s("b"), 1), (s("a"), 1)];
    assert_eq!(top_terms(&entries, 1), vec![(s("a"), 3)]);
    assert_eq!(top_terms(&entries, 5), vec![(s("a"), 3), (s("b"), 1)]);
    assert_eq!(top_terms(&entries, 0), vec![]);
    assert_eq!(top_terms(&vec![], 3), vec![]);
}

#[test]
fn aggregation_sums_across_segments_and_orders_by_frequency() {
    let entries = vec![(s("x"), 1), (s("y"), 4), (s("z"), 2), (s("x"), 5), (s("z"), 1)];
    assert_eq!(top_terms(&entries, 3), vec![(s("x"), 6), (s("y"), 4), (s("z"), 3)]);
}

#[test]
fn aggregation_refuses_a_total_past_u64() {
    let entries = vec![(s("a"), u64::MAX), (s("b"), 1)];
    assert_eq!(top_terms_checked(&entries, 2), None);
    let ok = vec![(s("a"), u64::MAX - 1), (s("b"), 1)];
    assert_eq!(top_terms_checked(&ok, 1), Some(vec![(s("a"), u64::MAX - 1)]));
}
