//! Query planning: turns a structured search request into the clauses that
//! the index engine combines with a logical AND.
use vstd::prelude::*;
use crate::text::{collapse_ws, fold_ideographic_space, normalize_query_text, trim_of, trim_str};
use crate::document::{IndexedDocument, has_value, views};

verus! {

/// A search request. Dates are seconds since the Unix epoch (UTC).
#[derive(Clone, Debug, PartialEq, Eq)]
pub struct SearchParams {
    pub word: Option<String>,
    pub draft: Option<bool>,
    pub date_from: Option<i64>,
    pub date_to: Option<i64>,
    pub tags: Option<Vec<String>>,
    pub categories: Option<Vec<String>>,
    pub page: Option<usize>,
    pub per_page: Option<usize>,
}

/// An inclusive date range; a missing bound is unbounded on that side.
#[derive(Clone, Copy, Debug, PartialEq, Eq, Structural)]
pub struct DateRange {
    pub from: Option<i64>,
    pub to: Option<i64>,
}

/// The clauses of a composite query. A clause that is absent (or an empty
/// facet list) places no constraint.
#[derive(Clone, Debug, PartialEq, Eq)]
pub struct QueryPlan {
    /// Free text, whitespace-normalised, matched against title, description and body.
    pub word: Option<String>,
    pub draft: Option<bool>,
    pub date: Option<DateRange>,
    /// At least one of these must be among the document's tags.
    pub tags: Vec<String>,
    /// At least one of these must be among the document's categories.
    pub categories: Vec<String>,
}

/// The date clause for the given bounds: none when both are missing, and
/// the bounds swapped when both are present and inverted.
pub open spec fn date_clause(from: Option<i64>, to: Option<i64>) -> Option<DateRange> {
    match (from, to) {
        (None, None) => None,
        (Some(f), Some(t)) => if f > t {
            Some(DateRange { from: Some(t), to: Some(f) })
        } else {
            Some(DateRange { from: Some(f), to: Some(t) })
        },
        _ => Some(DateRange { from, to }),
    }
}

/// The facet values kept from a request list: each entry trimmed, empty
/// entries dropped, order kept.
pub open spec fn kept_terms(v: Seq<String>) -> Seq<Seq<char>>
    decreases v.len(),
{
    if v.len() == 0 {
        Seq::empty()
    } else {
        let prev = kept_terms(v.drop_last());
        let t = trim_of(v.last()@);
        if t.len() == 0 {
            prev
        } else {
            prev.push(t)
        }
    }
}

pub open spec fn facet_terms(v: Option<Vec<String>>) -> Seq<Seq<char>> {
    match v {
        None => Seq::empty(),
        Some(v) => kept_terms(v@),
    }
}

/// The free text as the engine receives it.
pub open spec fn normalized_word(s: Seq<char>) -> Seq<char> {
    collapse_ws(fold_ideographic_space(s))
}

/// The date clause holds of a document's date.
pub open spec fn in_range(r: Option<DateRange>, d: i64) -> bool {
    match r {
        None => true,
        Some(r) => (r.from is None || r.from->0 <= d) && (r.to is None || d <= r.to->0),
    }
}

/// A facet clause holds: no values asked for, or one of them is present.
pub open spec fn facet_holds(wanted: Seq<Seq<char>>, values: Seq<String>) -> bool {
    wanted.len() == 0 || exists|i: int| 0 <= i < wanted.len() && #[trigger] has_value(values, wanted[i])
}

/// Every structured clause of `q` (all but the free text) holds of `d`.
pub open spec fn filters_hold(q: QueryPlan, d: IndexedDocument) -> bool {
    &&& (q.draft is None || q.draft->0 == d.draft)
    &&& in_range(q.date, d.date)
    &&& facet_holds(views(q.tags@), d.tags@)
    &&& facet_holds(views(q.categories@), d.categories@)
}

fn trimmed_terms(v: &Vec<String>) -> (r: Vec<String>)
    ensures
        views(r@) == kept_terms(v@),
{
    let mut out: Vec<String> = Vec::new();
    let mut i: usize = 0;
    while i < v.len()
        invariant
            i <= v@.len(),
            views(out@) == kept_terms(v@.subrange(0, i as int)),
        decreases v@.len() - i,
    {
        let t = trim_str(v[i].as_str());
        assert(v@.subrange(0, i + 1).drop_last() =~= v@.subrange(0, i as int));
        if t.unicode_len() > 0 {
            let s = String::from_str(t);
            out.push(s);
            assert(views(out@) =~= kept_terms(v@.subrange(0, i + 1)));
        }
        i = i + 1;
    }
    assert(v@.subrange(0, v@.len() as int) =~= v@);
    out
}

fn facet_clause(v: &Option<Vec<String>>) -> (r: Vec<String>)
    ensures
        views(r@) == facet_terms(*v),
{
    match v {
        None => Vec::new(),
        Some(list) => trimmed_terms(list),
    }
}

/// Builds the composite query for a request.
pub fn build_query(params: &SearchParams) -> (r: QueryPlan)
    ensures
        r.word is Some <==> params.word is Some,
        params.word is Some ==> r.word->0@ == normalized_word(params.word->0@),
        r.draft == params.draft,
        r.date == date_clause(params.date_from, params.date_to),
        views(r.tags@) == facet_terms(params.tags),
        views(r.categories@) == facet_terms(params.categories),
{
    let word = match &params.word {
        Some(w) => Some(normalize_query_text(w.as_str())),
        None => None,
    };
    let date = match (params.date_from, params.date_to) {
        (None, None) => None,
        (Some(f), Some(t)) => if f > t {
            Some(DateRange { from: Some(t), to: Some(f) })
        } else {
            Some(DateRange { from: Some(f), to: Some(t) })
        },
        (from, to) => Some(DateRange { from, to }),
    };
    QueryPlan {
        word,
        draft: params.draft,
        date,
        tags: facet_clause(&params.tags),
        categories: facet_clause(&params.categories),
    }
}

fn holds_value(values: &Vec<String>, t: &String) -> (r: bool)
    ensures
        r == has_value(values@, t@),
{
    let mut i: usize = 0;
    while i < values.len()
        invariant
            i <= values@.len(),
            forall|k: int| 0 <= k < i ==> #[trigger] values@[k]@ != t@,
        decreases values@.len() - i,
    {
        if values[i] == *t {
            return true;
        }
        i = i + 1;
    }
    false
}

fn facet_matches(wanted: &Vec<String>, values: &Vec<String>) -> (r: bool)
    ensures
        r == facet_holds(views(wanted@), values@),
{
    if wanted.len() == 0 {
        return true;
    }
    let mut i: usize = 0;
    while i < wanted.len()
        invariant
            i <= wanted@.len(),
            forall|k: int| 0 <= k < i ==> !has_value(values@, #[trigger] views(wanted@)[k]),
        decreases wanted@.len() - i,
    {
        if holds_value(values, &wanted[i]) {
            assert(views(wanted@)[i as int] == wanted@[i as int]@);
            return true;
        }
        assert(views(wanted@)[i as int] == wanted@[i as int]@);
        i = i + 1;
    }
    false
}

impl QueryPlan {
    /// Whether every structured clause (all but the free text) holds of `d`.
    pub fn matches_filters(&self, d: &IndexedDocument) -> (r: bool)
        ensures
            r == filters_hold(*self, *d),
    {
        let draft_ok = match self.draft {
            Some(v) => v == d.draft,
            None => true,
        };
        let range_ok = match self.date {
            None => true,
            Some(r) => (match r.from { Some(f) => f <= d.date, None => true })
                && (match r.to { Some(t) => d.date <= t, None => true }),
        };
        draft_ok && range_ok && facet_matches(&self.tags, &d.tags) && facet_matches(&self.categories, &d.categories)
    }
}

/// An inverted date range selects the same documents as the range with its
/// bounds in order: the two requests yield the same date clause.
pub proof fn lemma_range_normalization(t1: i64, t2: i64)
    requires
        t1 < t2,
    ensures
        date_clause(Some(t2), Some(t1)) == date_clause(Some(t1), Some(t2)),
        forall|d: i64| #[trigger] in_range(date_clause(Some(t2), Some(t1)), d) <==> t1 <= d <= t2,
{
}

/// Facet values combine with OR within a list and with AND across lists:
/// one listed tag present satisfies the tag clause, and a category list none
/// of whose values the document has excludes it whatever its tags.
pub proof fn lemma_facet_semantics(q: QueryPlan, d: IndexedDocument, i: int)
    requires
        0 <= i < q.tags@.len(),
        has_value(d.tags@, q.tags@[i]@),
    ensures
        facet_holds(views(q.tags@), d.tags@),
        q.categories@.len() > 0 && (forall|j: int| 0 <= j < q.categories@.len() ==> !has_value(d.categories@, #[trigger] q.categories@[j]@))
            ==> !filters_hold(q, d),
{
    assert(views(q.tags@)[i] == q.tags@[i]@);
    if q.categories@.len() > 0 && (forall|j: int| 0 <= j < q.categories@.len() ==> !has_value(d.categories@, #[trigger] q.categories@[j]@)) {
        assert forall|j: int| 0 <= j < views(q.categories@).len() implies !#[trigger] has_value(d.categories@, views(q.categories@)[j]) by {
            assert(views(q.categories@)[j] == q.categories@[j]@);
        }
    }
}

} // verus!
