//! The document that the index holds for each content id.
use vstd::prelude::*;

verus! {

/// One indexed document. `date` is seconds since the Unix epoch (UTC);
/// `body` is plain text with markup removed.
#[derive(Clone, Debug, PartialEq, Eq)]
pub struct IndexedDocument {
    pub id: String,
    pub title: String,
    pub description: String,
    pub body: String,
    pub draft: bool,
    pub date: i64,
    pub tags: Vec<String>,
    pub categories: Vec<String>,
}

/// The character sequences of a list of strings.
pub open spec fn views(v: Seq<String>) -> Seq<Seq<char>> {
    v.map_values(|s: String| s@)
}

/// `v` holds the exact value `t`.
pub open spec fn has_value(v: Seq<String>, t: Seq<char>) -> bool {
    exists|i: int| 0 <= i < v.len() && #[trigger] v[i]@ == t
}

} // verus!
