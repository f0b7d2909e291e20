//! Content records as they arrive from clients and as they are stored,
//! with the cleanup applied to titles, bodies, tags and categories.
use vstd::prelude::*;
use crate::config::ContentConfig;
use crate::document::{IndexedDocument, views};
use crate::text::{
    collapse_ws, fold_ideographic, fold_ideographic_space, collapse_whitespace, remove_whitespace,
    squeeze_ws, take_chars, trim_of, trim_str,
};

verus! {

/// Front matter as a client sends it; every value may be missing.
#[derive(Clone, Debug, PartialEq, Eq)]
pub struct FrontMatterDto {
    pub title: Option<String>,
    /// Seconds since the Unix epoch (UTC).
    pub date: Option<i64>,
    pub description: Option<String>,
    pub draft: Option<bool>,
    pub tags: Option<Vec<String>>,
    pub categories: Option<Vec<String>>,
}

/// A content record as a client sends it.
#[derive(Clone, Debug, PartialEq, Eq)]
pub struct ContentDto {
    pub id: Option<String>,
    pub matter: Option<FrontMatterDto>,
    pub body: Option<String>,
}

/// Front matter of a stored content record.
#[derive(Clone, Debug, PartialEq, Eq)]
pub struct FrontMatterEntity {
    /// Seconds since the Unix epoch (UTC).
    pub date: i64,
    pub title: String,
    pub description: Option<String>,
    pub draft: bool,
    pub tags: Vec<String>,
    pub categories: Vec<String>,
}

/// A stored content record.
#[derive(Clone, Debug, PartialEq, Eq)]
pub struct ContentEntity {
    pub id: String,
    pub matter: FrontMatterEntity,
    pub body: String,
}

impl FrontMatterDto {
    /// Front matter for new content at `now`: empty title, a draft, no tags
    /// or categories.
    pub fn new(now: i64) -> (r: FrontMatterDto)
        ensures
            r.title matches Some(t) && t@.len() == 0,
            r.date == Some(now),
            r.description is None,
            r.draft == Some(true),
            r.tags matches Some(v) && v@.len() == 0,
            r.categories matches Some(v) && v@.len() == 0,
    {
        FrontMatterDto {
            title: Some(String::new()),
            date: Some(now),
            description: None,
            draft: Some(true),
            tags: Some(Vec::new()),
            categories: Some(Vec::new()),
        }
    }

    /// The front matter with every missing value filled in as `new(now)` does.
    pub fn default(self, now: i64) -> (r: FrontMatterDto)
        ensures
            self.title is Some ==> r.title == self.title,
            self.title is None ==> (r.title matches Some(t) && t@.len() == 0),
            r.date == Some(match self.date { Some(d) => d, None => now }),
            r.description == self.description,
            r.draft == Some(match self.draft { Some(d) => d, None => true }),
            self.tags is Some ==> r.tags == self.tags,
            self.tags is None ==> (r.tags matches Some(v) && v@.len() == 0),
            self.categories is Some ==> r.categories == self.categories,
            self.categories is None ==> (r.categories matches Some(v) && v@.len() == 0),
    {
        FrontMatterDto {
            title: match self.title { Some(t) => Some(t), None => Some(String::new()) },
            date: match self.date { Some(d) => Some(d), None => Some(now) },
            description: self.description,
            draft: match self.draft { Some(d) => Some(d), None => Some(true) },
            tags: match self.tags { Some(v) => Some(v), None => Some(Vec::new()) },
            categories: match self.categories { Some(v) => Some(v), None => Some(Vec::new()) },
        }
    }
}

impl ContentDto {
    /// New content with id `new_id` created at `now`: empty body, default
    /// front matter.
    pub fn new(new_id: String, now: i64) -> (r: ContentDto)
        ensures
            r.id == Some(new_id),
            r.matter matches Some(m) && m.date == Some(now) && m.draft == Some(true),
            r.body matches Some(b) && b@.len() == 0,
    {
        ContentDto { id: Some(new_id), matter: Some(FrontMatterDto::new(now)), body: Some(String::new()) }
    }

    /// The content with every missing value filled in: `new_id` for a
    /// missing id, default front matter at `now`, an empty body.
    pub fn default(self, new_id: String, now: i64) -> (r: ContentDto)
        ensures
            r.id == Some(pick_id(self.id, new_id)),
            r.matter matches Some(m) && m.date == Some(match self.matter {
                Some(sm) => match sm.date { Some(d) => d, None => now },
                None => now,
            }),
            self.body is Some ==> r.body == self.body,
            self.body is None ==> (r.body matches Some(b) && b@.len() == 0),
    {
        ContentDto {
            id: Some(match self.id { Some(i) => i, None => new_id }),
            matter: Some(match self.matter { Some(m) => m.default(now), None => FrontMatterDto::new(now) }),
            body: match self.body { Some(b) => Some(b), None => Some(String::new()) },
        }
    }
}

pub open spec fn min_len(n: usize, len: nat) -> int {
    if n < len { n as int } else { len as int }
}

/// A facet value after cleanup: ideographic spaces and all ASCII
/// whitespace removed, then cut to `max_len` characters.
pub open spec fn cleaned_value(s: Seq<char>, max_len: usize) -> Seq<char> {
    let q = squeeze_ws(fold_ideographic_space(s));
    q.take(min_len(max_len, q.len()))
}

/// Cleanup of a facet list, continuing from the values `acc` already kept:
/// empty and repeated values are skipped, and the list stops once it holds
/// `limit` values.
pub open spec fn list_from(items: Seq<String>, max_len: usize, limit: usize, acc: Seq<Seq<char>>) -> Seq<Seq<char>>
    decreases items.len(),
{
    if items.len() == 0 {
        acc
    } else {
        let c = cleaned_value(items[0]@, max_len);
        if c.len() == 0 || acc.contains(c) {
            list_from(items.drop_first(), max_len, limit, acc)
        } else if acc.len() + 1 >= limit {
            acc.push(c)
        } else {
            list_from(items.drop_first(), max_len, limit, acc.push(c))
        }
    }
}

pub open spec fn normalized_list(items: Option<Vec<String>>, max_len: usize, limit: usize) -> Seq<Seq<char>> {
    match items {
        None => Seq::empty(),
        Some(v) => list_from(v@, max_len, limit, Seq::empty()),
    }
}

/// Text after cleanup: ideographic spaces become ASCII spaces; a one-line
/// text has its whitespace collapsed, any other is trimmed; then it is cut
/// to `max_len` characters.
pub open spec fn normalized_text(text: Option<String>, max_len: usize, oneline: bool) -> Seq<char> {
    match text {
        None => Seq::empty(),
        Some(t) => {
            let f = fold_ideographic_space(t@);
            let u = if oneline { collapse_ws(f) } else { trim_of(f) };
            u.take(min_len(max_len, u.len()))
        },
    }
}

fn contains_value(v: &Vec<String>, s: &String) -> (r: bool)
    ensures
        r == views(v@).contains(s@),
{
    let mut i: usize = 0;
    while i < v.len()
        invariant
            i <= v@.len(),
            forall|k: int| 0 <= k < i ==> v@[k]@ != s@,
        decreases v@.len() - i,
    {
        if v[i] == *s {
            assert(views(v@)[i as int] == s@);
            return true;
        }
        i = i + 1;
    }
    assert forall|k: int| 0 <= k < views(v@).len() implies views(v@)[k] != s@ by {
        assert(views(v@)[k] == v@[k]@);
    }
    false
}

fn clean_value(s: &String, max_len: usize) -> (r: String)
    ensures
        r@ == cleaned_value(s@, max_len),
{
    let folded = fold_ideographic(s.as_str());
    let squeezed = remove_whitespace(folded.as_str());
    take_chars(squeezed.as_str(), max_len)
}

/// Cleans a tag or category list: each value loses its whitespace and is
/// cut to `max_len` characters; empty and repeated values are dropped; at
/// most `limit` values are kept (at least one, when any is non-empty).
pub fn normalize_list(list: Option<Vec<String>>, limit: usize, max_len: usize) -> (r: Vec<String>)
    ensures
        views(r@) == normalized_list(list, max_len, limit),
{
    let mut out: Vec<String> = Vec::new();
    match list {
        None => {
            assert(views(out@) =~= Seq::<Seq<char>>::empty());
        },
        Some(items) => {
            let ghost all = items@;
            let mut i: usize = 0;
            assert(views(out@) =~= Seq::<Seq<char>>::empty());
            assert(all.subrange(0, all.len() as int) =~= all);
            while i < items.len()
                invariant_except_break
                    list_from(all, max_len, limit, Seq::empty()) == list_from(
                        all.subrange(i as int, all.len() as int),
                        max_len,
                        limit,
                        views(out@),
                    ),
                invariant
                    i <= items@.len(),
                    all == items@,
                ensures
                    list_from(all, max_len, limit, Seq::empty()) == views(out@),
                decreases items@.len() - i,
            {
                let ghost rest = all.subrange(i as int, all.len() as int);
                assert(rest.drop_first() =~= all.subrange(i + 1, all.len() as int));
                assert(rest[0] == all[i as int]);
                let c = clean_value(&items[i], max_len);
                if c.unicode_len() == 0 || contains_value(&out, &c) {
                    i = i + 1;
                } else {
                    let ghost before = views(out@);
                    out.push(c);
                    assert(views(out@) =~= before.push(c@));
                    if out.len() >= limit {
                        break;
                    }
                    i = i + 1;
                }
            }
        },
    }
    out
}

/// Cleans a title (`oneline`) or a body; a missing text becomes empty.
pub fn normalize_text(text: Option<String>, max_len: usize, oneline: bool) -> (r: String)
    ensures
        r@ == normalized_text(text, max_len, oneline),
{
    match text {
        None => String::new(),
        Some(t) => {
            let f = fold_ideographic(t.as_str());
            if oneline {
                let u = collapse_whitespace(f.as_str());
                take_chars(u.as_str(), max_len)
            } else {
                let u = trim_str(f.as_str());
                take_chars(u, max_len)
            }
        },
    }
}

impl ContentEntity {
    /// Builds the record to store from a client's content. `new_id` is used
    /// when the content carries no id and `now` when it carries no date;
    /// a missing draft flag means draft.
    pub fn from_dto(dto: ContentDto, new_id: String, now: i64, limits: &ContentConfig) -> (r: ContentEntity)
        ensures
            r.id == pick_id(dto.id, new_id),
            r.body@ == normalized_text(dto.body, limits.body_max_len, false),
            dto.matter is None ==> r.matter.date == now && r.matter.draft && r.matter.title@.len() == 0
                && r.matter.tags@.len() == 0 && r.matter.categories@.len() == 0 && r.matter.description is None,
            dto.matter matches Some(m) ==> {
                &&& r.matter.date == (match m.date { Some(d) => d, None => now })
                &&& r.matter.draft == (match m.draft { Some(d) => d, None => true })
                &&& r.matter.title@ == normalized_text(m.title, limits.title_max_len, true)
                &&& r.matter.description == m.description
                &&& views(r.matter.tags@) == normalized_list(m.tags, limits.tag_max_len, limits.max_tags)
                &&& views(r.matter.categories@) == normalized_list(m.categories, limits.category_max_len, limits.max_categories)
            },
    {
        let id = match dto.id {
            Some(id) => id,
            None => new_id,
        };
        let body = normalize_text(dto.body, limits.body_max_len, false);
        let matter = match dto.matter {
            None => FrontMatterEntity {
                date: now,
                title: String::new(),
                description: None,
                draft: true,
                tags: Vec::new(),
                categories: Vec::new(),
            },
            Some(m) => FrontMatterEntity {
                date: match m.date { Some(d) => d, None => now },
                title: normalize_text(m.title, limits.title_max_len, true),
                description: m.description,
                draft: match m.draft { Some(d) => d, None => true },
                tags: normalize_list(m.tags, limits.max_tags, limits.tag_max_len),
                categories: normalize_list(m.categories, limits.max_categories, limits.category_max_len),
            },
        };
        ContentEntity { id, matter, body }
    }

    /// A record is accepted only with a non-empty title and body.
    pub fn check_required(&self) -> (r: Result<(), crate::error::AppError>)
        ensures
            r is Ok <==> (self.matter.title@.len() > 0 && self.body@.len() > 0),
            r is Err ==> r matches Err(crate::error::AppError::BadRequest(_)),
    {
        if self.matter.title.as_str().unicode_len() == 0 || self.body.as_str().unicode_len() == 0 {
            return Err(crate::error::AppError::BadRequest(String::from_str("title or body is empty")));
        }
        Ok(())
    }

    /// The document to index for this record, with `plain_body` (the
    /// rendered body with markup removed) as its body.
    pub fn to_document(&self, plain_body: String) -> (d: IndexedDocument)
        ensures
            d.id@ == self.id@,
            d.title@ == self.matter.title@,
            d.description@ == match self.matter.description { Some(s) => s@, None => Seq::<char>::empty() },
            d.body == plain_body,
            d.draft == self.matter.draft,
            d.date == self.matter.date,
            views(d.tags@) == views(self.matter.tags@),
            views(d.categories@) == views(self.matter.categories@),
    {
        IndexedDocument {
            id: self.id.clone(),
            title: self.matter.title.clone(),
            description: match &self.matter.description { Some(s) => s.clone(), None => String::new() },
            body: plain_body,
            draft: self.matter.draft,
            date: self.matter.date,
            tags: clone_all(&self.matter.tags),
            categories: clone_all(&self.matter.categories),
        }
    }
}

pub open spec fn pick_id(id: Option<String>, new_id: String) -> String {
    match id {
        Some(i) => i,
        None => new_id,
    }
}

fn clone_all(v: &Vec<String>) -> (r: Vec<String>)
    ensures
        views(r@) == views(v@),
{
    let mut out: Vec<String> = Vec::new();
    let mut i: usize = 0;
    while i < v.len()
        invariant
            i <= v@.len(),
            out@ == v@.subrange(0, i as int),
        decreases v@.len() - i,
    {
        out.push(v[i].clone());
        assert(out@ =~= v@.subrange(0, i + 1));
        i = i + 1;
    }
    assert(v@.subrange(0, v@.len() as int) =~= v@);
    out
}

} // verus!
