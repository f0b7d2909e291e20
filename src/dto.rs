//! Request and response shapes of the search and content endpoints, and the
//! audience rules of the public ones.
use vstd::prelude::*;
use crate::content::ContentDto;
use crate::document::IndexedDocument;
use crate::member::MemberSigninResponseDto;
use crate::pagination::SearchResult;
use crate::query::SearchParams;
use crate::text::{push_char, take_chars, trim_of, trim_str};

verus! {

/// A full search request; dates are seconds since the Unix epoch (UTC).
#[derive(Clone, Debug, PartialEq, Eq)]
pub struct SearchRequestDto {
    pub word: Option<String>,
    pub draft: Option<bool>,
    pub date_from: Option<i64>,
    pub date_to: Option<i64>,
    pub tags: Option<Vec<String>>,
    pub categories: Option<Vec<String>>,
    pub page: Option<usize>,
    pub per_page: Option<usize>,
}

/// The query-string variant: paging only.
#[derive(Clone, Debug, PartialEq, Eq)]
pub struct SearchQueryDto {
    pub page: Option<usize>,
    pub per_page: Option<usize>,
}

impl From<SearchRequestDto> for SearchParams {
    fn from(dto: SearchRequestDto) -> (r: SearchParams)
        ensures
            r == (SearchParams {
                word: dto.word,
                draft: dto.draft,
                date_from: dto.date_from,
                date_to: dto.date_to,
                tags: dto.tags,
                categories: dto.categories,
                page: dto.page,
                per_page: dto.per_page,
            }),
    {
        SearchParams {
            word: dto.word,
            draft: dto.draft,
            date_from: dto.date_from,
            date_to: dto.date_to,
            tags: dto.tags,
            categories: dto.categories,
            page: dto.page,
            per_page: dto.per_page,
        }
    }
}

impl vstd::std_specs::convert::FromSpecImpl<SearchRequestDto> for SearchParams {
    open spec fn obeys_from_spec() -> bool {
        true
    }

    open spec fn from_spec(dto: SearchRequestDto) -> SearchParams {
        SearchParams {
            word: dto.word,
            draft: dto.draft,
            date_from: dto.date_from,
            date_to: dto.date_to,
            tags: dto.tags,
            categories: dto.categories,
            page: dto.page,
            per_page: dto.per_page,
        }
    }
}

impl From<SearchQueryDto> for SearchParams {
    fn from(dto: SearchQueryDto) -> (r: SearchParams)
        ensures
            r == (SearchParams {
                word: None,
                draft: None,
                date_from: None,
                date_to: None,
                tags: None,
                categories: None,
                page: dto.page,
                per_page: dto.per_page,
            }),
    {
        SearchParams {
            word: None,
            draft: None,
            date_from: None,
            date_to: None,
            tags: None,
            categories: None,
            page: dto.page,
            per_page: dto.per_page,
        }
    }
}

impl vstd::std_specs::convert::FromSpecImpl<SearchQueryDto> for SearchParams {
    open spec fn obeys_from_spec() -> bool {
        true
    }

    open spec fn from_spec(dto: SearchQueryDto) -> SearchParams {
        SearchParams {
            word: None,
            draft: None,
            date_from: None,
            date_to: None,
            tags: None,
            categories: None,
            page: dto.page,
            per_page: dto.per_page,
        }
    }
}

/// A public search: the request with drafts excluded.
pub fn public_request(dto: SearchRequestDto) -> (r: SearchRequestDto)
    ensures
        r == (SearchRequestDto { draft: Some(false), ..dto }),
{
    SearchRequestDto { draft: Some(false), ..dto }
}

/// A public paging-only search: everything but drafts.
pub fn public_query(dto: SearchQueryDto) -> (r: SearchRequestDto)
    ensures
        r == (SearchRequestDto {
            word: None,
            draft: Some(false),
            date_from: None,
            date_to: None,
            tags: None,
            categories: None,
            page: dto.page,
            per_page: dto.per_page,
        }),
{
    SearchRequestDto {
        word: None,
        draft: Some(false),
        date_from: None,
        date_to: None,
        tags: None,
        categories: None,
        page: dto.page,
        per_page: dto.per_page,
    }
}

/// Content as a public reader may see it: only when marked as not a draft.
pub fn visible_content(content: Option<ContentDto>) -> (r: Option<ContentDto>)
    ensures
        r == (match content {
            Some(c) if (c.matter matches Some(m) && m.draft == Some(false)) => Some(c),
            _ => None,
        }),
{
    match content {
        Some(c) => {
            let keep = match &c.matter {
                Some(m) => match m.draft {
                    Some(d) => !d,
                    None => false,
                },
                None => false,
            };
            if keep { Some(c) } else { None }
        },
        None => None,
    }
}

#[derive(Clone, Debug, PartialEq, Eq)]
pub struct SearchFrontMatterDto {
    pub date: i64,
    pub title: String,
    pub description: String,
    pub draft: bool,
    pub tags: Vec<String>,
    pub categories: Vec<String>,
}

#[derive(Clone, Debug, PartialEq, Eq)]
pub struct SearchContentDto {
    pub id: String,
    pub matter: SearchFrontMatterDto,
}

#[derive(Clone, Debug, PartialEq, Eq)]
pub struct SearchResponseDto {
    pub page: usize,
    pub per_page: usize,
    pub max_page: usize,
    pub overflow: bool,
    pub contents: Vec<SearchContentDto>,
}

/// The description shown for a hit: its own description, trimmed, when
/// that is not empty; otherwise the body, cut to `max_len - 1` characters
/// and an ellipsis when longer than `max_len`.
pub open spec fn summary(description: Seq<char>, body: Seq<char>, max_len: usize) -> Seq<char> {
    let d = trim_of(description);
    if d.len() > 0 {
        d
    } else if body.len() > max_len {
        body.take(max_len - 1).push('\u{2026}')
    } else {
        body
    }
}

impl SearchContentDto {
    /// The response entry for an indexed document.
    pub fn from_document(doc: IndexedDocument, description_max_len: usize) -> (r: SearchContentDto)
        requires
            description_max_len >= 1,
        ensures
            r.id == doc.id,
            r.matter.date == doc.date,
            r.matter.title == doc.title,
            r.matter.draft == doc.draft,
            r.matter.tags == doc.tags,
            r.matter.categories == doc.categories,
            r.matter.description@ == summary(doc.description@, doc.body@, description_max_len),
    {
        let d = trim_str(doc.description.as_str());
        let description = if d.unicode_len() > 0 {
            String::from_str(d)
        } else if doc.body.as_str().unicode_len() > description_max_len {
            let mut cut = take_chars(doc.body.as_str(), description_max_len - 1);
            push_char(&mut cut, '\u{2026}');
            cut
        } else {
            doc.body.clone()
        };
        SearchContentDto {
            id: doc.id,
            matter: SearchFrontMatterDto {
                date: doc.date,
                title: doc.title,
                description,
                draft: doc.draft,
                tags: doc.tags,
                categories: doc.categories,
            },
        }
    }
}

impl SearchResponseDto {
    /// The response for a page of results.
    pub fn from_result(result: SearchResult, description_max_len: usize) -> (r: SearchResponseDto)
        requires
            description_max_len >= 1,
        ensures
            r.page == result.page,
            r.per_page == result.per_page,
            r.max_page == result.max_page,
            r.overflow == result.overflow,
            r.contents@.len() == result.contents@.len(),
            forall|i: int| 0 <= i < r.contents@.len() ==> {
                &&& (#[trigger] r.contents@[i]).id == result.contents@[i].id
                &&& r.contents@[i].matter.description@ == summary(
                    result.contents@[i].description@,
                    result.contents@[i].body@,
                    description_max_len,
                )
            },
    {
        let SearchResult { page, per_page, max_page, overflow, contents } = result;
        let ghost all = contents@;
        let mut rest = contents;
        let mut out: Vec<SearchContentDto> = Vec::new();
        while rest.len() > 0
            invariant
                out@.len() + rest@.len() == all.len(),
                rest@ == all.subrange(out@.len() as int, all.len() as int),
                forall|i: int| 0 <= i < out@.len() ==> {
                    &&& (#[trigger] out@[i]).id == all[i].id
                    &&& out@[i].matter.description@ == summary(all[i].description@, all[i].body@, description_max_len)
                },
                description_max_len >= 1,
            decreases rest@.len(),
        {
            let doc = rest.remove(0);
            let ghost k = out@.len();
            assert(doc == all[k as int]);
            out.push(SearchContentDto::from_document(doc, description_max_len));
        }
        SearchResponseDto { page, per_page, max_page, overflow, contents: out }
    }
}

/// The member a request was authenticated as.
#[derive(Clone, Debug, PartialEq, Eq)]
pub struct AuthMember {
    pub member: MemberSigninResponseDto,
}

} // verus!
