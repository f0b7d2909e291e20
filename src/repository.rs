//! Where content is stored, and the layout of a stored markdown file: a
//! front-matter block between `---` lines, then the body.
use vstd::prelude::*;
use crate::config::ContentConfig;
use crate::error::AppError;
use crate::text::{trim_of, trim_str};

verus! {

/// Markdown storage, under `output_path`.
#[derive(Clone, Debug, PartialEq, Eq)]
pub struct ContentRepositoryImpl {
    pub output_path: String,
}

impl ContentRepositoryImpl {
    pub fn new(config: &ContentConfig) -> (r: ContentRepositoryImpl)
        ensures
            r.output_path == config.markdown_dir,
    {
        ContentRepositoryImpl { output_path: config.markdown_dir.clone() }
    }
}

/// Rendering of content to HTML pages, with templates from `template_path`
/// and pages written under `output_path`.
#[derive(Clone, Debug, PartialEq, Eq)]
pub struct HtmlParserRepositoryImpl {
    pub template_path: String,
    pub output_path: String,
}

impl HtmlParserRepositoryImpl {
    pub fn new(config: &ContentConfig) -> (r: HtmlParserRepositoryImpl)
        ensures
            r.template_path == config.template_dir,
            r.output_path == config.html_dir,
    {
        HtmlParserRepositoryImpl {
            template_path: config.template_dir.clone(),
            output_path: config.html_dir.clone(),
        }
    }
}

pub open spec fn opening_marker() -> Seq<char> {
    "---\n"@
}

pub open spec fn closing_marker() -> Seq<char> {
    "\n---\n"@
}

/// The closing marker starts at position `k` of `s`.
pub open spec fn closes_at(s: Seq<char>, k: int) -> bool {
    0 <= k && k + 5 <= s.len() && s.subrange(k, k + 5) == closing_marker()
}

/// The text of a stored file: the front matter (surrounding whitespace
/// trimmed) between marker lines, then the body.
pub open spec fn file_text(front_matter: Seq<char>, body: Seq<char>) -> Seq<char> {
    opening_marker() + trim_of(front_matter) + closing_marker() + body
}

/// Lays out a stored markdown file.
pub fn compose_markdown(front_matter: &str, body: &str) -> (r: String)
    ensures
        r@ == file_text(front_matter@, body@),
{
    let t = trim_str(front_matter);
    let r = String::from_str("---\n").concat(t).concat("\n---\n").concat(body);
    proof {
        reveal_strlit("---\n");
        reveal_strlit("\n---\n");
    }
    r
}

fn closes_at_exec(s: &str, k: usize, n: usize) -> (r: bool)
    requires
        n == s@.len(),
    ensures
        r == closes_at(s@, k as int),
{
    proof {
        reveal_strlit("\n---\n");
    }
    if k > n || n - k < 5 {
        return false;
    }
    let r = s.get_char(k) == '\n' && s.get_char(k + 1) == '-' && s.get_char(k + 2) == '-'
        && s.get_char(k + 3) == '-' && s.get_char(k + 4) == '\n';
    let ghost sub = s@.subrange(k as int, k + 5);
    assert(closing_marker().len() == 5 && closing_marker()[0] == '\n' && closing_marker()[1] == '-'
        && closing_marker()[2] == '-' && closing_marker()[3] == '-' && closing_marker()[4] == '\n');
    assert(sub[0] == s@[k as int] && sub[1] == s@[k + 1] && sub[2] == s@[k + 2] && sub[3] == s@[k + 3]
        && sub[4] == s@[k + 4]);
    if r {
        assert(sub =~= closing_marker());
    }
    r
}

/// Splits a stored file into its front matter and its body. The file must
/// open with a marker line and the front matter must be closed by one; the
/// first closing marker ends it (it may share its leading line break with
/// the opening marker, for an empty front matter).
pub fn split_front_matter(content: &str) -> (r: Result<(String, String), AppError>)
    ensures
        !(content@.len() >= 4 && content@.subrange(0, 4) == opening_marker()) ==> r matches Err(AppError::Unexpected(_)),
        content@.len() >= 4 && content@.subrange(0, 4) == opening_marker() ==> {
            &&& r is Ok <==> exists|k: int| 3 <= k && #[trigger] closes_at(content@, k)
            &&& r matches Ok(p) ==> exists|k: int| {
                &&& 3 <= k && closes_at(content@, k)
                &&& forall|j: int| 3 <= j < k ==> !#[trigger] closes_at(content@, j)
                &&& p.0@ == content@.subrange(4, if k < 4 { 4 } else { k })
                &&& p.1@ == content@.subrange(k + 5, content@.len() as int)
            }
        },
{
    proof {
        reveal_strlit("---\n");
    }
    let n = content.unicode_len();
    if n < 4 || !(content.get_char(0) == '-' && content.get_char(1) == '-' && content.get_char(2) == '-'
        && content.get_char(3) == '\n') {
        proof {
            assert(opening_marker().len() == 4 && opening_marker()[0] == '-' && opening_marker()[1] == '-'
                && opening_marker()[2] == '-' && opening_marker()[3] == '\n');
            if n >= 4 && content@.subrange(0, 4) == opening_marker() {
                assert(content@.subrange(0, 4)[0] == content@[0]);
                assert(content@.subrange(0, 4)[1] == content@[1]);
                assert(content@.subrange(0, 4)[2] == content@[2]);
                assert(content@.subrange(0, 4)[3] == content@[3]);
            }
        }
        return Err(AppError::Unexpected(String::from_str("front matter missing")));
    }
    assert(opening_marker().len() == 4 && opening_marker()[0] == '-' && opening_marker()[1] == '-'
        && opening_marker()[2] == '-' && opening_marker()[3] == '\n');
    assert(content@.subrange(0, 4) =~= opening_marker());
    let mut k: usize = 3;
    while n >= 5 && k <= n - 5
        invariant
            n == content@.len(),
            n >= 4 && content@.subrange(0, 4) == opening_marker(),
            3 <= k,
            forall|j: int| 3 <= j < k ==> !#[trigger] closes_at(content@, j),
        decreases n - k,
    {
        if closes_at_exec(content, k, n) {
            let start: usize = if k < 4 { 4 } else { k };
            let matter = String::from_str(content.substring_char(4, start));
            let body = String::from_str(content.substring_char(k + 5, n));
            return Ok((matter, body));
        }
        k = k + 1;
    }
    assert forall|j: int| 3 <= j implies !#[trigger] closes_at(content@, j) by {
        if j >= k {
            assert(j + 5 > content@.len());
        }
    }
    Err(AppError::Unexpected(String::from_str("front matter not closed")))
}

} // verus!
