//! Plain text from rendered HTML, for indexing. The document arrives as a
//! pre-order walk of its element tree: an element opens, its children
//! follow, then it closes.
use vstd::prelude::*;
use crate::text::{collapse_whitespace, collapse_ws, push_char};

verus! {

/// One step of a pre-order walk over an HTML element tree.
#[derive(Clone, Debug, PartialEq, Eq)]
pub enum MarkupToken {
    /// An element starts; `alt` is its `alt` attribute, if any.
    Open { name: String, alt: Option<String> },
    /// A text node.
    Text(String),
    /// The most recently opened element ends.
    Close,
}

/// Elements whose content never reaches the index.
pub open spec fn is_hidden_element(name: Seq<char>) -> bool {
    name == "script"@ || name == "style"@ || name == "meta"@
}

/// The raw text gathered from `toks`, given the number `skip` of open
/// elements whose content is being skipped. A text node contributes itself
/// and a space; an image its alt text and a space, and nothing inside it;
/// script, style and meta elements nothing at all.
pub open spec fn gather(toks: Seq<MarkupToken>, skip: nat) -> Seq<char>
    decreases toks.len(),
{
    if toks.len() == 0 {
        Seq::empty()
    } else {
        let rest = toks.drop_first();
        match toks[0] {
            MarkupToken::Open { name, alt } => if skip > 0 {
                gather(rest, skip + 1)
            } else if is_hidden_element(name@) {
                gather(rest, 1)
            } else if name@ == "img"@ {
                match alt {
                    Some(a) => a@ + seq![' '] + gather(rest, 1),
                    None => gather(rest, 1),
                }
            } else {
                gather(rest, 0)
            },
            MarkupToken::Text(t) => if skip > 0 {
                gather(rest, skip)
            } else {
                t@ + seq![' '] + gather(rest, 0)
            },
            MarkupToken::Close => if skip > 0 {
                gather(rest, (skip - 1) as nat)
            } else {
                gather(rest, 0)
            },
        }
    }
}

/// The indexed plain text of a document: the gathered text with its
/// whitespace collapsed to single spaces.
pub open spec fn plain_text(toks: Seq<MarkupToken>) -> Seq<char> {
    collapse_ws(gather(toks, 0))
}

fn is_named(name: &String, lit: &str) -> (r: bool)
    ensures
        r == (name@ == lit@),
{
    let l = String::from_str(lit);
    *name == l
}

fn append_str(out: &mut String, s: &str)
    ensures
        final(out)@ == old(out)@ + s@,
{
    out.append(s);
}

/// Extracts the plain text to index from a walk of the document's body.
pub fn strip_tags(toks: &Vec<MarkupToken>) -> (r: String)
    requires
        toks@.len() < usize::MAX,
    ensures
        r@ == plain_text(toks@),
{
    let mut raw = String::new();
    let mut skip: usize = 0;
    let mut i: usize = 0;
    assert(toks@.subrange(0, toks@.len() as int) =~= toks@);
    while i < toks.len()
        invariant
            i <= toks@.len(),
            skip <= i,
            toks@.len() < usize::MAX,
            gather(toks@, 0) == raw@ + gather(toks@.subrange(i as int, toks@.len() as int), skip as nat),
        decreases toks@.len() - i,
    {
        let ghost rest = toks@.subrange(i as int, toks@.len() as int);
        let ghost before = raw@;
        assert(rest.drop_first() =~= toks@.subrange(i + 1, toks@.len() as int));
        assert(rest[0] == toks@[i as int]);
        match &toks[i] {
            MarkupToken::Open { name, alt } => {
                if skip > 0 {
                    skip = skip + 1;
                } else if is_named(name, "script") || is_named(name, "style") || is_named(name, "meta") {
                    skip = 1;
                } else if is_named(name, "img") {
                    if let Some(a) = alt {
                        append_str(&mut raw, a.as_str());
                        push_char(&mut raw, ' ');
                        assert(before + (a@ + seq![' '] + gather(rest.drop_first(), 1))
                            =~= raw@ + gather(rest.drop_first(), 1));
                    }
                    skip = 1;
                } else {
                }
            },
            MarkupToken::Text(t) => {
                if skip == 0 {
                    append_str(&mut raw, t.as_str());
                    push_char(&mut raw, ' ');
                    assert(before + (t@ + seq![' '] + gather(rest.drop_first(), 0))
                        =~= raw@ + gather(rest.drop_first(), 0));
                }
            },
            MarkupToken::Close => {
                if skip > 0 {
                    skip = skip - 1;
                }
            },
        }
        i = i + 1;
    }
    assert(raw@ + gather(toks@.subrange(i as int, toks@.len() as int), skip as nat) =~= raw@);
    collapse_whitespace(raw.as_str())
}

} // verus!
