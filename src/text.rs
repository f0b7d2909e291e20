//! Whitespace handling shared by query normalisation, markup stripping and
//! front-matter cleanup.
use vstd::prelude::*;
use vstd::std_specs::iter::IteratorSpec;

verus! {

broadcast use vstd::string::axiom_spec_iter, vstd::string::next_postcondition;

/// The characters that `char::is_ascii_whitespace` accepts.
pub open spec fn is_ascii_ws(c: char) -> bool {
    c == ' ' || c == '\t' || c == '\n' || c == '\x0C' || c == '\r'
}

/// Collapsing whitespace, scanning left to right: `started` records that a
/// word has already been emitted, `gap` that whitespace followed it.
pub open spec fn collapse_from(s: Seq<char>, started: bool, gap: bool) -> Seq<char>
    decreases s.len(),
{
    if s.len() == 0 {
        Seq::empty()
    } else if is_ascii_ws(s[0]) {
        collapse_from(s.drop_first(), started, true)
    } else {
        let sep: Seq<char> = if started && gap { seq![' '] } else { Seq::empty() };
        sep + seq![s[0]] + collapse_from(s.drop_first(), true, false)
    }
}

/// The words of `s` (maximal runs without ASCII whitespace) joined by one space.
pub open spec fn collapse_ws(s: Seq<char>) -> Seq<char> {
    collapse_from(s, false, false)
}

fn is_ascii_ws_exec(c: char) -> (r: bool)
    ensures
        r == is_ascii_ws(c),
{
    c == ' ' || c == '\t' || c == '\n' || c == '\x0C' || c == '\r'
}

/// The characters with the Unicode `White_Space` property.
pub open spec fn is_unicode_ws(c: char) -> bool {
    ('\u{9}' <= c <= '\u{d}') || c == ' ' || c == '\u{85}' || c == '\u{a0}' || c == '\u{1680}'
        || ('\u{2000}' <= c <= '\u{200a}') || c == '\u{2028}' || c == '\u{2029}' || c == '\u{202f}'
        || c == '\u{205f}' || c == '\u{3000}'
}

/// `s` without its leading whitespace.
pub open spec fn trim_start_of(s: Seq<char>) -> Seq<char>
    decreases s.len(),
{
    if s.len() > 0 && is_unicode_ws(s[0]) {
        trim_start_of(s.drop_first())
    } else {
        s
    }
}

/// `s` without its trailing whitespace.
pub open spec fn trim_end_of(s: Seq<char>) -> Seq<char>
    decreases s.len(),
{
    if s.len() > 0 && is_unicode_ws(s.last()) {
        trim_end_of(s.drop_last())
    } else {
        s
    }
}

/// `s` without leading and trailing whitespace.
pub open spec fn trim_of(s: Seq<char>) -> Seq<char> {
    trim_end_of(trim_start_of(s))
}

/// Relies on `str::trim`: removes leading and trailing characters with the
/// Unicode `White_Space` property.
#[verifier::external_body]
pub(crate) fn trim_str(s: &str) -> (r: &str)
    ensures
        r@ == trim_of(s@),
{
    s.trim()
}

/// `s` with every ideographic space (U+3000) turned into an ASCII space.
pub open spec fn fold_ideographic_space(s: Seq<char>) -> Seq<char> {
    s.map_values(|c: char| if c == '\u{3000}' { ' ' } else { c })
}

/// `s` with all ASCII whitespace removed.
pub open spec fn squeeze_ws(s: Seq<char>) -> Seq<char>
    decreases s.len(),
{
    if s.len() == 0 {
        Seq::empty()
    } else if is_ascii_ws(s[0]) {
        squeeze_ws(s.drop_first())
    } else {
        seq![s[0]] + squeeze_ws(s.drop_first())
    }
}

/// Relies on `String::push`: appends one character.
#[verifier::external_body]
pub(crate) fn push_char(s: &mut String, c: char)
    ensures
        final(s)@ == old(s)@.push(c),
{
    s.push(c)
}

/// Splits `s` on ASCII whitespace and joins the pieces with single spaces.
pub fn collapse_whitespace(s: &str) -> (r: String)
    ensures
        r@ == collapse_ws(s@),
{
    let mut out = String::new();
    let mut started = false;
    let mut gap = false;
    let mut it = s.chars();
    let ghost mut i: int = 0;
    loop
        invariant
            0 <= i <= s@.len(),
            it.remaining() == s@.subrange(i, s@.len() as int),
            collapse_ws(s@) == out@ + collapse_from(s@.subrange(i, s@.len() as int), started, gap),
        ensures
            collapse_ws(s@) == out@,
        decreases s@.len() - i,
    {
        let ghost rest = s@.subrange(i, s@.len() as int);
        let ghost before = out@;
        match it.next() {
            Some(c) => {
                assert(rest[0] == c);
                assert(rest.drop_first() =~= s@.subrange(i + 1, s@.len() as int));
                if is_ascii_ws_exec(c) {
                    gap = true;
                } else {
                    let ghost sep: Seq<char> = if started && gap { seq![' '] } else { Seq::empty() };
                    if started && gap {
                        push_char(&mut out, ' ');
                    }
                    assert(out@ =~= before + sep);
                    push_char(&mut out, c);
                    assert(before + (sep + seq![c] + collapse_from(rest.drop_first(), true, false))
                        =~= out@ + collapse_from(rest.drop_first(), true, false));
                    started = true;
                    gap = false;
                }
                proof { i = i + 1; }
            },
            None => {
                assert(rest.len() == 0);
                assert(out@ + collapse_from(rest, started, gap) =~= out@);
                break;
            },
        }
    }
    out
}

/// Replaces every ideographic space (U+3000) with an ASCII space.
pub fn fold_ideographic(s: &str) -> (r: String)
    ensures
        r@ == fold_ideographic_space(s@),
{
    let mut out = String::new();
    let mut it = s.chars();
    let ghost mut i: int = 0;
    loop
        invariant
            0 <= i <= s@.len(),
            it.remaining() == s@.subrange(i, s@.len() as int),
            out@ == fold_ideographic_space(s@.subrange(0, i)),
        ensures
            out@ == fold_ideographic_space(s@),
        decreases s@.len() - i,
    {
        let ghost rest = s@.subrange(i, s@.len() as int);
        match it.next() {
            Some(c) => {
                assert(rest[0] == c);
                let d = if c == '\u{3000}' { ' ' } else { c };
                push_char(&mut out, d);
                proof {
                    assert(fold_ideographic_space(s@.subrange(0, i + 1))
                        =~= fold_ideographic_space(s@.subrange(0, i)).push(d));
                    i = i + 1;
                }
            },
            None => {
                assert(rest.len() == 0);
                assert(s@.subrange(0, i) =~= s@);
                break;
            },
        }
    }
    out
}

/// Normalises free text for the query parser: ideographic spaces become
/// ASCII spaces, then runs of whitespace collapse to one space.
pub fn normalize_query_text(s: &str) -> (r: String)
    ensures
        r@ == collapse_ws(fold_ideographic_space(s@)),
{
    let folded = fold_ideographic(s);
    collapse_whitespace(folded.as_str())
}

/// Removes all ASCII whitespace.
pub fn remove_whitespace(s: &str) -> (r: String)
    ensures
        r@ == squeeze_ws(s@),
{
    let mut out = String::new();
    let mut it = s.chars();
    let ghost mut i: int = 0;
    loop
        invariant
            0 <= i <= s@.len(),
            it.remaining() == s@.subrange(i, s@.len() as int),
            squeeze_ws(s@) == out@ + squeeze_ws(s@.subrange(i, s@.len() as int)),
        ensures
            squeeze_ws(s@) == out@,
        decreases s@.len() - i,
    {
        let ghost rest = s@.subrange(i, s@.len() as int);
        let ghost before = out@;
        match it.next() {
            Some(c) => {
                assert(rest[0] == c);
                assert(rest.drop_first() =~= s@.subrange(i + 1, s@.len() as int));
                if !is_ascii_ws_exec(c) {
                    push_char(&mut out, c);
                    assert(before + (seq![c] + squeeze_ws(rest.drop_first()))
                        =~= out@ + squeeze_ws(rest.drop_first()));
                }
                proof { i = i + 1; }
            },
            None => {
                assert(rest.len() == 0);
                assert(out@ + squeeze_ws(rest) =~= out@);
                break;
            },
        }
    }
    out
}

/// The first `n` characters of `s` (all of it when shorter).
pub fn take_chars(s: &str, n: usize) -> (r: String)
    ensures
        r@ == s@.take(if n < s@.len() { n as int } else { s@.len() as int }),
{
    let mut out = String::new();
    let mut it = s.chars();
    let mut k: usize = 0;
    loop
        invariant
            k <= n,
            k <= s@.len(),
            it.remaining() == s@.subrange(k as int, s@.len() as int),
            out@ == s@.take(k as int),
        ensures
            out@ == s@.take(if n < s@.len() { n as int } else { s@.len() as int }),
        decreases s@.len() - k,
    {
        if k == n {
            break;
        }
        let ghost rest = s@.subrange(k as int, s@.len() as int);
        match it.next() {
            Some(c) => {
                assert(rest[0] == c);
                assert(rest.drop_first() =~= s@.subrange(k + 1, s@.len() as int));
                push_char(&mut out, c);
                assert(out@ =~= s@.take(k + 1));
                k = k + 1;
            },
            None => {
                assert(rest.len() == 0);
                break;
            },
        }
    }
    out
}

} // verus!
