//! Term-frequency aggregation: the most frequent values of a facet field.
use vstd::prelude::*;

verus! {

/// Sum of the document frequencies that `entries` records for term `t`.
pub open spec fn term_total(entries: Seq<(String, u64)>, t: Seq<char>) -> nat
    decreases entries.len(),
{
    if entries.len() == 0 {
        0
    } else {
        term_total(entries.drop_last(), t) + if entries.last().0@ == t {
            entries.last().1 as nat
        } else {
            0nat
        }
    }
}

/// Term `t` appears in `entries`.
pub open spec fn occurs(entries: Seq<(String, u64)>, t: Seq<char>) -> bool {
    exists|i: int| 0 <= i < entries.len() && #[trigger] entries[i].0@ == t
}

/// No two entries of `s` name the same term.
pub open spec fn distinct_terms(s: Seq<(String, u64)>) -> bool {
    forall|i: int, j: int| 0 <= i < j < s.len() ==> #[trigger] s[i].0@ != #[trigger] s[j].0@
}

proof fn lemma_prefix_total(entries: Seq<(String, u64)>, i: int, t: Seq<char>)
    requires
        0 <= i <= entries.len(),
    ensures
        term_total(entries.subrange(0, i), t) <= term_total(entries, t),
    decreases entries.len() - i,
{
    if i < entries.len() {
        lemma_prefix_total(entries, i + 1, t);
        assert(entries.subrange(0, i + 1).drop_last() =~= entries.subrange(0, i));
    } else {
        assert(entries.subrange(0, i) =~= entries);
    }
}

/// Per-term totals of `entries`, one entry per distinct term.
fn accumulate(entries: &Vec<(String, u64)>) -> (totals: Vec<(String, u64)>)
    requires
        forall|t: Seq<char>| #[trigger] term_total(entries@, t) <= u64::MAX,
    ensures
        distinct_terms(totals@),
        forall|k: int| 0 <= k < totals@.len() ==> occurs(entries@, #[trigger] totals@[k].0@)
            && totals@[k].1 == term_total(entries@, totals@[k].0@),
        forall|t: Seq<char>| occurs(entries@, t) ==> exists|k: int| 0 <= k < totals@.len() && #[trigger] totals@[k].0@ == t,
{
    let mut totals: Vec<(String, u64)> = Vec::new();
    let mut i: usize = 0;
    while i < entries.len()
        invariant
            i <= entries@.len(),
            forall|t: Seq<char>| #[trigger] term_total(entries@, t) <= u64::MAX,
            distinct_terms(totals@),
            forall|k: int| 0 <= k < totals@.len() ==> occurs(entries@.subrange(0, i as int), #[trigger] totals@[k].0@)
                && totals@[k].1 == term_total(entries@.subrange(0, i as int), totals@[k].0@),
            forall|t: Seq<char>| occurs(entries@.subrange(0, i as int), t)
                ==> exists|k: int| 0 <= k < totals@.len() && #[trigger] totals@[k].0@ == t,
        decreases entries@.len() - i,
    {
        let ghost pre = entries@.subrange(0, i as int);
        let ghost post = entries@.subrange(0, i + 1);
        let ghost e = entries@[i as int];
        assert(post.drop_last() =~= pre);
        assert(post.last() == e);
        assert forall|t: Seq<char>| occurs(pre, t) implies occurs(post, t) by {
            let w = choose|w: int| 0 <= w < pre.len() && #[trigger] pre[w].0@ == t;
            assert(post[w] == pre[w]);
        }
        assert(post[i as int] == e);
        let mut j: usize = 0;
        let mut found = false;
        while j < totals.len()
            invariant
                j <= totals@.len(),
                !found ==> forall|k: int| 0 <= k < j ==> #[trigger] totals@[k].0@ != e.0@,
                found ==> j < totals@.len() && totals@[j as int].0@ == e.0@,
                e == entries@[i as int],
                i < entries@.len(),
            ensures
                !found ==> forall|k: int| 0 <= k < totals@.len() ==> #[trigger] totals@[k].0@ != e.0@,
                found ==> j < totals@.len() && totals@[j as int].0@ == e.0@,
            decreases totals@.len() - j + if found { 0int } else { 1int },
        {
            if found {
                break;
            }
            if totals[j].0 == entries[i].0 {
                found = true;
            } else {
                j = j + 1;
            }
        }
        let ghost old_totals = totals@;
        if found {
            let c = totals[j].1;
            proof {
                lemma_prefix_total(entries@, i + 1, e.0@);
            }
            let name = totals[j].0.clone();
            totals.set(j, (name, c + entries[i].1));
            assert forall|k: int| 0 <= k < totals@.len() implies occurs(post, #[trigger] totals@[k].0@)
                && totals@[k].1 == term_total(post, totals@[k].0@) by {
                let w = choose|w: int| 0 <= w < pre.len() && #[trigger] pre[w].0@ == old_totals[k].0@;
                assert(post[w] == pre[w]);
            }
            assert forall|t: Seq<char>| occurs(post, t)
                implies exists|k: int| 0 <= k < totals@.len() && #[trigger] totals@[k].0@ == t by {
                let w = choose|w: int| 0 <= w < post.len() && #[trigger] post[w].0@ == t;
                if w < i {
                    assert(pre[w] == post[w]);
                    assert(occurs(pre, t));
                    let k = choose|k: int| 0 <= k < old_totals.len() && #[trigger] old_totals[k].0@ == t;
                    assert(totals@[k].0@ == old_totals[k].0@);
                } else {
                    assert(totals@[j as int].0@ == t);
                }
            }
        } else {
            proof {
                lemma_prefix_total(entries@, i + 1, e.0@);
                if occurs(pre, e.0@) {
                    let k = choose|k: int| 0 <= k < old_totals.len() && #[trigger] old_totals[k].0@ == e.0@;
                    assert(old_totals[k].0@ != e.0@);
                }
                assert(term_total(pre, e.0@) == 0) by {
                    lemma_absent_total(pre, e.0@);
                }
            }
            let name = entries[i].0.clone();
            totals.push((name, entries[i].1));
            assert forall|k: int| 0 <= k < totals@.len() implies occurs(post, #[trigger] totals@[k].0@)
                && totals@[k].1 == term_total(post, totals@[k].0@) by {
                if k < old_totals.len() {
                    let w = choose|w: int| 0 <= w < pre.len() && #[trigger] pre[w].0@ == old_totals[k].0@;
                    assert(post[w] == pre[w]);
                } else {
                    assert(post[i as int].0@ == totals@[k].0@);
                }
            }
            assert forall|t: Seq<char>| occurs(post, t)
                implies exists|k: int| 0 <= k < totals@.len() && #[trigger] totals@[k].0@ == t by {
                let w = choose|w: int| 0 <= w < post.len() && #[trigger] post[w].0@ == t;
                if w < i {
                    assert(pre[w] == post[w]);
                    assert(occurs(pre, t));
                    let k = choose|k: int| 0 <= k < old_totals.len() && #[trigger] old_totals[k].0@ == t;
                    assert(totals@[k] == old_totals[k]);
                } else {
                    assert(totals@[old_totals.len() as int].0@ == t);
                }
            }
        }
        i = i + 1;
    }
    assert(entries@.subrange(0, entries@.len() as int) =~= entries@);
    totals
}

/// Each entry carries the total frequency of a term of `entries`.
pub open spec fn totals_of(s: Seq<(String, u64)>, entries: Seq<(String, u64)>) -> bool {
    forall|k: int| 0 <= k < s.len() ==> occurs(entries, #[trigger] s[k].0@) && s[k].1 == term_total(entries, s[k].0@)
}

/// The `limit` most frequent terms of `entries` (term, document frequency
/// pairs gathered over all index segments), each with its total frequency,
/// most frequent first. Terms of equal frequency come in no fixed order.
pub fn top_terms(entries: &Vec<(String, u64)>, limit: usize) -> (r: Vec<(String, u64)>)
    requires
        forall|t: Seq<char>| #[trigger] term_total(entries@, t) <= u64::MAX,
    ensures
        r@.len() <= limit,
        distinct_terms(r@),
        totals_of(r@, entries@),
        forall|k: int, j: int| 0 <= k < j < r@.len() ==> #[trigger] r@[k].1 >= #[trigger] r@[j].1,
        forall|t: Seq<char>| occurs(entries@, t) && !occurs(r@, t) ==> r@.len() == limit
            && forall|k: int| 0 <= k < r@.len() ==> term_total(entries@, t) <= #[trigger] r@[k].1,
{
    let mut rest = accumulate(entries);
    let mut out: Vec<(String, u64)> = Vec::new();
    while out.len() < limit && rest.len() > 0
        invariant
            out@.len() <= limit,
            distinct_terms(out@),
            distinct_terms(rest@),
            forall|a: int, b: int| 0 <= a < out@.len() && 0 <= b < rest@.len() ==> #[trigger] out@[a].0@ != #[trigger] rest@[b].0@,
            totals_of(out@, entries@),
            totals_of(rest@, entries@),
            forall|k: int, j: int| 0 <= k < j < out@.len() ==> #[trigger] out@[k].1 >= #[trigger] out@[j].1,
            forall|a: int, b: int| 0 <= a < out@.len() && 0 <= b < rest@.len() ==> #[trigger] out@[a].1 >= #[trigger] rest@[b].1,
            forall|t: Seq<char>| occurs(entries@, t) ==> occurs(out@, t) || occurs(rest@, t),
        decreases rest@.len(),
    {
        let mut m: usize = 0;
        let mut x: usize = 1;
        while x < rest.len()
            invariant
                m < rest@.len(),
                1 <= x <= rest@.len(),
                forall|y: int| 0 <= y < x ==> #[trigger] rest@[y].1 <= rest@[m as int].1,
            decreases rest@.len() - x,
        {
            if rest[x].1 > rest[m].1 {
                m = x;
            }
            x = x + 1;
        }
        let ghost old_rest = rest@;
        let ghost old_out = out@;
        let e = rest.remove(m);
        out.push(e);
        proof {
            assert forall|y: int| 0 <= y < rest@.len() implies #[trigger] rest@[y] == if y < m {
                old_rest[y]
            } else {
                old_rest[y + 1]
            } by {}
            assert(out@[old_out.len() as int] == old_rest[m as int]);
            assert forall|k: int| 0 <= k < out@.len() - 1 implies #[trigger] out@[k] == old_out[k] by {}
            assert forall|a: int, b: int| 0 <= a < out@.len() && 0 <= b < rest@.len()
                implies #[trigger] out@[a].0@ != #[trigger] rest@[b].0@ by {
                if a < old_out.len() {
                    assert(out@[a] == old_out[a]);
                } else {
                    if b < m {
                        assert(rest@[b] == old_rest[b]);
                    } else {
                        assert(rest@[b] == old_rest[b + 1]);
                    }
                }
            }
            assert forall|a: int, b: int| 0 <= a < out@.len() && 0 <= b < rest@.len()
                implies #[trigger] out@[a].1 >= #[trigger] rest@[b].1 by {
                if b < m {
                    assert(rest@[b] == old_rest[b]);
                } else {
                    assert(rest@[b] == old_rest[b + 1]);
                }
                if a < old_out.len() {
                    assert(out@[a] == old_out[a]);
                }
            }
            assert forall|i: int, j: int| 0 <= i < j < rest@.len() implies #[trigger] rest@[i].0@ != #[trigger] rest@[j].0@ by {
                let i2 = if i < m { i } else { i + 1 };
                let j2 = if j < m { j } else { j + 1 };
                assert(old_rest[i2].0@ != old_rest[j2].0@);
            }
            assert forall|i: int, j: int| 0 <= i < j < out@.len() implies #[trigger] out@[i].0@ != #[trigger] out@[j].0@ by {
                if j < old_out.len() {
                    assert(old_out[i].0@ != old_out[j].0@);
                } else {
                    assert(old_out[i].0@ != old_rest[m as int].0@);
                }
            }
            assert forall|k: int, j: int| 0 <= k < j < out@.len() implies #[trigger] out@[k].1 >= #[trigger] out@[j].1 by {
                if j < old_out.len() {
                    assert(old_out[k].1 >= old_out[j].1);
                } else {
                    assert(old_out[k].1 >= old_rest[m as int].1);
                }
            }
            assert forall|k: int| 0 <= k < rest@.len() implies occurs(entries@, #[trigger] rest@[k].0@)
                && rest@[k].1 == term_total(entries@, rest@[k].0@) by {
                let k2 = if k < m { k } else { k + 1 };
                assert(rest@[k] == old_rest[k2]);
            }
            assert forall|k: int| 0 <= k < out@.len() implies occurs(entries@, #[trigger] out@[k].0@)
                && out@[k].1 == term_total(entries@, out@[k].0@) by {
                if k < old_out.len() {
                    assert(out@[k] == old_out[k]);
                }
            }
            assert forall|t: Seq<char>| occurs(entries@, t) implies occurs(out@, t) || occurs(rest@, t) by {
                if occurs(old_out, t) {
                    let k = choose|k: int| 0 <= k < old_out.len() && #[trigger] old_out[k].0@ == t;
                    assert(out@[k] == old_out[k]);
                } else {
                    let k = choose|k: int| 0 <= k < old_rest.len() && #[trigger] old_rest[k].0@ == t;
                    if k < m {
                        assert(rest@[k] == old_rest[k]);
                    } else if k == m {
                        assert(out@[old_out.len() as int].0@ == t);
                    } else {
                        assert(rest@[k - 1] == old_rest[k]);
                    }
                }
            }
        }
    }
    proof {
        assert forall|t: Seq<char>| occurs(entries@, t) && !occurs(out@, t) implies out@.len() == limit
            && forall|k: int| 0 <= k < out@.len() ==> term_total(entries@, t) <= #[trigger] out@[k].1 by {
            let b = choose|b: int| 0 <= b < rest@.len() && #[trigger] rest@[b].0@ == t;
            assert forall|k: int| 0 <= k < out@.len() implies term_total(entries@, t) <= #[trigger] out@[k].1 by {
                assert(out@[k].1 >= rest@[b].1);
            }
        }
    }
    out
}

/// Sum of all document frequencies in `entries`.
pub open spec fn grand_total(entries: Seq<(String, u64)>) -> nat
    decreases entries.len(),
{
    if entries.len() == 0 {
        0
    } else {
        grand_total(entries.drop_last()) + entries.last().1 as nat
    }
}

proof fn lemma_term_below_grand(entries: Seq<(String, u64)>, t: Seq<char>)
    ensures
        term_total(entries, t) <= grand_total(entries),
    decreases entries.len(),
{
    if entries.len() > 0 {
        lemma_term_below_grand(entries.drop_last(), t);
    }
}

/// `top_terms`, when the frequencies of `entries` sum to at most
/// `u64::MAX`; `None` otherwise.
pub fn top_terms_checked(entries: &Vec<(String, u64)>, limit: usize) -> (r: Option<Vec<(String, u64)>>)
    ensures
        r is None <==> grand_total(entries@) > u64::MAX,
        r matches Some(v) ==> {
            &&& v@.len() <= limit
            &&& distinct_terms(v@)
            &&& totals_of(v@, entries@)
            &&& forall|k: int, j: int| 0 <= k < j < v@.len() ==> #[trigger] v@[k].1 >= #[trigger] v@[j].1
            &&& forall|t: Seq<char>| occurs(entries@, t) && !occurs(v@, t) ==> v@.len() == limit
                && forall|k: int| 0 <= k < v@.len() ==> term_total(entries@, t) <= #[trigger] v@[k].1
        },
{
    let mut sum: u64 = 0;
    let mut i: usize = 0;
    while i < entries.len()
        invariant
            i <= entries@.len(),
            sum == grand_total(entries@.subrange(0, i as int)),
        decreases entries@.len() - i,
    {
        assert(entries@.subrange(0, i + 1).drop_last() =~= entries@.subrange(0, i as int));
        if sum > u64::MAX - entries[i].1 {
            proof {
                lemma_grand_prefix(entries@, i + 1);
            }
            return None;
        }
        sum = sum + entries[i].1;
        i = i + 1;
    }
    assert(entries@.subrange(0, entries@.len() as int) =~= entries@);
    proof {
        assert forall|t: Seq<char>| #[trigger] term_total(entries@, t) <= u64::MAX by {
            lemma_term_below_grand(entries@, t);
        }
    }
    Some(top_terms(entries, limit))
}

proof fn lemma_grand_prefix(entries: Seq<(String, u64)>, i: int)
    requires
        0 <= i <= entries.len(),
    ensures
        grand_total(entries.subrange(0, i)) <= grand_total(entries),
    decreases entries.len() - i,
{
    if i < entries.len() {
        lemma_grand_prefix(entries, i + 1);
        assert(entries.subrange(0, i + 1).drop_last() =~= entries.subrange(0, i));
    } else {
        assert(entries.subrange(0, i) =~= entries);
    }
}

proof fn lemma_absent_total(entries: Seq<(String, u64)>, t: Seq<char>)
    requires
        !occurs(entries, t),
    ensures
        term_total(entries, t) == 0,
    decreases entries.len(),
{
    if entries.len() > 0 {
        let d = entries.drop_last();
        assert forall|w: int| 0 <= w < d.len() implies #[trigger] d[w].0@ != t by {
            assert(entries[w] == d[w]);
        }
        lemma_absent_total(d, t);
        assert(entries[entries.len() - 1] == entries.last());
    }
}

} // verus!
