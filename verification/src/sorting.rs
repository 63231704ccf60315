//! Lexicographic order of texts, and sorting name-value pairs by name.

use vstd::prelude::*;
use vstd::seq_lib::{to_multiset_build, to_multiset_insert};
use crate::signing::pair_views;

verus! {

/// Whether `a` comes before `b` or equals it, comparing characters from the front (for
/// ASCII text the order of `str`'s `cmp`).
pub open spec fn text_le(a: Seq<char>, b: Seq<char>) -> bool
    decreases a.len(),
{
    if a.len() == 0 {
        true
    } else if b.len() == 0 {
        false
    } else if a[0] != b[0] {
        a[0] < b[0]
    } else {
        text_le(a.drop_first(), b.drop_first())
    }
}

/// Any two texts are ordered one way or the other.
pub proof fn lemma_text_le_total(a: Seq<char>, b: Seq<char>)
    ensures
        text_le(a, b) || text_le(b, a),
    decreases a.len(),
{
    if a.len() > 0 && b.len() > 0 {
        if a[0] == b[0] {
            lemma_text_le_total(a.drop_first(), b.drop_first());
        }
    }
}

/// The order is transitive.
pub proof fn lemma_text_le_transitive(a: Seq<char>, b: Seq<char>, c: Seq<char>)
    requires
        text_le(a, b),
        text_le(b, c),
    ensures
        text_le(a, c),
    decreases a.len(),
{
    if a.len() > 0 && b.len() > 0 && c.len() > 0 && a[0] == b[0] && b[0] == c[0] {
        lemma_text_le_transitive(a.drop_first(), b.drop_first(), c.drop_first());
    }
}

/// Texts ordered both ways are equal.
pub proof fn lemma_text_le_antisymmetric(a: Seq<char>, b: Seq<char>)
    requires
        text_le(a, b),
        text_le(b, a),
    ensures
        a == b,
    decreases a.len(),
{
    if a.len() > 0 && b.len() > 0 {
        lemma_text_le_antisymmetric(a.drop_first(), b.drop_first());
        assert(a =~= seq![a[0]] + a.drop_first());
        assert(b =~= seq![b[0]] + b.drop_first());
    }
}

/// [`text_le`] of two texts.
pub fn text_le_exec(a: &str, b: &str) -> (r: bool)
    ensures
        r == text_le(a@, b@),
{
    let n = a.unicode_len();
    let m = b.unicode_len();
    let mut i: usize = 0;
    assert(a@.subrange(0, n as int) =~= a@);
    assert(b@.subrange(0, m as int) =~= b@);
    while i < n && i < m
        invariant
            n == a@.len(),
            m == b@.len(),
            i <= n,
            i <= m,
            a@.subrange(0, i as int) == b@.subrange(0, i as int),
            text_le(a@, b@) == text_le(a@.subrange(i as int, n as int), b@.subrange(i as int, m as int)),
        decreases n - i,
    {
        let x = a.get_char(i);
        let y = b.get_char(i);
        let ghost sa = a@.subrange(i as int, n as int);
        let ghost sb = b@.subrange(i as int, m as int);
        assert(sa[0] == x && sb[0] == y);
        if x != y {
            return x < y;
        }
        assert(sa.drop_first() =~= a@.subrange(i + 1, n as int));
        assert(sb.drop_first() =~= b@.subrange(i + 1, m as int));
        assert(a@.subrange(0, i + 1) =~= a@.subrange(0, i as int).push(x));
        assert(b@.subrange(0, i + 1) =~= b@.subrange(0, i as int).push(y));
        i = i + 1;
    }
    i == n
}

/// The pairs are in order of their names.
pub open spec fn sorted_by_name(r: Seq<(Seq<char>, Seq<char>)>) -> bool {
    forall|i: int, j: int| 0 <= i < j < r.len() ==> text_le(#[trigger] r[i].0, #[trigger] r[j].0)
}

/// `r` holds the pairs of `p`, each as often, in order of their names (what a stable
/// sort by name gives, up to the order of pairs with the same name).
pub open spec fn sorted_by_name_of(p: Seq<(Seq<char>, Seq<char>)>, r: Seq<(Seq<char>, Seq<char>)>) -> bool {
    r.to_multiset() == p.to_multiset() && sorted_by_name(r)
}

/// The pairs sorted by name, as `sort_by(|a, b| a.0.cmp(&b.0))` sorts ASCII names.
pub fn sort_pairs_by_name(pairs: Vec<(String, String)>) -> (r: Vec<(String, String)>)
    ensures
        sorted_by_name_of(pair_views(pairs@), pair_views(r@)),
{
    broadcast use to_multiset_build, to_multiset_insert;

    let mut r: Vec<(String, String)> = Vec::new();
    let mut k: usize = 0;
    let n = pairs.len();
    assert(pair_views(r@) =~= Seq::empty());
    assert(pair_views(pairs@).take(0) =~= Seq::empty());
    while k < n
        invariant
            n == pairs@.len(),
            k <= n,
            pair_views(r@).to_multiset() == pair_views(pairs@).take(k as int).to_multiset(),
            sorted_by_name(pair_views(r@)),
        decreases n - k,
    {
        let x = (crate::text::string_from(pairs[k].0.as_str()), crate::text::string_from(pairs[k].1.as_str()));
        let ghost xt = (x.0@, x.1@);
        let ghost before = pair_views(r@);
        let mut pos: usize = 0;
        while pos < r.len() && text_le_exec(r[pos].0.as_str(), x.0.as_str())
            invariant
                pos <= r@.len(),
                before == pair_views(r@),
                xt == (x.0@, x.1@),
                forall|j: int| 0 <= j < pos ==> text_le(#[trigger] before[j].0, xt.0),
            decreases r@.len() - pos,
        {
            pos = pos + 1;
        }
        proof {
            if pos < r@.len() {
                lemma_text_le_total(before[pos as int].0, xt.0);
            }
            assert forall|j: int| pos <= j < before.len() implies text_le(xt.0, #[trigger] before[j].0) by {
                if j > pos {
                    lemma_text_le_transitive(xt.0, before[pos as int].0, before[j].0);
                }
            }
        }
        r.insert(pos, x);
        proof {
            let after = pair_views(r@);
            assert(after =~= before.insert(pos as int, xt));
            assert(pair_views(pairs@).take(k + 1) =~= pair_views(pairs@).take(k as int).push(xt));
            to_multiset_insert(before, pos as int, xt);
            to_multiset_build(pair_views(pairs@).take(k as int), xt);
            assert forall|i: int, j: int| 0 <= i < j < after.len() implies text_le(
                #[trigger] after[i].0,
                #[trigger] after[j].0,
            ) by {
                if i < pos && j > pos {
                    lemma_text_le_transitive(after[i].0, xt.0, after[j].0);
                }
            }
        }
        k = k + 1;
    }
    assert(pair_views(pairs@).take(n as int) =~= pair_views(pairs@));
    r
}

} // verus!
