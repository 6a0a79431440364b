//! The order of strings (`Ord for str`): lexicographic by code point, which
//! for UTF-8 text is the order of the bytes.
use vstd::prelude::*;

use crate::text::{chars_of, views};

verus! {

/// `a < b` for strings.
pub open spec fn lex_lt(a: Seq<char>, b: Seq<char>) -> bool
    decreases a.len(),
{
    if a.len() == 0 {
        b.len() > 0
    } else if b.len() == 0 {
        false
    } else if a[0] != b[0] {
        a[0] < b[0]
    } else {
        lex_lt(a.drop_first(), b.drop_first())
    }
}

/// Every element is less than every later one.
pub open spec fn sorted_strictly(s: Seq<Seq<char>>) -> bool {
    forall|i: int, j: int| 0 <= i < j < s.len() ==> lex_lt(#[trigger] s[i], #[trigger] s[j])
}

pub proof fn lemma_lex_irreflexive(a: Seq<char>)
    ensures
        !lex_lt(a, a),
    decreases a.len(),
{
    if a.len() > 0 {
        lemma_lex_irreflexive(a.drop_first());
    }
}

pub proof fn lemma_lex_asymmetric(a: Seq<char>, b: Seq<char>)
    ensures
        !(lex_lt(a, b) && lex_lt(b, a)),
    decreases a.len(),
{
    if a.len() > 0 && b.len() > 0 && a[0] == b[0] {
        lemma_lex_asymmetric(a.drop_first(), b.drop_first());
    }
}

pub proof fn lemma_lex_total(a: Seq<char>, b: Seq<char>)
    ensures
        lex_lt(a, b) || lex_lt(b, a) || a == b,
    decreases a.len(),
{
    if a.len() > 0 && b.len() > 0 {
        if a[0] == b[0] {
            lemma_lex_total(a.drop_first(), b.drop_first());
            if a.drop_first() == b.drop_first() {
                assert(a == seq![a[0]] + a.drop_first());
                assert(b == seq![b[0]] + b.drop_first());
            }
        } else {
        }
    } else if a.len() == 0 && b.len() == 0 {
        assert(a == b);
    }
}

pub proof fn lemma_lex_transitive(a: Seq<char>, b: Seq<char>, c: Seq<char>)
    requires
        lex_lt(a, b),
        lex_lt(b, c),
    ensures
        lex_lt(a, c),
    decreases a.len(),
{
    if a.len() > 0 && b.len() > 0 && c.len() > 0 {
        if a[0] == b[0] && b[0] == c[0] {
            lemma_lex_transitive(a.drop_first(), b.drop_first(), c.drop_first());
        }
    }
}

/// `a < b` on character vectors.
pub fn chars_less(a: &Vec<char>, b: &Vec<char>) -> (r: bool)
    ensures
        r == lex_lt(a@, b@),
{
    let mut i: usize = 0;
    assert(a@.skip(0) == a@);
    assert(b@.skip(0) == b@);
    while i < a.len() && i < b.len()
        invariant
            i <= a.len(),
            i <= b.len(),
            lex_lt(a@, b@) == lex_lt(a@.skip(i as int), b@.skip(i as int)),
        decreases a.len() - i,
    {
        let x = a[i];
        let y = b[i];
        assert(a@.skip(i as int)[0] == x);
        assert(b@.skip(i as int)[0] == y);
        if x != y {
            return x < y;
        }
        assert(a@.skip(i as int).drop_first() == a@.skip(i + 1));
        assert(b@.skip(i as int).drop_first() == b@.skip(i + 1));
        i = i + 1;
    }
    assert(a@.skip(i as int).len() == a.len() - i);
    assert(b@.skip(i as int).len() == b.len() - i);
    i == a.len() && i < b.len()
}

/// `a < b` on strings.
pub fn str_less(a: &str, b: &str) -> (r: bool)
    ensures
        r == lex_lt(a@, b@),
{
    let av = chars_of(a);
    let bv = chars_of(b);
    chars_less(&av, &bv)
}

/// Where `x` belongs in a strictly sorted list of strings: the first index
/// whose element is not less than `x`, and whether that element is `x`.
pub fn sorted_position(v: &Vec<String>, x: &str) -> (r: (usize, bool))
    requires
        sorted_strictly(views(v@)),
    ensures
        r.0 <= v.len(),
        forall|k: int| 0 <= k < r.0 ==> lex_lt(#[trigger] views(v@)[k], x@),
        forall|k: int| r.0 <= k < v.len() ==> !lex_lt(#[trigger] views(v@)[k], x@),
        r.1 == (r.0 < v.len() && views(v@)[r.0 as int] == x@),
        r.1 == views(v@).contains(x@),
{
    let ghost s = views(v@);
    let mut p: usize = 0;
    while p < v.len() && str_less(v[p].as_str(), x)
        invariant
            p <= v.len(),
            s == views(v@),
            sorted_strictly(s),
            forall|k: int| 0 <= k < p ==> lex_lt(#[trigger] s[k], x@),
        decreases v.len() - p,
    {
        p = p + 1;
    }
    assert forall|k: int| p <= k < v.len() implies !lex_lt(#[trigger] s[k], x@) by {
        if k > p && lex_lt(s[k], x@) {
            assert(lex_lt(s[p as int], s[k]));
            lemma_lex_transitive(s[p as int], s[k], x@);
        }
    }
    let found = p < v.len() && v[p] == x.to_owned();
    proof {
        if s.contains(x@) {
            let k = choose|k: int| 0 <= k < s.len() && s[k] == x@;
            lemma_lex_irreflexive(x@);
            if k > p {
                assert(lex_lt(s[p as int], s[k]));
                assert(!lex_lt(s[p as int], x@));
                lemma_lex_total(s[p as int], x@);
                lemma_lex_asymmetric(s[p as int], x@);
            }
        }
        if found {
            assert(s[p as int] == x@);
        }
    }
    (p, found)
}

/// Inserting `x` at its sorted position keeps a list strictly sorted.
pub proof fn lemma_insert_sorted(s: Seq<Seq<char>>, p: int, x: Seq<char>)
    requires
        sorted_strictly(s),
        0 <= p <= s.len(),
        forall|k: int| 0 <= k < p ==> lex_lt(#[trigger] s[k], x),
        forall|k: int| p <= k < s.len() ==> !lex_lt(#[trigger] s[k], x),
        !s.contains(x),
    ensures
        sorted_strictly(s.insert(p, x)),
{
    let t = s.insert(p, x);
    assert forall|i: int, j: int| 0 <= i < j < t.len() implies lex_lt(#[trigger] t[i], #[trigger] t[j]) by {
        if j < p {
            assert(t[i] == s[i] && t[j] == s[j]);
        } else if j == p {
            assert(t[i] == s[i] && t[j] == x);
        } else if i > p {
            assert(t[i] == s[i - 1] && t[j] == s[j - 1]);
        } else if i == p {
            assert(t[i] == x && t[j] == s[j - 1]);
            assert(!lex_lt(s[j - 1], x));
            lemma_lex_total(s[j - 1], x);
            assert(s[j - 1] != x);
        } else {
            assert(t[i] == s[i] && t[j] == s[j - 1]);
            assert(lex_lt(s[i], x));
            assert(!lex_lt(s[j - 1], x));
            lemma_lex_total(s[j - 1], x);
            assert(s[j - 1] != x);
            lemma_lex_transitive(s[i], x, s[j - 1]);
        }
    }
}

} // verus!
