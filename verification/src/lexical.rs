//! Lexicographic comparison of bounded string prefixes.

use std::cmp::Ordering;
use vstd::prelude::*;
use crate::text::chars_of;

verus! {

/// The first `n` characters of `s`, or all of `s` when it has fewer.
pub open spec fn leading(s: Seq<char>, n: usize) -> Seq<char> {
    if s.len() <= n {
        s
    } else {
        s.take(n as int)
    }
}

/// The dictionary order of two character sequences: the first position at
/// which they differ decides, by Unicode scalar value, and a proper prefix
/// comes first.
pub open spec fn lex_order(a: Seq<char>, b: Seq<char>) -> Ordering
    decreases a.len(),
{
    if a.len() == 0 {
        if b.len() == 0 {
            Ordering::Equal
        } else {
            Ordering::Less
        }
    } else if b.len() == 0 {
        Ordering::Greater
    } else if a.first() < b.first() {
        Ordering::Less
    } else if b.first() < a.first() {
        Ordering::Greater
    } else {
        lex_order(a.drop_first(), b.drop_first())
    }
}

/// Two sequences compare as equal exactly when they are the same sequence.
pub proof fn lemma_lex_order_equal(a: Seq<char>, b: Seq<char>)
    ensures
        lex_order(a, b) == Ordering::Equal <==> a == b,
    decreases a.len(),
{
    if a.len() > 0 && b.len() > 0 {
        lemma_lex_order_equal(a.drop_first(), b.drop_first());
        if a.first() == b.first() && a.drop_first() == b.drop_first() {
            assert(a =~= seq![a.first()] + a.drop_first());
            assert(b =~= seq![b.first()] + b.drop_first());
        }
    } else if a.len() == 0 && b.len() == 0 {
        assert(a =~= b);
    }
}

/// A common prefix of length `k` does not take part in the comparison.
proof fn lemma_lex_order_skip(a: Seq<char>, b: Seq<char>, k: int)
    requires
        0 <= k <= a.len(),
        k <= b.len(),
        forall|j: int| 0 <= j < k ==> a[j] == b[j],
    ensures
        lex_order(a, b) == lex_order(a.skip(k), b.skip(k)),
    decreases k,
{
    if k == 0 {
        assert(a.skip(0) =~= a);
        assert(b.skip(0) =~= b);
    } else {
        assert(a[0] == b[0]);
        let x = a.drop_first();
        let y = b.drop_first();
        assert forall|j: int| 0 <= j < k - 1 implies x[j] == y[j] by {
            assert(x[j] == a[j + 1]);
            assert(y[j] == b[j + 1]);
        }
        lemma_lex_order_skip(x, y, k - 1);
        assert(x.skip(k - 1) =~= a.skip(k));
        assert(y.skip(k - 1) =~= b.skip(k));
    }
}

/// Compares the first `n` characters of `a` with the first `n` characters of
/// `b` in dictionary order. A string shorter than `n` takes part with all of
/// its characters.
pub fn strncmp(a: &str, b: &str, n: usize) -> (r: Ordering)
    ensures
        r == lex_order(leading(a@, n), leading(b@, n)),
{
    let x = chars_of(a);
    let y = chars_of(b);
    let xn = if x.len() <= n { x.len() } else { n };
    let yn = if y.len() <= n { y.len() } else { n };
    let ghost p = leading(a@, n);
    let ghost q = leading(b@, n);
    let ghost mut k: int = 0;
    let mut i: usize = 0;
    while i < xn && i < yn
        invariant
            x@ == a@,
            y@ == b@,
            xn == p.len(),
            yn == q.len(),
            p == leading(a@, n),
            q == leading(b@, n),
            k == i,
            i <= xn <= x@.len(),
            i <= yn <= y@.len(),
            forall|j: int| 0 <= j < i ==> p[j] == q[j],
        decreases xn - i,
    {
        proof {
            lemma_lex_order_skip(p, q, k);
            assert(p.skip(k).first() == x@[k]);
            assert(q.skip(k).first() == y@[k]);
        }
        if x[i] < y[i] {
            return Ordering::Less;
        }
        if y[i] < x[i] {
            return Ordering::Greater;
        }
        i += 1;
        proof {
            k = k + 1;
        }
    }
    proof {
        lemma_lex_order_skip(p, q, k);
    }
    if i < xn {
        Ordering::Greater
    } else if i < yn {
        Ordering::Less
    } else {
        Ordering::Equal
    }
}

} // verus!
