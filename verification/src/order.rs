//! Lexicographic order on text (the order of `str`'s `Ord`) and sorting.
use vstd::prelude::*;

use crate::text::chars_of;

verus! {

broadcast use vstd::seq_lib::group_to_multiset_ensures;

/// `a < b` in the order of Rust's `str` comparison (code point order).
pub open spec fn seq_lt(a: Seq<char>, b: Seq<char>) -> bool
    decreases a.len(),
{
    if a.len() == 0 {
        b.len() > 0
    } else if b.len() == 0 {
        false
    } else if a[0] != b[0] {
        a[0] < b[0]
    } else {
        seq_lt(a.drop_first(), b.drop_first())
    }
}

pub open spec fn seq_le(a: Seq<char>, b: Seq<char>) -> bool {
    !seq_lt(b, a)
}

pub proof fn lemma_lt_irrefl(a: Seq<char>)
    ensures
        !seq_lt(a, a),
    decreases a.len(),
{
    if a.len() > 0 {
        lemma_lt_irrefl(a.drop_first());
    }
}

pub proof fn lemma_lt_trans(a: Seq<char>, b: Seq<char>, c: Seq<char>)
    requires
        seq_lt(a, b),
        seq_lt(b, c),
    ensures
        seq_lt(a, c),
    decreases a.len(),
{
    if a.len() > 0 && b.len() > 0 && c.len() > 0 {
        if a[0] == b[0] && b[0] == c[0] {
            lemma_lt_trans(a.drop_first(), b.drop_first(), c.drop_first());
        }
    }
}

pub proof fn lemma_lt_total(a: Seq<char>, b: Seq<char>)
    ensures
        a == b || seq_lt(a, b) || seq_lt(b, a),
    decreases a.len(),
{
    if a.len() > 0 && b.len() > 0 {
        if a[0] == b[0] {
            lemma_lt_total(a.drop_first(), b.drop_first());
            if a.drop_first() == b.drop_first() {
                assert(a =~= seq![a[0]] + a.drop_first());
                assert(b =~= seq![b[0]] + b.drop_first());
            }
        } else {
        }
    } else if a.len() == 0 && b.len() == 0 {
        assert(a =~= b);
    }
}

pub proof fn lemma_le_trans(a: Seq<char>, b: Seq<char>, c: Seq<char>)
    requires
        seq_le(a, b),
        seq_le(b, c),
    ensures
        seq_le(a, c),
{
    lemma_lt_total(a, b);
    lemma_lt_total(b, c);
    if seq_lt(c, a) {
        if a == b {
            lemma_lt_total(c, a);
        } else if b == c {
        } else {
            lemma_lt_trans(c, a, b);
        }
    }
}

/// `a < b` on character vectors.
pub fn lt_exec(a: &Vec<char>, b: &Vec<char>) -> (r: bool)
    ensures
        r == seq_lt(a@, b@),
{
    let mut i: usize = 0;
    assert(a@.skip(0) =~= a@ && b@.skip(0) =~= b@);
    while i < a.len() && i < b.len() && a[i] == b[i]
        invariant
            i <= a.len(),
            i <= b.len(),
            seq_lt(a@, b@) == seq_lt(a@.skip(i as int), b@.skip(i as int)),
        decreases a.len() - i,
    {
        proof {
            let x = a@.skip(i as int);
            let y = b@.skip(i as int);
            assert(x.drop_first() =~= a@.skip(i + 1));
            assert(y.drop_first() =~= b@.skip(i + 1));
        }
        i = i + 1;
    }
    let ghost x = a@.skip(i as int);
    let ghost y = b@.skip(i as int);
    if i == a.len() {
        i < b.len()
    } else if i == b.len() {
        false
    } else {
        assert(x[0] == a@[i as int] && y[0] == b@[i as int]);
        a[i] < b[i]
    }
}

/// `a < b` on string slices.
pub fn str_lt(a: &str, b: &str) -> (r: bool)
    ensures
        r == seq_lt(a@, b@),
{
    lt_exec(&chars_of(a), &chars_of(b))
}

pub open spec fn string_views_sorted(s: Seq<String>) -> bool {
    forall|i: int, j: int| 0 <= i < j < s.len() ==> seq_le(#[trigger] s[i]@, #[trigger] s[j]@)
}

/// `v.sort()` for strings: the result is sorted and holds the same strings.
pub fn sort_strings(v: Vec<String>) -> (r: Vec<String>)
    ensures
        string_views_sorted(r@),
        r@.to_multiset() == v@.to_multiset(),
{
    let mut r: Vec<String> = Vec::new();
    let mut i: usize = 0;
    while i < v.len()
        invariant
            i <= v.len(),
            string_views_sorted(r@),
            r@.to_multiset() == v@.take(i as int).to_multiset(),
        decreases v.len() - i,
    {
        let x = v[i].clone();
        let xc = chars_of(x.as_str());
        // insert after every element not greater than x
        let mut k: usize = r.len();
        while k > 0 && lt_exec(&xc, &chars_of(r[k - 1].as_str()))
            invariant
                k <= r.len(),
                xc@ == x@,
                string_views_sorted(r@),
                forall|m: int| k <= m < r.len() ==> seq_lt(x@, #[trigger] r@[m]@),
            decreases k,
        {
            k = k - 1;
        }
        proof {
            if k > 0 {
                lemma_lt_total(x@, r@[k - 1]@);
            }
        }
        let ghost old_r = r@;
        r.insert(k, x);
        proof {
            assert forall|a: int, b: int| 0 <= a < b < r@.len() implies seq_le(#[trigger] r@[a]@, #[trigger] r@[b]@) by {
                if a < k && b == k {
                    if a < k - 1 {
                        lemma_le_trans(old_r[a]@, old_r[k - 1]@, x@);
                    }
                } else if a == k && b > k {
                    assert(seq_lt(x@, old_r[b - 1]@));
                    if seq_lt(old_r[b - 1]@, x@) {
                        lemma_lt_trans(x@, old_r[b - 1]@, x@);
                        lemma_lt_irrefl(x@);
                    }
                } else if a < k && b > k {
                    assert(r@[a] == old_r[a] && r@[b] == old_r[b - 1]);
                } else if a > k {
                    assert(r@[a] == old_r[a - 1] && r@[b] == old_r[b - 1]);
                } else {
                    assert(r@[a] == old_r[a] && r@[b] == old_r[b]);
                }
            }
            vstd::seq_lib::to_multiset_insert(old_r, k as int, x);
            assert(v@.take(i + 1) =~= v@.take(i as int).push(v@[i as int]));
        }
        i = i + 1;
    }
    assert(v@.take(v.len() as int) =~= v@);
    r
}

/// Strictly increasing (sorted, no repeats).
pub open spec fn string_views_strict(s: Seq<String>) -> bool {
    forall|i: int, j: int| 0 <= i < j < s.len() ==> seq_lt(#[trigger] s[i]@, #[trigger] s[j]@)
}

/// Some element of `s` has view `x`.
pub open spec fn has_view(s: Seq<String>, x: Seq<char>) -> bool {
    exists|i: int| 0 <= i < s.len() && (#[trigger] s[i])@ == x
}

/// `v.dedup()` on a sorted vector: consecutive repeats dropped.
pub fn dedup_sorted_strings(v: Vec<String>) -> (r: Vec<String>)
    requires
        string_views_sorted(v@),
    ensures
        string_views_strict(r@),
        forall|x: Seq<char>| has_view(r@, x) <==> has_view(v@, x),
{
    let mut r: Vec<String> = Vec::new();
    let mut i: usize = 0;
    while i < v.len()
        invariant
            i <= v.len(),
            string_views_sorted(v@),
            string_views_strict(r@),
            i > 0 ==> r@.len() > 0 && r@.last()@ == v@[i - 1]@,
            i == 0 ==> r@.len() == 0,
            forall|x: Seq<char>| has_view(r@, x) <==> has_view(v@.take(i as int), x),
        decreases v.len() - i,
    {
        let ghost old_r = r@;
        let ghost t = v@.take(i + 1);
        assert(forall|x: Seq<char>| has_view(old_r, x) <==> has_view(v@.take(i as int), x));
        let dup = r.len() > 0 && str_eq_strings(&r[r.len() - 1], &v[i]);
        if !dup {
            proof {
                if r@.len() > 0 {
                    assert(seq_le(v@[i - 1]@, v@[i as int]@));
                    lemma_lt_total(v@[i - 1]@, v@[i as int]@);
                    assert forall|a: int| 0 <= a < old_r.len() implies seq_lt(#[trigger] old_r[a]@, v@[i as int]@) by {
                        if a < old_r.len() - 1 {
                            lemma_lt_trans(old_r[a]@, old_r.last()@, v@[i as int]@);
                        }
                    }
                }
            }
            r.push(v[i].clone());
        }
        proof {
            assert forall|x: Seq<char>| has_view(r@, x) <==> has_view(t, x) by {
                if has_view(t, x) {
                    let k = choose|k: int| 0 <= k < t.len() && (#[trigger] t[k])@ == x;
                    if k < i {
                        assert(v@.take(i as int)[k] == t[k]);
                        assert(has_view(v@.take(i as int), x));
                        assert(has_view(old_r, x));
                        let m = choose|m: int| 0 <= m < old_r.len() && (#[trigger] old_r[m])@ == x;
                        assert(r@[m] == old_r[m]);
                    } else {
                        assert(r@.last()@ == x);
                        assert(r@[r@.len() - 1]@ == x);
                    }
                }
                if has_view(r@, x) {
                    let m = choose|m: int| 0 <= m < r@.len() && (#[trigger] r@[m])@ == x;
                    if m < old_r.len() {
                        assert(old_r[m] == r@[m]);
                        assert(has_view(old_r, x));
                        let k = choose|k: int| 0 <= k < v@.take(i as int).len() && (#[trigger] v@.take(i as int)[k])@ == x;
                        assert(t[k] == v@.take(i as int)[k]);
                    } else {
                        assert(t[i as int] == v@[i as int]);
                    }
                }
            }
        }
        i = i + 1;
    }
    assert(v@.take(v.len() as int) =~= v@);
    r
}

/// `a == b` on strings, by their characters.
pub fn str_eq_strings(a: &String, b: &String) -> (r: bool)
    ensures
        r == (a@ == b@),
{
    crate::text::str_eq(a.as_str(), b.as_str())
}

} // verus!
