//! Parameter lists of OAuth1 base strings: ordering, sorting and joining.

use vstd::prelude::*;
use vstd::string::*;
use crate::encoding::percent_encoded;
use crate::encoding::url_encode;
use crate::text::pairs_view;

verus! {

/// A key and a value, as text.
pub type TextPair = (Seq<char>, Seq<char>);

/// Lexicographic order on text, by code point.
pub open spec fn text_lt(a: Seq<char>, b: Seq<char>) -> bool
    decreases a.len(),
{
    if a.len() == 0 {
        b.len() > 0
    } else if b.len() == 0 {
        false
    } else if a[0] != b[0] {
        a[0] < b[0]
    } else {
        text_lt(a.drop_first(), b.drop_first())
    }
}

/// Pairs ordered by key, then by value.
pub open spec fn pair_le(p: TextPair, q: TextPair) -> bool {
    text_lt(p.0, q.0) || (p.0 == q.0 && !text_lt(q.1, p.1))
}

/// `p` put before the first pair of `s` that it does not follow.
pub open spec fn insert_pair(p: TextPair, s: Seq<TextPair>) -> Seq<TextPair>
    decreases s.len(),
{
    if s.len() == 0 {
        seq![p]
    } else if pair_le(p, s[0]) {
        seq![p] + s
    } else {
        seq![s[0]] + insert_pair(p, s.drop_first())
    }
}

/// The pairs sorted by key, then by value.
pub open spec fn sorted_pairs(s: Seq<TextPair>) -> Seq<TextPair>
    decreases s.len(),
{
    if s.len() == 0 {
        seq![]
    } else {
        insert_pair(s.last(), sorted_pairs(s.drop_last()))
    }
}

/// Each key and value percent-encoded.
pub open spec fn encoded_pairs(s: Seq<TextPair>) -> Seq<TextPair> {
    s.map_values(|p: TextPair| (percent_encoded(p.0), percent_encoded(p.1)))
}

/// `key=value`.
pub open spec fn pair_text(p: TextPair) -> Seq<char> {
    p.0 + "="@ + p.1
}

/// The pairs as `key=value`, joined by `&`.
pub open spec fn joined_pairs(s: Seq<TextPair>) -> Seq<char>
    decreases s.len(),
{
    if s.len() == 0 {
        seq![]
    } else if s.len() == 1 {
        pair_text(s[0])
    } else {
        joined_pairs(s.drop_last()) + "&"@ + pair_text(s.last())
    }
}

/// The parameter string of a base string: the pairs encoded, sorted, joined.
pub open spec fn normalized_params(s: Seq<TextPair>) -> Seq<char> {
    joined_pairs(sorted_pairs(encoded_pairs(s)))
}

proof fn lemma_text_lt_irreflexive(a: Seq<char>)
    ensures
        !text_lt(a, a),
    decreases a.len(),
{
    if a.len() > 0 {
        lemma_text_lt_irreflexive(a.drop_first());
    }
}

proof fn lemma_text_lt_total(a: Seq<char>, b: Seq<char>)
    ensures
        text_lt(a, b) || text_lt(b, a) || a == b,
    decreases a.len(),
{
    if a.len() > 0 && b.len() > 0 && a[0] == b[0] {
        lemma_text_lt_total(a.drop_first(), b.drop_first());
        if a.drop_first() == b.drop_first() {
            assert(a =~= seq![a[0]] + a.drop_first());
            assert(b =~= seq![b[0]] + b.drop_first());
        }
    } else if a.len() == 0 && b.len() == 0 {
        assert(a =~= b);
    }
}

proof fn lemma_text_lt_transitive(a: Seq<char>, b: Seq<char>, c: Seq<char>)
    requires
        text_lt(a, b),
        text_lt(b, c),
    ensures
        text_lt(a, c),
    decreases a.len(),
{
    if a.len() > 0 && b.len() > 0 && c.len() > 0 && a[0] == b[0] && b[0] == c[0] {
        lemma_text_lt_transitive(a.drop_first(), b.drop_first(), c.drop_first());
    }
}

proof fn lemma_text_lt_asymmetric(a: Seq<char>, b: Seq<char>)
    requires
        text_lt(a, b),
    ensures
        !text_lt(b, a),
{
    if text_lt(b, a) {
        lemma_text_lt_transitive(a, b, a);
        lemma_text_lt_irreflexive(a);
    }
}

proof fn lemma_pair_le_total(p: TextPair, q: TextPair)
    ensures
        pair_le(p, q) || pair_le(q, p),
{
    lemma_text_lt_total(p.0, q.0);
    if text_lt(q.1, p.1) {
        lemma_text_lt_asymmetric(q.1, p.1);
    }
}

proof fn lemma_pair_le_transitive(p: TextPair, q: TextPair, r: TextPair)
    requires
        pair_le(p, q),
        pair_le(q, r),
    ensures
        pair_le(p, r),
{
    if text_lt(p.0, q.0) && text_lt(q.0, r.0) {
        lemma_text_lt_transitive(p.0, q.0, r.0);
    }
    if p.0 == q.0 && q.0 == r.0 && text_lt(r.1, p.1) {
        lemma_text_lt_total(q.1, r.1);
        if text_lt(q.1, r.1) {
            lemma_text_lt_transitive(q.1, r.1, p.1);
        }
    }
}

/// Whether the pairs are in order: by key, then by value.
pub open spec fn pairs_sorted(s: Seq<TextPair>) -> bool {
    forall|i: int, j: int| 0 <= i < j < s.len() ==> pair_le(#[trigger] s[i], #[trigger] s[j])
}

proof fn lemma_insert_pair_sorted(p: TextPair, s: Seq<TextPair>)
    requires
        pairs_sorted(s),
    ensures
        pairs_sorted(insert_pair(p, s)),
        insert_pair(p, s).to_multiset() == s.to_multiset().insert(p),
    decreases s.len(),
{
    broadcast use vstd::seq_lib::group_to_multiset_ensures;
    let r = insert_pair(p, s);
    if s.len() == 0 {
        assert(r =~= seq![p]);
        assert(seq![p] =~= Seq::<TextPair>::empty().push(p));
    } else if pair_le(p, s[0]) {
        assert forall|i: int, j: int| 0 <= i < j < r.len() implies pair_le(#[trigger] r[i], #[trigger] r[j]) by {
            if i == 0 {
                if j > 1 {
                    lemma_pair_le_transitive(p, s[0], s[j - 1]);
                }
            } else {
                assert(r[i] == s[i - 1] && r[j] == s[j - 1]);
            }
        }
        assert(r =~= s.insert(0, p));
        s.to_multiset_ensures();
    } else {
        let t = s.drop_first();
        assert forall|i: int, j: int| 0 <= i < j < t.len() implies pair_le(#[trigger] t[i], #[trigger] t[j]) by {
            assert(t[i] == s[i + 1] && t[j] == s[j + 1]);
        }
        lemma_insert_pair_sorted(p, t);
        let rt = insert_pair(p, t);
        lemma_pair_le_total(p, s[0]);
        assert forall|k: int| 0 <= k < rt.len() implies pair_le(s[0], #[trigger] rt[k]) by {
            assert(rt.to_multiset().count(rt[k]) > 0);
            assert(t.to_multiset().insert(p).count(rt[k]) > 0);
            if rt[k] != p {
                assert(t.to_multiset().count(rt[k]) > 0);
                assert(t.contains(rt[k]));
                let m = choose|m: int| 0 <= m < t.len() && t[m] == rt[k];
                assert(s[m + 1] == t[m]);
            }
        }
        assert forall|i: int, j: int| 0 <= i < j < r.len() implies pair_le(#[trigger] r[i], #[trigger] r[j]) by {
            if i == 0 {
                assert(r[j] == rt[j - 1]);
            } else {
                assert(r[i] == rt[i - 1] && r[j] == rt[j - 1]);
            }
        }
        assert(s =~= seq![s[0]] + t);
        vstd::seq_lib::lemma_multiset_commutative(seq![s[0]], t);
        vstd::seq_lib::lemma_multiset_commutative(seq![s[0]], rt);
        assert(seq![s[0]].to_multiset() =~= vstd::multiset::Multiset::empty().insert(s[0])) by {
            assert(seq![s[0]] =~= Seq::<TextPair>::empty().push(s[0]));
        }
        assert(r.to_multiset() =~= s.to_multiset().insert(p));
    }
}

/// `sorted_pairs` sorts: its result is in order and holds the same pairs,
/// each as often.
pub proof fn lemma_sorted_pairs_sorts(s: Seq<TextPair>)
    ensures
        pairs_sorted(sorted_pairs(s)),
        sorted_pairs(s).to_multiset() == s.to_multiset(),
    decreases s.len(),
{
    broadcast use vstd::seq_lib::group_to_multiset_ensures;
    if s.len() > 0 {
        lemma_sorted_pairs_sorts(s.drop_last());
        lemma_insert_pair_sorted(s.last(), sorted_pairs(s.drop_last()));
        assert(s =~= s.drop_last().push(s.last()));
    }
}

/// Whether `a` comes before `b`, comparing code points.
pub fn text_less(a: &String, b: &String) -> (r: bool)
    ensures
        r == text_lt(a@, b@),
{
    let la = a.as_str().unicode_len();
    let lb = b.as_str().unicode_len();
    let mut i: usize = 0;
    assert(a@.skip(0) =~= a@);
    assert(b@.skip(0) =~= b@);
    while i < la && i < lb
        invariant
            la == a@.len(),
            lb == b@.len(),
            i <= la,
            i <= lb,
            text_lt(a@, b@) == text_lt(a@.skip(i as int), b@.skip(i as int)),
        decreases la - i,
    {
        let ca = a.as_str().get_char(i);
        let cb = b.as_str().get_char(i);
        if ca != cb {
            assert(a@.skip(i as int)[0] == ca);
            assert(b@.skip(i as int)[0] == cb);
            return ca < cb;
        }
        assert(a@.skip(i as int).drop_first() =~= a@.skip(i as int + 1));
        assert(b@.skip(i as int).drop_first() =~= b@.skip(i as int + 1));
        i = i + 1;
    }
    i < lb
}

proof fn lemma_insert_at(p: TextPair, s: Seq<TextPair>, j: int)
    requires
        0 <= j <= s.len(),
        forall|k: int| 0 <= k < j ==> !pair_le(p, #[trigger] s[k]),
        j < s.len() ==> pair_le(p, s[j]),
    ensures
        insert_pair(p, s) == s.insert(j, p),
    decreases s.len(),
{
    if s.len() == 0 {
        assert(s.insert(j, p) =~= seq![p]);
    } else if j == 0 {
        assert(s.insert(0, p) =~= seq![p] + s);
    } else {
        let t = s.drop_first();
        assert forall|k: int| 0 <= k < j - 1 implies !pair_le(p, #[trigger] t[k]) by {
            assert(t[k] == s[k + 1]);
        }
        lemma_insert_at(p, t, j - 1);
        assert(seq![s[0]] + t.insert(j - 1, p) =~= s.insert(j, p));
    }
}

fn pair_less_eq(p: &(String, String), q: &(String, String)) -> (r: bool)
    ensures
        r == pair_le((p.0@, p.1@), (q.0@, q.1@)),
{
    if text_less(&p.0, &q.0) {
        true
    } else {
        p.0 == q.0 && !text_less(&q.1, &p.1)
    }
}

/// The pairs sorted by key, then by value.
pub fn sort_pairs(v: &Vec<(String, String)>) -> (r: Vec<(String, String)>)
    ensures
        pairs_view(r@) == sorted_pairs(pairs_view(v@)),
{
    let mut r: Vec<(String, String)> = Vec::new();
    let mut i: usize = 0;
    while i < v.len()
        invariant
            i <= v.len(),
            pairs_view(r@) == sorted_pairs(pairs_view(v@.take(i as int))),
        decreases v.len() - i,
    {
        let p = (v[i].0.clone(), v[i].1.clone());
        let ghost pv = (p.0@, p.1@);
        let ghost before = pairs_view(r@);
        let mut j: usize = 0;
        while j < r.len() && !pair_less_eq(&p, &r[j])
            invariant
                j <= r.len(),
                before == pairs_view(r@),
                pv == (p.0@, p.1@),
                forall|k: int| 0 <= k < j ==> !pair_le(pv, #[trigger] before[k]),
            decreases r.len() - j,
        {
            assert(before[j as int] == (r@[j as int].0@, r@[j as int].1@));
            j = j + 1;
        }
        proof {
            lemma_insert_at(pv, before, j as int);
        }
        r.insert(j, p);
        proof {
            let vi = pairs_view(v@.take(i as int + 1));
            assert(vi.drop_last() =~= pairs_view(v@.take(i as int)));
            assert(vi.last() == pv);
            assert(pairs_view(r@) =~= before.insert(j as int, pv));
        }
        i = i + 1;
    }
    assert(v@.take(v.len() as int) =~= v@);
    r
}

/// Each key and value percent-encoded.
pub fn encode_pairs(v: &Vec<(String, String)>) -> (r: Vec<(String, String)>)
    ensures
        pairs_view(r@) == encoded_pairs(pairs_view(v@)),
{
    let mut r: Vec<(String, String)> = Vec::new();
    let mut i: usize = 0;
    while i < v.len()
        invariant
            i <= v.len(),
            pairs_view(r@) =~= encoded_pairs(pairs_view(v@.take(i as int))),
        decreases v.len() - i,
    {
        let ghost prev = pairs_view(r@);
        let k = url_encode(v[i].0.as_str());
        let val = url_encode(v[i].1.as_str());
        r.push((k, val));
        proof {
            let t = pairs_view(v@.take(i as int + 1));
            assert(t =~= pairs_view(v@.take(i as int)).push((v@[i as int].0@, v@[i as int].1@)));
            assert(pairs_view(r@) =~= prev.push((percent_encoded(v@[i as int].0@), percent_encoded(v@[i as int].1@))));
            assert(encoded_pairs(t) =~= encoded_pairs(pairs_view(v@.take(i as int))).push(
                (percent_encoded(v@[i as int].0@), percent_encoded(v@[i as int].1@))));
        }
        i = i + 1;
    }
    assert(v@.take(v.len() as int) =~= v@);
    r
}

/// The pairs as `key=value`, joined by `&`.
pub fn join_pairs(v: &Vec<(String, String)>) -> (r: String)
    ensures
        r@ == joined_pairs(pairs_view(v@)),
{
    let mut r = String::new();
    let mut i: usize = 0;
    while i < v.len()
        invariant
            i <= v.len(),
            r@ == joined_pairs(pairs_view(v@.take(i as int))),
        decreases v.len() - i,
    {
        let ghost prev = pairs_view(v@.take(i as int));
        if i > 0 {
            r.append("&");
        }
        r.append(v[i].0.as_str());
        r.append("=");
        r.append(v[i].1.as_str());
        proof {
            let cur = pairs_view(v@.take(i as int + 1));
            assert(cur.drop_last() =~= prev);
            if i == 0 {
                assert(r@ =~= pair_text(cur[0]));
            } else {
                assert(r@ =~= joined_pairs(prev) + "&"@ + pair_text(cur.last()));
            }
        }
        i = i + 1;
    }
    assert(v@.take(v.len() as int) =~= v@);
    r
}

/// The parameter string of a base string: the pairs percent-encoded, sorted by
/// key then value, and joined as `key=value` with `&`.
pub fn normalize_params(v: &Vec<(String, String)>) -> (r: String)
    ensures
        r@ == normalized_params(pairs_view(v@)),
{
    let encoded = encode_pairs(v);
    let sorted = sort_pairs(&encoded);
    join_pairs(&sorted)
}

} // verus!
