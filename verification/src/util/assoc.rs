//! Sequences of key/value pairs read as maps.

use vstd::prelude::*;

verus! {

/// The map that a sequence of pairs stands for. Where a key occurs more than
/// once, the last pair counts.
pub open spec fn assoc_map<K, V>(s: Seq<(K, V)>) -> Map<K, V>
    decreases s.len(),
{
    if s.len() == 0 {
        Map::empty()
    } else {
        assoc_map(s.drop_last()).insert(s.last().0, s.last().1)
    }
}

/// No key occurs in two pairs.
pub open spec fn assoc_distinct<K, V>(s: Seq<(K, V)>) -> bool {
    forall|i: int, j: int| 0 <= i < j < s.len() ==> (#[trigger] s[i]).0 != (#[trigger] s[j]).0
}

/// Some pair has the key.
pub open spec fn assoc_has<K, V>(s: Seq<(K, V)>, k: K) -> bool {
    exists|i: int| 0 <= i < s.len() && (#[trigger] s[i]).0 == k
}

/// A prefix of a sequence without repeated keys has none either.
pub proof fn lemma_assoc_distinct_prefix<K, V>(s: Seq<(K, V)>)
    requires
        assoc_distinct(s),
        s.len() > 0,
    ensures
        assoc_distinct(s.drop_last()),
{
    let t = s.drop_last();
    assert forall|a: int, b: int| 0 <= a < b < t.len() implies (#[trigger] t[a]).0 != (
    #[trigger] t[b]).0 by {
        assert(t[a] == s[a] && t[b] == s[b]);
    }
}

/// A key is in the map exactly when some pair has it; the map is finite.
pub proof fn lemma_assoc_dom<K, V>(s: Seq<(K, V)>, k: K)
    ensures
        assoc_map(s).contains_key(k) <==> assoc_has(s, k),
        assoc_map(s).dom().finite(),
    decreases s.len(),
{
    if s.len() > 0 {
        let t = s.drop_last();
        lemma_assoc_dom(t, k);
        if assoc_map(s).contains_key(k) {
            if s.last().0 == k {
                assert(s[s.len() - 1].0 == k);
            } else {
                let i = choose|i: int| 0 <= i < t.len() && (#[trigger] t[i]).0 == k;
                assert(s[i].0 == k);
            }
        }
        if assoc_has(s, k) {
            let i = choose|i: int| 0 <= i < s.len() && (#[trigger] s[i]).0 == k;
            if i < s.len() - 1 {
                assert(t[i].0 == k);
            }
        }
    }
}

/// Without repeated keys, the map gives each pair's key that pair's value.
pub proof fn lemma_assoc_index<K, V>(s: Seq<(K, V)>, i: int)
    requires
        assoc_distinct(s),
        0 <= i < s.len(),
    ensures
        assoc_map(s).contains_key(s[i].0),
        assoc_map(s)[s[i].0] == s[i].1,
    decreases s.len(),
{
    let t = s.drop_last();
    if i < s.len() - 1 {
        lemma_assoc_distinct_prefix(s);
        lemma_assoc_index(t, i);
        assert(t[i] == s[i]);
        assert(s[i].0 != s[s.len() - 1].0);
    }
}

/// Without repeated keys, the map has as many keys as there are pairs.
pub proof fn lemma_assoc_len<K, V>(s: Seq<(K, V)>)
    requires
        assoc_distinct(s),
    ensures
        assoc_map(s).dom().finite(),
        assoc_map(s).len() == s.len(),
    decreases s.len(),
{
    if s.len() > 0 {
        let t = s.drop_last();
        lemma_assoc_distinct_prefix(s);
        lemma_assoc_len(t);
        lemma_assoc_dom(t, s.last().0);
        if assoc_map(t).contains_key(s.last().0) {
            let i = choose|i: int| 0 <= i < t.len() && (#[trigger] t[i]).0 == s.last().0;
            assert(s[i].0 == s[s.len() - 1].0);
        }
    } else {
        assert(assoc_map(s).dom() =~= Set::empty());
    }
}

/// Taking one pair out of a sequence without repeated keys takes its key out
/// of the map and leaves the rest.
pub proof fn lemma_assoc_remove<K, V>(s: Seq<(K, V)>, i: int)
    requires
        assoc_distinct(s),
        0 <= i < s.len(),
    ensures
        assoc_distinct(s.remove(i)),
        assoc_map(s.remove(i)) == assoc_map(s).remove(s[i].0),
{
    let t = s.remove(i);
    assert(assoc_distinct(t)) by {
        assert forall|a: int, b: int| 0 <= a < b < t.len() implies (#[trigger] t[a]).0 != (
        #[trigger] t[b]).0 by {
            let a0 = if a < i { a } else { a + 1 };
            let b0 = if b < i { b } else { b + 1 };
            assert(t[a] == s[a0] && t[b] == s[b0]);
        }
    }
    assert(assoc_map(t) =~= assoc_map(s).remove(s[i].0)) by {
        assert forall|k: K|
            assoc_map(t).contains_key(k) <==> assoc_map(s).remove(s[i].0).contains_key(k) by {
            lemma_assoc_dom(t, k);
            lemma_assoc_dom(s, k);
            if assoc_has(t, k) {
                let a = choose|a: int| 0 <= a < t.len() && (#[trigger] t[a]).0 == k;
                let a0 = if a < i { a } else { a + 1 };
                assert(t[a] == s[a0]);
                assert(s[a0].0 == k);
                if a0 < i {
                    assert(s[a0].0 != s[i].0);
                } else {
                    assert(s[i].0 != s[a0].0);
                }
            }
            if assoc_has(s, k) && k != s[i].0 {
                let a = choose|a: int| 0 <= a < s.len() && (#[trigger] s[a]).0 == k;
                let a1 = if a < i { a } else { a - 1 };
                assert(t[a1] == s[a]);
                assert(t[a1].0 == k);
            }
        }
        assert forall|k: K| assoc_map(t).contains_key(k) implies assoc_map(t)[k] == assoc_map(
            s,
        ).remove(s[i].0)[k] by {
            lemma_assoc_dom(t, k);
            let a = choose|a: int| 0 <= a < t.len() && (#[trigger] t[a]).0 == k;
            let a0 = if a < i { a } else { a + 1 };
            assert(t[a] == s[a0]);
            lemma_assoc_index(t, a);
            lemma_assoc_index(s, a0);
        }
    }
}

/// Appending a pair with a new key keeps the keys apart and adds the pair to
/// the map.
pub proof fn lemma_assoc_push<K, V>(s: Seq<(K, V)>, k: K, v: V)
    requires
        assoc_distinct(s),
        !assoc_has(s, k),
    ensures
        assoc_distinct(s.push((k, v))),
        assoc_map(s.push((k, v))) == assoc_map(s).insert(k, v),
{
    let t = s.push((k, v));
    assert(t.drop_last() =~= s);
    assert forall|a: int, b: int| 0 <= a < b < t.len() implies (#[trigger] t[a]).0 != (
    #[trigger] t[b]).0 by {
        assert(t[a] == s[a]);
        if b < s.len() {
            assert(t[b] == s[b]);
        } else {
            assert(s[a].0 != k);
        }
    }
}

} // verus!
