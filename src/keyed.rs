//! Lists of `(key, value)` entries with distinct keys, read as maps.
//!
//! Both stores of this crate keep their records in such a list. The spec
//! functions and lemmas here connect the list to the map it stands for.
use vstd::prelude::*;

verus! {

/// The map that a list of entries stands for; a later entry for a key hides an
/// earlier one (with distinct keys there is none).
pub open spec fn map_of<V>(s: Seq<(String, V)>) -> Map<Seq<char>, V>
    decreases s.len(),
{
    if s.len() == 0 {
        Map::empty()
    } else {
        map_of(s.drop_last()).insert(s.last().0@, s.last().1)
    }
}

/// No two entries share a key.
pub open spec fn keys_unique<V>(s: Seq<(String, V)>) -> bool {
    forall|i: int, j: int|
        #![trigger s[i], s[j]]
        0 <= i < s.len() && 0 <= j < s.len() && i != j ==> s[i].0@ != s[j].0@
}

/// The entries of `m` whose value satisfies `keep`.
pub open spec fn keep_values<V>(m: Map<Seq<char>, V>, keep: spec_fn(V) -> bool) -> Map<
    Seq<char>,
    V,
> {
    Map::new(|k: Seq<char>| m.contains_key(k) && keep(m[k]), |k: Seq<char>| m[k])
}

/// Dropping the last entry keeps the keys distinct.
pub proof fn lemma_unique_drop_last<V>(s: Seq<(String, V)>)
    requires
        keys_unique(s),
        s.len() > 0,
    ensures
        keys_unique(s.drop_last()),
{
    let t = s.drop_last();
    assert forall|i: int, j: int|
        #![trigger t[i], t[j]]
        0 <= i < t.len() && 0 <= j < t.len() && i != j implies t[i].0@ != t[j].0@ by {
        assert(t[i] == s[i] && t[j] == s[j]);
    }
}

/// A key is in the map exactly when some entry carries it.
pub proof fn lemma_map_of_contains<V>(s: Seq<(String, V)>, k: Seq<char>)
    ensures
        map_of(s).contains_key(k) <==> exists|i: int| 0 <= i < s.len() && (#[trigger] s[i]).0@ == k,
    decreases s.len(),
{
    if s.len() > 0 {
        let t = s.drop_last();
        lemma_map_of_contains(t, k);
        if map_of(s).contains_key(k) {
            if s.last().0@ == k {
                assert(s[s.len() - 1].0@ == k);
            } else {
                let i = choose|i: int| 0 <= i < t.len() && (#[trigger] t[i]).0@ == k;
                assert(s[i] == t[i]);
            }
        }
        if exists|i: int| 0 <= i < s.len() && (#[trigger] s[i]).0@ == k {
            let i = choose|i: int| 0 <= i < s.len() && (#[trigger] s[i]).0@ == k;
            if i < s.len() - 1 {
                assert(t[i] == s[i]);
            }
        }
    }
}

/// With distinct keys, each entry's value is what the map holds for its key.
pub proof fn lemma_map_of_index<V>(s: Seq<(String, V)>, i: int)
    requires
        keys_unique(s),
        0 <= i < s.len(),
    ensures
        map_of(s).contains_key(s[i].0@),
        map_of(s)[s[i].0@] == s[i].1,
    decreases s.len(),
{
    let t = s.drop_last();
    if i < s.len() - 1 {
        lemma_unique_drop_last(s);
        lemma_map_of_index(t, i);
        assert(t[i] == s[i]);
        assert(s[s.len() - 1].0@ != s[i].0@);
    }
}

/// With distinct keys, the map has as many keys as the list has entries.
pub proof fn lemma_map_of_len<V>(s: Seq<(String, V)>)
    requires
        keys_unique(s),
    ensures
        map_of(s).dom().finite(),
        map_of(s).len() == s.len(),
    decreases s.len(),
{
    if s.len() > 0 {
        let t = s.drop_last();
        let k = s.last().0@;
        lemma_unique_drop_last(s);
        lemma_map_of_len(t);
        lemma_map_of_contains(t, k);
        if map_of(t).contains_key(k) {
            let i = choose|i: int| 0 <= i < t.len() && (#[trigger] t[i]).0@ == k;
            assert(s[i] == t[i]);
            assert(s[s.len() - 1].0@ == k);
        }
    }
}

/// Removing the entry at `i` removes its key from the map, and keeps the keys distinct.
pub proof fn lemma_map_of_remove<V>(s: Seq<(String, V)>, i: int)
    requires
        keys_unique(s),
        0 <= i < s.len(),
    ensures
        keys_unique(s.remove(i)),
        map_of(s.remove(i)) == map_of(s).remove(s[i].0@),
{
    let r = s.remove(i);
    let gone = s[i].0@;
    s.remove_ensures(i);
    assert forall|a: int, b: int|
        #![trigger r[a], r[b]]
        0 <= a < r.len() && 0 <= b < r.len() && a != b implies r[a].0@ != r[b].0@ by {
        let sa = if a < i { a } else { a + 1 };
        let sb = if b < i { b } else { b + 1 };
        assert(r[a] == s[sa] && r[b] == s[sb]);
    }
    assert forall|k: Seq<char>|
        map_of(r).contains_key(k) <==> map_of(s).remove(gone).contains_key(k) by {
        lemma_map_of_contains(r, k);
        lemma_map_of_contains(s, k);
        if map_of(r).contains_key(k) {
            let a = choose|a: int| 0 <= a < r.len() && (#[trigger] r[a]).0@ == k;
            let sa = if a < i { a } else { a + 1 };
            assert(r[a] == s[sa]);
            assert(s[sa].0@ != s[i].0@);
        }
        if map_of(s).remove(gone).contains_key(k) {
            let b = choose|b: int| 0 <= b < s.len() && (#[trigger] s[b]).0@ == k;
            assert(b != i);
            let a = if b < i { b } else { b - 1 };
            assert(r[a] == s[b]);
        }
    }
    assert forall|k: Seq<char>| #[trigger]
        map_of(r).contains_key(k) implies map_of(r)[k] == map_of(s).remove(gone)[k] by {
        lemma_map_of_contains(r, k);
        let a = choose|a: int| 0 <= a < r.len() && (#[trigger] r[a]).0@ == k;
        let sa = if a < i { a } else { a + 1 };
        assert(r[a] == s[sa]);
        lemma_map_of_index(r, a);
        lemma_map_of_index(s, sa);
    }
    assert(map_of(r) =~= map_of(s).remove(gone));
}

/// Appending an entry whose key is new keeps the keys distinct.
pub proof fn lemma_push_unique<V>(s: Seq<(String, V)>, e: (String, V))
    requires
        keys_unique(s),
        !map_of(s).contains_key(e.0@),
    ensures
        keys_unique(s.push(e)),
        map_of(s.push(e)) == map_of(s).insert(e.0@, e.1),
{
    let t = s.push(e);
    assert(t.drop_last() =~= s);
    assert forall|a: int, b: int|
        #![trigger t[a], t[b]]
        0 <= a < t.len() && 0 <= b < t.len() && a != b implies t[a].0@ != t[b].0@ by {
        if a == s.len() {
            lemma_map_of_contains(s, e.0@);
            assert(t[b] == s[b]);
        } else if b == s.len() {
            lemma_map_of_contains(s, e.0@);
            assert(t[a] == s[a]);
        } else {
            assert(t[a] == s[a] && t[b] == s[b]);
        }
    }
}

/// The index of the entry whose key is `key`, if any.
pub fn position_of<V>(entries: &Vec<(String, V)>, key: &String) -> (r: Option<usize>)
    ensures
        match r {
            Some(i) => i < entries@.len() && entries@[i as int].0@ == key@,
            None => !map_of(entries@).contains_key(key@),
        },
{
    let mut i: usize = 0;
    while i < entries.len()
        invariant
            0 <= i <= entries@.len(),
            forall|j: int| 0 <= j < i ==> (#[trigger] entries@[j]).0@ != key@,
        decreases entries@.len() - i,
    {
        if entries[i].0 == *key {
            return Some(i);
        }
        i += 1;
    }
    proof {
        lemma_map_of_contains(entries@, key@);
    }
    None
}

} // verus!
