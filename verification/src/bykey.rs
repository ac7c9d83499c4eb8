//! The mapping denoted by a list of records, each carrying a key.
//!
//! The store holds its rows in vectors; contracts speak of the map from
//! key to row. These are the spec function and lemmas that connect the
//! two.

use vstd::prelude::*;

verus! {

/// The map denoted by a list of records under a key function; on a
/// repeated key the later record is shadowed by the earlier one.
pub open spec fn spec_map_by<T>(s: Seq<T>, key: spec_fn(T) -> Seq<char>) -> Map<Seq<char>, T>
    decreases s.len(),
{
    if s.len() == 0 {
        Map::empty()
    } else {
        let prev = spec_map_by(s.drop_last(), key);
        let k = key(s.last());
        if prev.dom().contains(k) {
            prev
        } else {
            prev.insert(k, s.last())
        }
    }
}

/// A key is in the map exactly when some record in the list carries it.
pub proof fn lemma_map_by_dom<T>(s: Seq<T>, key: spec_fn(T) -> Seq<char>)
    ensures
        forall|k: Seq<char>| #[trigger]
            spec_map_by(s, key).dom().contains(k) <==> (exists|i: int|
                0 <= i < s.len() && #[trigger] key(s[i]) == k),
    decreases s.len(),
{
    if s.len() > 0 {
        lemma_map_by_dom(s.drop_last(), key);
        assert forall|k: Seq<char>| #[trigger]
            spec_map_by(s, key).dom().contains(k) implies (exists|i: int|
            0 <= i < s.len() && #[trigger] key(s[i]) == k) by {
            if spec_map_by(s.drop_last(), key).dom().contains(k) {
                let i = choose|i: int|
                    0 <= i < s.drop_last().len() && #[trigger] key(s.drop_last()[i]) == k;
                assert(key(s[i]) == k);
            } else {
                assert(key(s[s.len() - 1]) == k);
            }
        }
        assert forall|k: Seq<char>|
            (exists|i: int|
                0 <= i < s.len() && #[trigger] key(s[i]) == k) implies #[trigger] spec_map_by(
            s,
            key,
        ).dom().contains(k) by {
            let i = choose|i: int| 0 <= i < s.len() && #[trigger] key(s[i]) == k;
            if i < s.len() - 1 {
                assert(key(s.drop_last()[i]) == k);
                assert(spec_map_by(s.drop_last(), key).dom().contains(k));
            } else {
                assert(key(s.last()) == k);
            }
        }
    }
}

/// Each record of a duplicate-free list is in the map under its key.
pub proof fn lemma_map_by_pairs<T>(s: Seq<T>, key: spec_fn(T) -> Seq<char>)
    requires
        forall|i: int, j: int| 0 <= i < j < s.len() ==> key(s[i]) != key(s[j]),
    ensures
        forall|i: int|
            0 <= i < s.len() ==> #[trigger] spec_map_by(s, key).contains_pair(key(s[i]), s[i]),
    decreases s.len(),
{
    if s.len() > 0 {
        let rest = s.drop_last();
        lemma_map_by_pairs(rest, key);
        lemma_map_by_dom(rest, key);
        assert(!spec_map_by(rest, key).dom().contains(key(s.last())));
        assert forall|i: int|
            0 <= i < s.len() implies #[trigger] spec_map_by(s, key).contains_pair(
            key(s[i]),
            s[i],
        ) by {
            if i < s.len() - 1 {
                assert(spec_map_by(rest, key).contains_pair(key(rest[i]), rest[i]));
            }
        }
    }
}

/// Replacing the record at one position by a record with the same key
/// replaces that key's entry in the map and no other.
pub proof fn lemma_map_by_update<T>(s: Seq<T>, key: spec_fn(T) -> Seq<char>, i: int, v: T)
    requires
        forall|p: int, q: int| 0 <= p < q < s.len() ==> key(s[p]) != key(s[q]),
        0 <= i < s.len(),
        key(v) == key(s[i]),
    ensures
        spec_map_by(s.update(i, v), key) == spec_map_by(s, key).insert(key(v), v),
    decreases s.len(),
{
    let u = s.update(i, v);
    let rest = s.drop_last();
    lemma_map_by_dom(rest, key);
    if i == s.len() - 1 {
        assert(u.drop_last() =~= rest);
        assert(u.last() == v);
        assert(!spec_map_by(rest, key).dom().contains(key(s.last())));
        assert(!spec_map_by(rest, key).dom().contains(key(v)));
        assert(spec_map_by(u, key) == spec_map_by(rest, key).insert(key(v), v));
        assert(spec_map_by(s, key) == spec_map_by(rest, key).insert(key(s.last()), s.last()));
        assert(spec_map_by(rest, key).insert(key(s.last()), s.last()).insert(key(v), v)
            =~= spec_map_by(rest, key).insert(key(v), v));
    } else {
        assert(u.drop_last() =~= rest.update(i, v));
        assert(u.last() == s.last());
        lemma_map_by_update(rest, key, i, v);
        let base = spec_map_by(rest, key);
        let prev_u = spec_map_by(u.drop_last(), key);
        assert(prev_u == base.insert(key(v), v));
        assert(key(s.last()) != key(v)) by {
            assert(key(s[i]) != key(s[s.len() - 1]));
        }
        assert(!base.dom().contains(key(s.last())));
        assert(!prev_u.dom().contains(key(s.last())));
        assert(spec_map_by(u, key) == prev_u.insert(key(s.last()), s.last()));
        assert(spec_map_by(s, key) == base.insert(key(s.last()), s.last()));
        assert(base.insert(key(v), v).insert(key(s.last()), s.last()) =~= base.insert(
            key(s.last()),
            s.last(),
        ).insert(key(v), v));
    }
}

} // verus!
