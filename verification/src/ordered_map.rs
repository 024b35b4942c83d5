//! The insertion-ordered maps of the `indexmap` crate, as the library uses
//! them: keyed by `String`, seen as the sequence of their entries in order.
use crate::domain::action_config::ActionConfig;
use indexmap::IndexMap;
use vstd::prelude::*;

verus! {

/// `indexmap::IndexMap`, carried through the library as an opaque value.
#[verifier::external_type_specification]
#[verifier::external_body]
#[verifier::reject_recursive_types(K)]
#[verifier::reject_recursive_types(V)]
#[verifier::reject_recursive_types(S)]
pub struct ExIndexMap<K, V, S>(IndexMap<K, V, S>);

/// What an `IndexMap<String, String>` holds: its key-value pairs in the
/// map's order, keys and values as character sequences.
pub uninterp spec fn string_map_entries(m: IndexMap<String, String>) -> Seq<(Seq<char>, Seq<char>)>;

/// What an `IndexMap<String, ActionConfig>` holds: its key-value pairs in
/// the map's order, keys as character sequences.
pub uninterp spec fn action_map_entries(m: IndexMap<String, ActionConfig>) -> Seq<(Seq<char>, ActionConfig)>;

/// No two entries have the same key.
pub open spec fn keys_distinct<V>(e: Seq<(Seq<char>, V)>) -> bool {
    forall|i: int, j: int| 0 <= i < e.len() && 0 <= j < e.len() && i != j ==> e[i].0 != e[j].0
}

/// Whether some entry has key `k`.
pub open spec fn has_key<V>(e: Seq<(Seq<char>, V)>, k: Seq<char>) -> bool {
    exists|i: int| 0 <= i < e.len() && e[i].0 == k
}

/// `IndexMap::insert` on the entries: the first entry with key `k` keeps
/// its place and takes the value `v`; when there is none, the new entry
/// goes last.
pub open spec fn entries_insert<V>(e: Seq<(Seq<char>, V)>, k: Seq<char>, v: V) -> Seq<(Seq<char>, V)>
    decreases e.len(),
{
    if e.len() == 0 {
        seq![(k, v)]
    } else if e[0].0 == k {
        e.update(0, (k, v))
    } else {
        seq![e[0]] + entries_insert(e.drop_first(), k, v)
    }
}

/// Inserting keeps the keys distinct, and the key inserted is then present.
pub proof fn lemma_entries_insert_distinct<V>(e: Seq<(Seq<char>, V)>, k: Seq<char>, v: V)
    requires
        keys_distinct(e),
    ensures
        keys_distinct(entries_insert(e, k, v)),
        has_key(entries_insert(e, k, v), k),
        forall|x: Seq<char>| #[trigger] has_key(entries_insert(e, k, v), x) <==> (has_key(e, x) || x == k),
    decreases e.len(),
{
    let r = entries_insert(e, k, v);
    if e.len() == 0 {
        assert(r[0].0 == k);
    } else if e[0].0 == k {
        assert(r[0].0 == k);
        assert forall|x: Seq<char>| #[trigger] has_key(r, x) <==> (has_key(e, x) || x == k) by {
            if has_key(e, x) {
                let i = choose|i: int| 0 <= i < e.len() && e[i].0 == x;
                assert(r[i].0 == x);
            }
            if has_key(r, x) {
                let i = choose|i: int| 0 <= i < r.len() && r[i].0 == x;
                assert(e[i].0 == x);
            }
        }
    } else {
        let t = e.drop_first();
        assert forall|i: int, j: int| 0 <= i < t.len() && 0 <= j < t.len() && i != j implies t[i].0 != t[j].0 by {
            assert(t[i] == e[i + 1] && t[j] == e[j + 1]);
        }
        lemma_entries_insert_distinct(t, k, v);
        let rt = entries_insert(t, k, v);
        assert(r == seq![e[0]] + rt);
        assert(!has_key(t, e[0].0)) by {
            if has_key(t, e[0].0) {
                let i = choose|i: int| 0 <= i < t.len() && t[i].0 == e[0].0;
                assert(e[i + 1].0 == e[0].0);
            }
        }
        assert(!has_key(rt, e[0].0));
        assert forall|i: int, j: int| 0 <= i < r.len() && 0 <= j < r.len() && i != j implies r[i].0 != r[j].0 by {
            if i == 0 {
                assert(r[j] == rt[j - 1]);
            } else if j == 0 {
                assert(r[i] == rt[i - 1]);
            } else {
                assert(r[i] == rt[i - 1] && r[j] == rt[j - 1]);
            }
        }
        let kk = choose|i: int| 0 <= i < rt.len() && rt[i].0 == k;
        assert(r[kk + 1].0 == k);
        assert forall|x: Seq<char>| #[trigger] has_key(r, x) <==> (has_key(e, x) || x == k) by {
            if has_key(r, x) {
                let i = choose|i: int| 0 <= i < r.len() && r[i].0 == x;
                if i > 0 {
                    assert(rt[i - 1].0 == x);
                    assert(has_key(rt, x));
                    if x != k {
                        assert(has_key(t, x));
                        let jj = choose|jj: int| 0 <= jj < t.len() && t[jj].0 == x;
                        assert(e[jj + 1].0 == x);
                    }
                } else {
                    assert(e[0].0 == x);
                }
            }
            if has_key(e, x) {
                let i = choose|i: int| 0 <= i < e.len() && e[i].0 == x;
                if i > 0 {
                    assert(t[i - 1].0 == x);
                    assert(has_key(t, x));
                    assert(has_key(rt, x));
                    let jj = choose|jj: int| 0 <= jj < rt.len() && rt[jj].0 == x;
                    assert(r[jj + 1] == rt[jj]);
                    assert(r[jj + 1].0 == x);
                } else {
                    assert(r[0].0 == x);
                }
            }
        }
    }
}

/// `after` is `before` with `(k, v)` inserted, entry by entry: every entry
/// with another key is unchanged at its place; a key that was absent is
/// added last; a key that was present keeps its place and, the keys being
/// distinct, its entry becomes `(k, v)`.
pub open spec fn is_insertion<V>(
    before: Seq<(Seq<char>, V)>,
    after: Seq<(Seq<char>, V)>,
    k: Seq<char>,
    v: V,
) -> bool {
    &&& forall|i: int| 0 <= i < before.len() && before[i].0 != k ==> #[trigger] after[i] == before[i]
    &&& !has_key(before, k) ==> after == before.push((k, v))
    &&& has_key(before, k) ==> after.len() == before.len()
    &&& has_key(before, k) && keys_distinct(before) ==> forall|i: int|
        0 <= i < before.len() && before[i].0 == k ==> #[trigger] after[i] == (k, v)
}

/// What an insertion of `(k, v)` does to the entries, stated entry by
/// entry: every entry with another key stays as it was, at its place; a
/// new key goes last, after all the entries that were there; and a key
/// that was there keeps the length and takes the value `v` at its place.
pub proof fn lemma_entries_insert_effect<V>(e: Seq<(Seq<char>, V)>, k: Seq<char>, v: V)
    ensures
        forall|i: int|
            0 <= i < e.len() && e[i].0 != k ==> #[trigger] entries_insert(e, k, v)[i] == e[i],
        !has_key(e, k) ==> entries_insert(e, k, v) == e.push((k, v)),
        has_key(e, k) ==> entries_insert(e, k, v).len() == e.len(),
        has_key(e, k) && keys_distinct(e) ==> forall|i: int|
            0 <= i < e.len() && e[i].0 == k ==> #[trigger] entries_insert(e, k, v)[i] == (k, v),
    decreases e.len(),
{
    let r = entries_insert(e, k, v);
    if e.len() == 0 {
        assert(r =~= e.push((k, v)));
    } else if e[0].0 == k {
        assert(has_key(e, k));
        if keys_distinct(e) {
            assert forall|i: int| 0 <= i < e.len() && e[i].0 == k implies r[i] == (k, v) by {
                if i != 0 {
                    assert(e[i].0 != e[0].0);
                }
            }
        }
    } else {
        let t = e.drop_first();
        lemma_entries_insert_effect(t, k, v);
        let rt = entries_insert(t, k, v);
        assert(r == seq![e[0]] + rt);
        assert forall|i: int| 0 <= i < e.len() && e[i].0 != k implies #[trigger] r[i] == e[i] by {
            if i > 0 {
                assert(t[i - 1] == e[i]);
                assert(r[i] == rt[i - 1]);
            }
        }
        assert(has_key(e, k) == has_key(t, k)) by {
            if has_key(e, k) {
                let i = choose|i: int| 0 <= i < e.len() && e[i].0 == k;
                assert(t[i - 1].0 == k);
            }
            if has_key(t, k) {
                let i = choose|i: int| 0 <= i < t.len() && t[i].0 == k;
                assert(e[i + 1].0 == k);
            }
        }
        if !has_key(e, k) {
            assert(r =~= e.push((k, v)));
        }
        if has_key(e, k) && keys_distinct(e) {
            assert(keys_distinct(t)) by {
                assert forall|i: int, j: int|
                    0 <= i < t.len() && 0 <= j < t.len() && i != j implies t[i].0 != t[j].0 by {
                    assert(t[i] == e[i + 1] && t[j] == e[j + 1]);
                }
            }
            assert forall|i: int| 0 <= i < e.len() && e[i].0 == k implies #[trigger] r[i] == (k, v) by {
                assert(i > 0);
                assert(t[i - 1].0 == k);
                assert(r[i] == rt[i - 1]);
            }
        }
    }
}

/// Inserting commutes with changing every value by `f`.
pub proof fn lemma_entries_insert_map<V, W>(
    e: Seq<(Seq<char>, V)>,
    k: Seq<char>,
    v: V,
    f: spec_fn(V) -> W,
)
    ensures
        entries_insert(e, k, v).map_values(|p: (Seq<char>, V)| (p.0, f(p.1))) == entries_insert(
            e.map_values(|p: (Seq<char>, V)| (p.0, f(p.1))),
            k,
            f(v),
        ),
    decreases e.len(),
{
    let g = |p: (Seq<char>, V)| (p.0, f(p.1));
    if e.len() == 0 {
        assert(entries_insert(e, k, v).map_values(g) =~= seq![(k, f(v))]);
    } else if e[0].0 == k {
        assert(entries_insert(e, k, v).map_values(g) =~= e.map_values(g).update(0, (k, f(v))));
    } else {
        lemma_entries_insert_map(e.drop_first(), k, v, f);
        assert(e.drop_first().map_values(g) =~= e.map_values(g).drop_first());
        assert(entries_insert(e, k, v).map_values(g) =~= seq![g(e[0])] + entries_insert(
            e.drop_first(),
            k,
            v,
        ).map_values(g));
    }
}

/// `IndexMap::new`: claims that the new map is empty.
#[verifier::external_body]
pub(crate) fn new_string_map() -> (m: IndexMap<String, String>)
    ensures
        string_map_entries(m) == Seq::<(Seq<char>, Seq<char>)>::empty(),
{
    IndexMap::new()
}

/// `IndexMap::insert`: claims what its documentation states — an existing
/// key keeps its place and takes the new value, a new key is appended last.
/// The keys of an `IndexMap` are always distinct, so the entry found is the
/// only one with that key.
#[verifier::external_body]
pub(crate) fn string_map_insert(m: &mut IndexMap<String, String>, key: String, value: String)
    ensures
        string_map_entries(*final(m)) == entries_insert(string_map_entries(*old(m)), key@, value@),
{
    m.insert(key, value);
}

/// `IndexMap::new`: claims that the new map is empty.
#[verifier::external_body]
pub(crate) fn new_action_map() -> (m: IndexMap<String, ActionConfig>)
    ensures
        action_map_entries(m) == Seq::<(Seq<char>, ActionConfig)>::empty(),
{
    IndexMap::new()
}

/// `IndexMap::insert`: claims what its documentation states — an existing
/// key keeps its place and takes the new value, a new key is appended last.
#[verifier::external_body]
pub(crate) fn action_map_insert(m: &mut IndexMap<String, ActionConfig>, key: String, value: ActionConfig)
    ensures
        action_map_entries(*final(m)) == entries_insert(action_map_entries(*old(m)), key@, value),
{
    m.insert(key, value);
}

} // verus!
