//! Lists of entries with distinct keys, and the maps they stand for.
//!
//! Several types of the library keep a map by name as a list of entries in which
//! each key occurs once; their contracts speak of the map.
use vstd::prelude::*;

verus! {

/// The keys of a list of entries, in order.
pub open spec fn keys_of<K, V>(s: Seq<(K, V)>) -> Seq<K> {
    s.map_values(|e: (K, V)| e.0)
}

/// The map that a list of entries stands for; of two entries with one key, the
/// later one wins.
pub open spec fn keyed_map<K, V>(s: Seq<(K, V)>) -> Map<K, V>
    decreases s.len(),
{
    if s.len() == 0 {
        Map::empty()
    } else {
        keyed_map(s.drop_last()).insert(s.last().0, s.last().1)
    }
}

proof fn lemma_keys_drop_last<K, V>(s: Seq<(K, V)>)
    requires
        s.len() > 0,
    ensures
        keys_of(s.drop_last()) == keys_of(s).drop_last(),
        keys_of(s).no_duplicates() ==> keys_of(s.drop_last()).no_duplicates(),
        keys_of(s).no_duplicates() ==> !keys_of(s.drop_last()).contains(s.last().0),
{
    assert(keys_of(s.drop_last()) =~= keys_of(s).drop_last());
    if keys_of(s).no_duplicates() {
        assert(keys_of(s).last() == s.last().0);
        if keys_of(s.drop_last()).contains(s.last().0) {
            let j = choose|j: int| 0 <= j < keys_of(s.drop_last()).len() && keys_of(s.drop_last())[j] == s.last().0;
            assert(keys_of(s)[j] == keys_of(s)[s.len() - 1]);
        }
    }
}

/// A key is in the map exactly when some entry has it.
pub proof fn lemma_keyed_map_dom<K, V>(s: Seq<(K, V)>)
    ensures
        forall|k: K| #[trigger] keyed_map(s).contains_key(k) <==> keys_of(s).contains(k),
        keyed_map(s).dom().finite(),
    decreases s.len(),
{
    if s.len() > 0 {
        let q = s.drop_last();
        lemma_keyed_map_dom(q);
        lemma_keys_drop_last(s);
        assert forall|k: K| #[trigger] keyed_map(s).contains_key(k) <==> keys_of(s).contains(k) by {
            if k == s.last().0 {
                assert(keys_of(s)[s.len() - 1] == k);
            } else {
                if keyed_map(s).contains_key(k) {
                    let j = choose|j: int| 0 <= j < keys_of(q).len() && keys_of(q)[j] == k;
                    assert(keys_of(s)[j] == k);
                }
                if keys_of(s).contains(k) {
                    let j = choose|j: int| 0 <= j < keys_of(s).len() && keys_of(s)[j] == k;
                    assert(j < s.len() - 1);
                    assert(keys_of(q)[j] == k);
                }
            }
        }
    }
}

/// In a list with distinct keys, the map gives each entry's value to its key.
pub proof fn lemma_keyed_map_at<K, V>(s: Seq<(K, V)>, i: int)
    requires
        0 <= i < s.len(),
        keys_of(s).no_duplicates(),
    ensures
        keyed_map(s).contains_key(s[i].0),
        keyed_map(s)[s[i].0] == s[i].1,
    decreases s.len(),
{
    if i < s.len() - 1 {
        let q = s.drop_last();
        lemma_keys_drop_last(s);
        lemma_keyed_map_at(q, i);
        assert(keys_of(s)[i] != keys_of(s)[s.len() - 1]);
    }
}

/// Replacing the value of an entry replaces the value of its key, and keeps the keys.
pub proof fn lemma_keyed_map_update<K, V>(s: Seq<(K, V)>, i: int, v: V)
    requires
        0 <= i < s.len(),
        keys_of(s).no_duplicates(),
    ensures
        keys_of(s.update(i, (s[i].0, v))) == keys_of(s),
        keyed_map(s.update(i, (s[i].0, v))) == keyed_map(s).insert(s[i].0, v),
    decreases s.len(),
{
    let t = s.update(i, (s[i].0, v));
    assert(keys_of(t) =~= keys_of(s));
    if i == s.len() - 1 {
        assert(t.drop_last() =~= s.drop_last());
        assert(keyed_map(t) =~= keyed_map(s).insert(s[i].0, v));
    } else {
        let q = s.drop_last();
        lemma_keys_drop_last(s);
        lemma_keyed_map_update(q, i, v);
        assert(t.drop_last() =~= q.update(i, (q[i].0, v)));
        assert(keys_of(s)[i] != keys_of(s)[s.len() - 1]);
        assert(keyed_map(t) =~= keyed_map(s).insert(s[i].0, v));
    }
}

/// Adding an entry with a new key adds the key to the map, and keeps the keys
/// distinct.
pub proof fn lemma_keyed_map_push<K, V>(s: Seq<(K, V)>, k: K, v: V)
    requires
        keys_of(s).no_duplicates(),
        !keys_of(s).contains(k),
    ensures
        keys_of(s.push((k, v))) == keys_of(s).push(k),
        keys_of(s.push((k, v))).no_duplicates(),
        keyed_map(s.push((k, v))) == keyed_map(s).insert(k, v),
{
    let t = s.push((k, v));
    assert(t.drop_last() =~= s);
    assert(keys_of(t) =~= keys_of(s).push(k));
    assert forall|a: int, b: int| 0 <= a < b < keys_of(t).len() implies keys_of(t)[a] != keys_of(t)[b] by {
        if b == s.len() {
            assert(keys_of(s)[a] == keys_of(t)[a]);
        } else {
            assert(keys_of(s)[a] == keys_of(t)[a]);
            assert(keys_of(s)[b] == keys_of(t)[b]);
        }
    }
}

/// Removing an entry of a list with distinct keys removes its key from the map.
pub proof fn lemma_keyed_map_remove<K, V>(s: Seq<(K, V)>, i: int)
    requires
        0 <= i < s.len(),
        keys_of(s).no_duplicates(),
    ensures
        keys_of(s.remove(i)) == keys_of(s).remove(i),
        keys_of(s.remove(i)).no_duplicates(),
        keyed_map(s.remove(i)) == keyed_map(s).remove(s[i].0),
    decreases s.len(),
{
    let t = s.remove(i);
    assert(keys_of(t) =~= keys_of(s).remove(i));
    assert forall|a: int, b: int| 0 <= a < b < keys_of(t).len() implies keys_of(t)[a] != keys_of(t)[b] by {
        let a2 = if a < i { a } else { a + 1 };
        let b2 = if b < i { b } else { b + 1 };
        assert(keys_of(t)[a] == keys_of(s)[a2]);
        assert(keys_of(t)[b] == keys_of(s)[b2]);
    }
    let q = s.drop_last();
    lemma_keys_drop_last(s);
    lemma_keyed_map_dom(q);
    if i == s.len() - 1 {
        assert(t =~= q);
        assert(!keyed_map(q).contains_key(s.last().0));
        assert(keyed_map(t) =~= keyed_map(s).remove(s[i].0));
    } else {
        lemma_keyed_map_remove(q, i);
        assert(t.drop_last() =~= q.remove(i));
        assert(t.last() == s.last());
        assert(keys_of(s)[i] != keys_of(s)[s.len() - 1]);
        assert(keyed_map(t) =~= keyed_map(s).remove(s[i].0));
    }
}

/// With distinct keys, the map has one key per entry.
pub proof fn lemma_keyed_map_len<K, V>(s: Seq<(K, V)>)
    requires
        keys_of(s).no_duplicates(),
    ensures
        keyed_map(s).dom().len() == s.len(),
    decreases s.len(),
{
    lemma_keyed_map_dom(s);
    if s.len() > 0 {
        let q = s.drop_last();
        lemma_keys_drop_last(s);
        lemma_keyed_map_len(q);
        lemma_keyed_map_dom(q);
        assert(!keyed_map(q).contains_key(s.last().0));
    }
}

/// Changing the value of every entry with key `k` by `f` changes the value of `k`
/// in the map by `f`, whether or not the keys are distinct.
pub proof fn lemma_keyed_map_update_key<K, V>(s: Seq<(K, V)>, t: Seq<(K, V)>, k: K, f: spec_fn(V) -> V)
    requires
        s.len() == t.len(),
        forall|j: int| 0 <= j < s.len() ==> #[trigger] t[j] == (if s[j].0 == k { (k, f(s[j].1)) } else { s[j] }),
    ensures
        keyed_map(t) == (if keyed_map(s).contains_key(k) {
            keyed_map(s).insert(k, f(keyed_map(s)[k]))
        } else {
            keyed_map(s)
        }),
    decreases s.len(),
{
    if s.len() > 0 {
        let sd = s.drop_last();
        let td = t.drop_last();
        assert forall|j: int| 0 <= j < sd.len() implies #[trigger] td[j] == (if sd[j].0 == k { (k, f(sd[j].1)) } else { sd[j] }) by {
            assert(td[j] == t[j]);
            assert(sd[j] == s[j]);
        }
        lemma_keyed_map_update_key(sd, td, k, f);
        assert(t.last() == t[t.len() - 1]);
        if s.last().0 == k {
            assert(keyed_map(t) =~= keyed_map(s).insert(k, f(keyed_map(s)[k])));
        } else {
            assert(t.last() == s.last());
            if keyed_map(s).contains_key(k) {
                assert(keyed_map(t) =~= keyed_map(s).insert(k, f(keyed_map(s)[k])));
            } else {
                assert(keyed_map(t) =~= keyed_map(s));
            }
        }
    }
}

/// The text of each name, in order.
pub open spec fn name_texts(names: Seq<String>) -> Seq<Seq<char>> {
    names.map_values(|n: String| n@)
}

/// Names and values held side by side, as entries keyed by name.
pub open spec fn named_entries<T: View>(names: Seq<String>, vals: Seq<T>) -> Seq<(Seq<char>, T::V)> {
    Seq::new(vals.len(), |i: int| (names[i]@, vals[i]@))
}

/// The keys of names and values held side by side are the names.
pub proof fn lemma_named_keys<T: View>(names: Seq<String>, vals: Seq<T>)
    requires
        names.len() == vals.len(),
    ensures
        keys_of(named_entries(names, vals)) == name_texts(names),
{
    assert(keys_of(named_entries(names, vals)) =~= name_texts(names));
}

/// Replacing a value replaces the value of its entry.
pub proof fn lemma_named_update<T: View>(names: Seq<String>, vals: Seq<T>, i: int, x: T)
    requires
        names.len() == vals.len(),
        0 <= i < vals.len(),
    ensures
        named_entries(names, vals.update(i, x)) == named_entries(names, vals).update(i, (names[i]@, x@)),
{
    assert(named_entries(names, vals.update(i, x)) =~= named_entries(names, vals).update(i, (names[i]@, x@)));
}

/// Adding a name and a value adds their entry.
pub proof fn lemma_named_push<T: View>(names: Seq<String>, vals: Seq<T>, n: String, x: T)
    requires
        names.len() == vals.len(),
    ensures
        named_entries(names.push(n), vals.push(x)) == named_entries(names, vals).push((n@, x@)),
{
    assert(named_entries(names.push(n), vals.push(x)) =~= named_entries(names, vals).push((n@, x@)));
}

/// Removing a name and its value removes their entry.
pub proof fn lemma_named_remove<T: View>(names: Seq<String>, vals: Seq<T>, i: int)
    requires
        names.len() == vals.len(),
        0 <= i < vals.len(),
    ensures
        named_entries(names.remove(i), vals.remove(i)) == named_entries(names, vals).remove(i),
{
    assert(named_entries(names.remove(i), vals.remove(i)) =~= named_entries(names, vals).remove(i));
}

/// The value of a key is that of the last entry with the key.
pub proof fn lemma_keyed_map_last<K, V>(s: Seq<(K, V)>, i: int)
    requires
        0 <= i < s.len(),
        forall|j: int| i < j < s.len() ==> s[j].0 != s[i].0,
    ensures
        keyed_map(s).contains_key(s[i].0),
        keyed_map(s)[s[i].0] == s[i].1,
    decreases s.len(),
{
    if i < s.len() - 1 {
        let q = s.drop_last();
        assert forall|j: int| i < j < q.len() implies q[j].0 != q[i].0 by {
            assert(q[j] == s[j]);
        }
        lemma_keyed_map_last(q, i);
        assert(s[s.len() - 1].0 != s[i].0);
    }
}

} // verus!
