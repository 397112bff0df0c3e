//! A string-keyed map kept as a vector of entries with distinct keys.
//!
//! The contracts speak of two spec-level pictures of the same store: the
//! mathematical map [`AssocMap::view`] and the key sequence
//! [`AssocMap::keys`], which pins the enumeration order callers page
//! through.

use vstd::prelude::*;

verus! {

struct MapEntry<V> {
    key: String,
    val: V,
}

/// A map from strings to values of type `V`, stored in insertion order.
pub struct AssocMap<V> {
    entries: Vec<MapEntry<V>>,
}

spec fn map_of<V>(s: Seq<MapEntry<V>>) -> Map<Seq<char>, V>
    decreases s.len(),
{
    if s.len() == 0 {
        Map::empty()
    } else {
        map_of(s.drop_last()).insert(s.last().key@, s.last().val)
    }
}

spec fn keys_of<V>(s: Seq<MapEntry<V>>) -> Seq<Seq<char>> {
    s.map_values(|e: MapEntry<V>| e.key@)
}

spec fn distinct_keys<V>(s: Seq<MapEntry<V>>) -> bool {
    forall|i: int, j: int|
        0 <= i < j < s.len() ==> s[i].key@ != s[j].key@
}

proof fn lemma_map_of_contains<V>(s: Seq<MapEntry<V>>, k: Seq<char>)
    ensures
        map_of(s).contains_key(k) <==> exists|i: int| 0 <= i < s.len() && s[i].key@ == k,
    decreases s.len(),
{
    if s.len() > 0 {
        lemma_map_of_contains(s.drop_last(), k);
        if s.last().key@ == k {
            assert(s[s.len() - 1].key@ == k);
        } else if map_of(s).contains_key(k) {
            let i = choose|i: int| 0 <= i < s.drop_last().len() && s.drop_last()[i].key@ == k;
            assert(s[i].key@ == k);
        } else if exists|i: int| 0 <= i < s.len() && s[i].key@ == k {
            let i = choose|i: int| 0 <= i < s.len() && s[i].key@ == k;
            assert(s.drop_last()[i].key@ == k);
        }
    }
}

proof fn lemma_map_of_index<V>(s: Seq<MapEntry<V>>, i: int)
    requires
        distinct_keys(s),
        0 <= i < s.len(),
    ensures
        map_of(s).contains_key(s[i].key@),
        map_of(s)[s[i].key@] == s[i].val,
    decreases s.len(),
{
    lemma_map_of_contains(s, s[i].key@);
    if i < s.len() - 1 {
        assert(s[i].key@ != s.last().key@);
        assert(s.drop_last()[i] == s[i]);
        lemma_map_of_index(s.drop_last(), i);
    }
}

proof fn lemma_map_of_dom_len<V>(s: Seq<MapEntry<V>>)
    requires
        distinct_keys(s),
    ensures
        map_of(s).dom().len() == s.len(),
        map_of(s).dom().finite(),
    decreases s.len(),
{
    broadcast use vstd::set::axiom_set_insert_len, vstd::set::axiom_set_insert_finite;

    if s.len() > 0 {
        lemma_map_of_dom_len(s.drop_last());
        lemma_map_of_contains(s.drop_last(), s.last().key@);
        assert(forall|i: int|
            0 <= i < s.drop_last().len() ==> s.drop_last()[i] == s[i]);
        assert(!map_of(s.drop_last()).contains_key(s.last().key@));
        assert(map_of(s).dom() =~= map_of(s.drop_last()).dom().insert(s.last().key@));
    } else {
        assert(map_of(s).dom() =~= Set::<Seq<char>>::empty());
    }
}

impl<V> View for AssocMap<V> {
    type V = Map<Seq<char>, V>;

    closed spec fn view(&self) -> Map<Seq<char>, V> {
        map_of(self.entries@)
    }
}

impl<V> AssocMap<V> {
    /// The stored keys, in enumeration order.
    pub closed spec fn keys(self) -> Seq<Seq<char>> {
        keys_of(self.entries@)
    }

    /// No key is stored twice.
    pub closed spec fn wf(self) -> bool {
        distinct_keys(self.entries@)
    }

    /// Every stored key is in the map, and the map holds nothing else.
    pub proof fn lemma_keys_complete(self)
        requires
            self.wf(),
        ensures
            self@.dom().len() == self.keys().len(),
            self@.dom().finite(),
            forall|i: int|
                0 <= i < self.keys().len() ==> #[trigger] self@.contains_key(self.keys()[i]),
            forall|k: Seq<char>|
                self@.contains_key(k) ==> exists|i: int| 0 <= i < self.keys().len() && self.keys()[i] == k,
    {
        lemma_map_of_dom_len(self.entries@);
        assert forall|i: int|
            0 <= i < self.keys().len() implies #[trigger] self@.contains_key(self.keys()[i]) by {
            lemma_map_of_index(self.entries@, i);
        }
        assert forall|k: Seq<char>|
            self@.contains_key(k) implies exists|i: int|
                0 <= i < self.keys().len() && self.keys()[i] == k by {
            lemma_map_of_contains(self.entries@, k);
            let i = choose|i: int| 0 <= i < self.entries@.len() && self.entries@[i].key@ == k;
            assert(self.keys()[i] == k);
        }
    }

    /// An empty map.
    pub fn new() -> (r: Self)
        ensures
            r@ == Map::<Seq<char>, V>::empty(),
            r.keys() == Seq::<Seq<char>>::empty(),
            r.wf(),
    {
        let r = AssocMap { entries: Vec::new() };
        proof {
            assert(r.keys() =~= Seq::<Seq<char>>::empty());
        }
        r
    }

    /// How many entries are stored.
    pub fn len(&self) -> (n: usize)
        ensures
            n == self.keys().len(),
            self.wf() ==> n == self@.dom().len(),
    {
        proof {
            if self.wf() {
                lemma_map_of_dom_len(self.entries@);
            }
        }
        self.entries.len()
    }

    fn find(&self, key: &String) -> (r: Option<usize>)
        ensures
            match r {
                Some(i) => i < self.entries@.len() && self.entries@[i as int].key@ == key@,
                None => forall|i: int| 0 <= i < self.entries@.len() ==> self.entries@[i].key@ != key@,
            },
    {
        let n = self.entries.len();
        for i in 0..n
            invariant
                n == self.entries@.len(),
                forall|j: int| 0 <= j < i ==> self.entries@[j].key@ != key@,
        {
            if self.entries[i].key.eq(key) {
                return Some(i);
            }
        }
        None
    }

    /// The value stored under `key`, if any.
    pub fn get(&self, key: &String) -> (r: Option<&V>)
        requires
            self.wf(),
        ensures
            match r {
                Some(v) => self@.contains_key(key@) && *v == self@[key@],
                None => !self@.contains_key(key@),
            },
    {
        proof {
            lemma_map_of_contains(self.entries@, key@);
        }
        match self.find(key) {
            Some(i) => {
                proof {
                    lemma_map_of_index(self.entries@, i as int);
                }
                Some(&self.entries[i].val)
            },
            None => None,
        }
    }

    /// Stores `val` under `key`: an existing entry keeps its place in the
    /// enumeration order, a new one goes to the end.
    pub fn insert(&mut self, key: String, val: V)
        requires
            old(self).wf(),
        ensures
            final(self).wf(),
            final(self)@ == old(self)@.insert(key@, val),
            old(self)@.contains_key(key@) ==> final(self).keys() == old(self).keys(),
            !old(self)@.contains_key(key@) ==> final(self).keys() == old(self).keys().push(key@),
    {
        proof {
            lemma_map_of_contains(self.entries@, key@);
        }
        let ghost pre = self.entries@;
        match self.find(&key) {
            Some(i) => {
                self.entries.remove(i);
                self.entries.insert(i, MapEntry { key, val });
                proof {
                    assert(self.entries@ =~= pre.update(i as int, self.entries@[i as int]));
                    lemma_update_key(pre, self.entries@, i as int);
                }
            },
            None => {
                self.entries.push(MapEntry { key, val });
                proof {
                    assert(self.entries@.drop_last() =~= pre);
                    assert(final(self).keys() =~= old(self).keys().push(key@));
                }
            },
        }
    }

    /// Drops `key` and whatever it stored; its successors move up one place.
    pub fn remove(&mut self, key: &String)
        requires
            old(self).wf(),
        ensures
            final(self).wf(),
            final(self)@ == old(self)@.remove(key@),
            !old(self)@.contains_key(key@) ==> *final(self) == *old(self),
            old(self)@.contains_key(key@) ==> exists|i: int|
                0 <= i < old(self).keys().len() && old(self).keys()[i] == key@
                    && final(self).keys() == old(self).keys().remove(i),
    {
        proof {
            lemma_map_of_contains(self.entries@, key@);
        }
        let ghost pre = self.entries@;
        match self.find(key) {
            Some(i) => {
                self.entries.remove(i);
                proof {
                    assert(self.entries@ =~= pre.remove(i as int));
                    lemma_remove_key(pre, i as int);
                    assert(final(self).keys() =~= old(self).keys().remove(i as int));
                }
            },
            None => {
                proof {
                    assert(old(self)@ =~= old(self)@.remove(key@));
                }
            },
        }
    }

    /// The key at place `i` of the enumeration order.
    pub fn key_at(&self, i: usize) -> (k: &String)
        requires
            i < self.keys().len(),
        ensures
            k@ == self.keys()[i as int],
    {
        &self.entries[i].key
    }

    /// The value at place `i` of the enumeration order.
    pub fn val_at(&self, i: usize) -> (v: &V)
        requires
            self.wf(),
            i < self.keys().len(),
        ensures
            self@.contains_key(self.keys()[i as int]),
            *v == self@[self.keys()[i as int]],
    {
        proof {
            lemma_map_of_index(self.entries@, i as int);
        }
        &self.entries[i].val
    }

    /// Drops every entry.
    pub fn clear_all(&mut self)
        ensures
            final(self).wf(),
            final(self)@ == Map::<Seq<char>, V>::empty(),
            final(self).keys() == Seq::<Seq<char>>::empty(),
    {
        self.entries.clear();
        proof {
            assert(final(self).keys() =~= Seq::<Seq<char>>::empty());
        }
    }
}

impl AssocMap<String> {
    /// A fresh store with the same contents and order.
    pub fn duplicate(&self) -> (r: Self)
        requires
            self.wf(),
        ensures
            r.wf(),
            r@ == self@,
            r.keys() == self.keys(),
    {
        let n = self.entries.len();
        let mut out: Vec<MapEntry<String>> = Vec::new();
        for i in 0..n
            invariant
                n == self.entries@.len(),
                out@.len() == i,
                forall|j: int| 0 <= j < i ==> (#[trigger] out@[j]).key@ == self.entries@[j].key@
                    && out@[j].val == self.entries@[j].val,
        {
            let k = self.entries[i].key.clone();
            let v = self.entries[i].val.clone();
            assert(k@ == self.entries@[i as int].key@);
            assert(v == self.entries@[i as int].val);
            let ghost prev = out@;
            out.push(MapEntry { key: k, val: v });
            assert(forall|j: int| 0 <= j < prev.len() ==> #[trigger] out@[j] == prev[j]);
            assert(out@[i as int].key@ == self.entries@[i as int].key@);
            assert(out@[i as int].val == self.entries@[i as int].val);
        }
        let r = AssocMap { entries: out };
        proof {
            lemma_same_keys_vals(self.entries@, r.entries@);
            assert(r.keys() =~= self.keys());
        }
        r
    }
}

proof fn lemma_update_key<V>(pre: Seq<MapEntry<V>>, post: Seq<MapEntry<V>>, i: int)
    requires
        distinct_keys(pre),
        0 <= i < pre.len(),
        post.len() == pre.len(),
        post[i].key@ == pre[i].key@,
        forall|j: int| 0 <= j < pre.len() && j != i ==> post[j] == pre[j],
    ensures
        distinct_keys(post),
        map_of(post) == map_of(pre).insert(pre[i].key@, post[i].val),
        keys_of(post) == keys_of(pre),
    decreases pre.len(),
{
    assert(keys_of(post) =~= keys_of(pre));
    if i == pre.len() - 1 {
        assert(post.drop_last() =~= pre.drop_last());
        assert(map_of(post) =~= map_of(pre).insert(pre[i].key@, post[i].val));
    } else {
        assert(post.drop_last()[i].key@ == pre.drop_last()[i].key@);
        lemma_update_key(pre.drop_last(), post.drop_last(), i);
        lemma_map_of_contains(pre.drop_last(), pre[i].key@);
        assert(post.last() == pre.last());
        assert(map_of(post) =~= map_of(pre).insert(pre[i].key@, post[i].val));
    }
}

proof fn lemma_remove_key<V>(pre: Seq<MapEntry<V>>, i: int)
    requires
        distinct_keys(pre),
        0 <= i < pre.len(),
    ensures
        distinct_keys(pre.remove(i)),
        map_of(pre.remove(i)) == map_of(pre).remove(pre[i].key@),
    decreases pre.len(),
{
    let post = pre.remove(i);
    if i == pre.len() - 1 {
        assert(post =~= pre.drop_last());
        lemma_map_of_contains(pre.drop_last(), pre[i].key@);
        assert(map_of(pre.drop_last()) =~= map_of(pre).remove(pre[i].key@));
    } else {
        lemma_remove_key(pre.drop_last(), i);
        assert(pre.drop_last().remove(i) =~= post.drop_last());
        assert(post.last() == pre.last());
        assert(pre.drop_last()[i] == pre[i]);
        assert(map_of(post) =~= map_of(pre).remove(pre[i].key@));
    }
}

proof fn lemma_same_keys_vals(a: Seq<MapEntry<String>>, b: Seq<MapEntry<String>>)
    requires
        distinct_keys(a),
        b.len() == a.len(),
        forall|j: int| 0 <= j < a.len() ==> #[trigger] b[j].key@ == a[j].key@ && b[j].val == a[j].val,
    ensures
        distinct_keys(b),
        map_of(b) == map_of(a),
    decreases a.len(),
{
    if a.len() > 0 {
        lemma_same_keys_vals(a.drop_last(), b.drop_last());
        assert(map_of(b) =~= map_of(a));
    } else {
        assert(map_of(b) =~= map_of(a));
    }
}

} // verus!
