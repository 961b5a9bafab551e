//! An ordered association list keyed by strings: the in-memory form of the
//! per-device tables, kept in the order in which a `BTreeMap<String, _>`
//! keeps its keys (byte-wise lexicographic).
use vstd::prelude::*;
use vstd::utf8::{encode_utf8, decode_utf8, encode_utf8_decode_utf8};
use vstd::string::StringSliceAdditionalSpecFns;

verus! {

/// Byte-wise lexicographic order, the order of `str` and `String`.
pub open spec fn bytes_lt(a: Seq<u8>, b: Seq<u8>) -> bool
    decreases a.len(),
{
    if a.len() == 0 {
        b.len() > 0
    } else if b.len() == 0 {
        false
    } else if a[0] != b[0] {
        a[0] < b[0]
    } else {
        bytes_lt(a.drop_first(), b.drop_first())
    }
}

/// The order of string keys: their UTF-8 encodings compared byte by byte.
pub open spec fn key_lt(a: Seq<char>, b: Seq<char>) -> bool {
    bytes_lt(encode_utf8(a), encode_utf8(b))
}

pub proof fn lemma_bytes_lt_irreflexive(a: Seq<u8>)
    ensures
        !bytes_lt(a, a),
    decreases a.len(),
{
    if a.len() > 0 {
        lemma_bytes_lt_irreflexive(a.drop_first());
    }
}

pub proof fn lemma_bytes_lt_transitive(a: Seq<u8>, b: Seq<u8>, c: Seq<u8>)
    requires
        bytes_lt(a, b),
        bytes_lt(b, c),
    ensures
        bytes_lt(a, c),
    decreases a.len(),
{
    if a.len() > 0 && b.len() > 0 && c.len() > 0 && a[0] == b[0] && b[0] == c[0] {
        lemma_bytes_lt_transitive(a.drop_first(), b.drop_first(), c.drop_first());
    }
}

pub proof fn lemma_bytes_lt_total(a: Seq<u8>, b: Seq<u8>)
    ensures
        a == b || bytes_lt(a, b) || bytes_lt(b, a),
    decreases a.len(),
{
    if a.len() > 0 && b.len() > 0 && a[0] == b[0] {
        lemma_bytes_lt_total(a.drop_first(), b.drop_first());
        if a.drop_first() == b.drop_first() {
            assert(a =~= seq![a[0]] + a.drop_first());
            assert(b =~= seq![b[0]] + b.drop_first());
        }
    } else if a.len() == 0 && b.len() == 0 {
        assert(a =~= b);
    }
}

pub proof fn lemma_key_lt_total(a: Seq<char>, b: Seq<char>)
    ensures
        a == b || key_lt(a, b) || key_lt(b, a),
        !key_lt(a, a),
{
    lemma_bytes_lt_total(encode_utf8(a), encode_utf8(b));
    lemma_bytes_lt_irreflexive(encode_utf8(a));
    encode_utf8_decode_utf8(a);
    encode_utf8_decode_utf8(b);
}

/// Keys appear in strictly increasing order (hence each at most once).
pub open spec fn keys_sorted<T>(s: Seq<(Seq<char>, T)>) -> bool {
    forall|i: int, j: int| 0 <= i < j < s.len() ==> #[trigger] key_lt(s[i].0, s[j].0)
}

/// Whether key `k` occurs in `s`.
pub open spec fn has_key<T>(s: Seq<(Seq<char>, T)>, k: Seq<char>) -> bool {
    exists|i: int| 0 <= i < s.len() && #[trigger] s[i].0 == k
}

/// The map that an association list denotes.
pub open spec fn map_of<T>(s: Seq<(Seq<char>, T)>) -> Map<Seq<char>, T> {
    Map::new(
        |k: Seq<char>| has_key(s, k),
        |k: Seq<char>| s[choose|i: int| 0 <= i < s.len() && #[trigger] s[i].0 == k].1,
    )
}


/// The map of an association list has finitely many keys.
pub proof fn lemma_map_of_finite<T>(s: Seq<(Seq<char>, T)>)
    ensures
        map_of(s).dom().finite(),
{
    let keys = s.map_values(|e: (Seq<char>, T)| e.0);
    assert(map_of(s).dom() =~= keys.to_set()) by {
        assert forall|k: Seq<char>| map_of(s).dom().contains(k) implies keys.to_set().contains(k) by {
            let i = choose|i: int| 0 <= i < s.len() && #[trigger] s[i].0 == k;
            assert(keys[i] == k);
        }
        assert forall|k: Seq<char>| keys.to_set().contains(k) implies map_of(s).dom().contains(k) by {
            let i = choose|i: int| 0 <= i < keys.len() && keys[i] == k;
            assert(s[i].0 == k);
        }
    }
    vstd::seq_lib::seq_to_set_is_finite(keys);
}

/// In a sorted list each key occurs once, and the map sends it to its value.
pub proof fn lemma_map_of_index<T>(s: Seq<(Seq<char>, T)>, i: int)
    requires
        keys_sorted(s),
        0 <= i < s.len(),
    ensures
        map_of(s).dom().contains(s[i].0),
        map_of(s)[s[i].0] == s[i].1,
{
    assert(has_key(s, s[i].0));
    let c = choose|j: int| 0 <= j < s.len() && #[trigger] s[j].0 == s[i].0;
    if c != i {
        lemma_key_lt_total(s[i].0, s[i].0);
        if c < i {
            assert(key_lt(s[c].0, s[i].0));
        } else {
            assert(key_lt(s[i].0, s[c].0));
        }
    }
}

proof fn lemma_sorted_keys_distinct<T>(s: Seq<(Seq<char>, T)>, i: int, j: int)
    requires
        keys_sorted(s),
        0 <= i < s.len(),
        0 <= j < s.len(),
        i != j,
    ensures
        s[i].0 != s[j].0,
{
    lemma_key_lt_total(s[i].0, s[i].0);
    if i < j {
        assert(key_lt(s[i].0, s[j].0));
    } else {
        assert(key_lt(s[j].0, s[i].0));
    }
}

/// Inserting a new key at its sorted position.
proof fn lemma_insert_new<T>(s: Seq<(Seq<char>, T)>, p: int, k: Seq<char>, v: T)
    requires
        keys_sorted(s),
        0 <= p <= s.len(),
        forall|i: int| 0 <= i < p ==> key_lt(#[trigger] s[i].0, k),
        forall|i: int| p <= i < s.len() ==> key_lt(k, #[trigger] s[i].0),
    ensures
        keys_sorted(s.insert(p, (k, v))),
        map_of(s.insert(p, (k, v))) == map_of(s).insert(k, v),
{
    let t = s.insert(p, (k, v));
    assert forall|i: int, j: int| 0 <= i < j < t.len() implies #[trigger] key_lt(t[i].0, t[j].0) by {
        if j < p {
            assert(key_lt(s[i].0, s[j].0));
        } else if i < p && j == p {
        } else if i < p && j > p {
            assert(t[j] == s[j - 1]);
            assert(key_lt(s[i].0, s[j - 1].0));
        } else if i == p {
            assert(t[j] == s[j - 1]);
        } else {
            assert(t[i] == s[i - 1] && t[j] == s[j - 1]);
            assert(key_lt(s[i - 1].0, s[j - 1].0));
        }
    }
    let m = map_of(s).insert(k, v);
    assert forall|x: Seq<char>| #[trigger] map_of(t).dom().contains(x) <==> m.dom().contains(x) by {
        if has_key(t, x) {
            let i = choose|i: int| 0 <= i < t.len() && #[trigger] t[i].0 == x;
            if i < p {
                assert(s[i].0 == x);
            } else if i > p {
                assert(s[i - 1].0 == x);
            }
        }
        if has_key(s, x) {
            let i = choose|i: int| 0 <= i < s.len() && #[trigger] s[i].0 == x;
            if i < p {
                assert(t[i].0 == x);
            } else {
                assert(t[i + 1].0 == x);
            }
        }
        if x == k {
            assert(t[p].0 == x);
        }
    }
    assert forall|x: Seq<char>| #[trigger] map_of(t).dom().contains(x) implies map_of(t)[x] == m[x] by {
        let i = choose|i: int| 0 <= i < t.len() && #[trigger] t[i].0 == x;
        lemma_map_of_index(t, i);
        if i < p {
            lemma_map_of_index(s, i);
            lemma_key_lt_total(k, k);
        } else if i > p {
            lemma_map_of_index(s, i - 1);
            lemma_key_lt_total(k, k);
        }
    }
    assert(map_of(t) =~= m);
}

/// Replacing the value stored under an existing key.
proof fn lemma_replace<T>(s: Seq<(Seq<char>, T)>, p: int, v: T)
    requires
        keys_sorted(s),
        0 <= p < s.len(),
    ensures
        keys_sorted(s.update(p, (s[p].0, v))),
        map_of(s.update(p, (s[p].0, v))) == map_of(s).insert(s[p].0, v),
{
    let k = s[p].0;
    let t = s.update(p, (k, v));
    assert forall|i: int, j: int| 0 <= i < j < t.len() implies #[trigger] key_lt(t[i].0, t[j].0) by {
        assert(key_lt(s[i].0, s[j].0));
    }
    let m = map_of(s).insert(k, v);
    assert forall|x: Seq<char>| #[trigger] map_of(t).dom().contains(x) <==> m.dom().contains(x) by {
        if has_key(t, x) {
            let i = choose|i: int| 0 <= i < t.len() && #[trigger] t[i].0 == x;
            assert(s[i].0 == x);
        }
        if has_key(s, x) {
            let i = choose|i: int| 0 <= i < s.len() && #[trigger] s[i].0 == x;
            assert(t[i].0 == x);
        }
        if x == k {
            assert(t[p].0 == x);
        }
    }
    assert forall|x: Seq<char>| #[trigger] map_of(t).dom().contains(x) implies map_of(t)[x] == m[x] by {
        let i = choose|i: int| 0 <= i < t.len() && #[trigger] t[i].0 == x;
        lemma_map_of_index(t, i);
        if i != p {
            lemma_map_of_index(s, i);
            lemma_sorted_keys_distinct(s, i, p);
        }
    }
    assert(map_of(t) =~= m);
}

/// Removing the entry at `p`.
proof fn lemma_remove<T>(s: Seq<(Seq<char>, T)>, p: int)
    requires
        keys_sorted(s),
        0 <= p < s.len(),
    ensures
        keys_sorted(s.remove(p)),
        map_of(s.remove(p)) == map_of(s).remove(s[p].0),
{
    let k = s[p].0;
    let t = s.remove(p);
    assert forall|i: int, j: int| 0 <= i < j < t.len() implies #[trigger] key_lt(t[i].0, t[j].0) by {
        let a = if i < p { i } else { i + 1 };
        let b = if j < p { j } else { j + 1 };
        assert(t[i] == s[a] && t[j] == s[b]);
        assert(key_lt(s[a].0, s[b].0));
    }
    let m = map_of(s).remove(k);
    assert forall|x: Seq<char>| #[trigger] map_of(t).dom().contains(x) <==> m.dom().contains(x) by {
        if has_key(t, x) {
            let i = choose|i: int| 0 <= i < t.len() && #[trigger] t[i].0 == x;
            let a = if i < p { i } else { i + 1 };
            assert(s[a].0 == x);
            lemma_sorted_keys_distinct(s, a, p);
        }
        if has_key(s, x) && x != k {
            let i = choose|i: int| 0 <= i < s.len() && #[trigger] s[i].0 == x;
            if i < p {
                assert(t[i].0 == x);
            } else {
                assert(t[i - 1].0 == x);
            }
        }
    }
    assert forall|x: Seq<char>| #[trigger] map_of(t).dom().contains(x) implies map_of(t)[x] == m[x] by {
        let i = choose|i: int| 0 <= i < t.len() && #[trigger] t[i].0 == x;
        lemma_map_of_index(t, i);
        let a = if i < p { i } else { i + 1 };
        lemma_map_of_index(s, a);
    }
    assert(map_of(t) =~= m);
}

/// A string-keyed association list sorted by key.
pub struct KeyedList<T> {
    entries: Vec<(String, T)>,
}

impl<T> View for KeyedList<T> {
    type V = Seq<(Seq<char>, T)>;

    closed spec fn view(&self) -> Seq<(Seq<char>, T)> {
        self.entries@.map_values(|e: (String, T)| (e.0@, e.1))
    }
}

impl<T> KeyedList<T> {
    /// Keys are strictly increasing.
    pub open spec fn wf(&self) -> bool {
        keys_sorted(self@)
    }

    /// The map from keys to values.
    pub open spec fn spec_map(&self) -> Map<Seq<char>, T> {
        map_of(self@)
    }

    pub fn new() -> (r: Self)
        ensures
            r@ == Seq::<(Seq<char>, T)>::empty(),
            r.wf(),
    {
        let r = KeyedList { entries: Vec::new() };
        assert(r@ =~= Seq::<(Seq<char>, T)>::empty());
        r
    }

    pub fn len(&self) -> (n: usize)
        ensures
            n == self@.len(),
    {
        self.entries.len()
    }

    pub fn key_at(&self, i: usize) -> (k: &String)
        requires
            i < self@.len(),
        ensures
            k@ == self@[i as int].0,
    {
        &self.entries[i].0
    }

    pub fn value_at(&self, i: usize) -> (v: &T)
        requires
            i < self@.len(),
        ensures
            *v == self@[i as int].1,
    {
        &self.entries[i].1
    }


    /// Stores `value` under `key`, returning the value it replaces, if any.
    pub fn insert(&mut self, key: String, value: T) -> (r: Option<T>)
        requires
            old(self).wf(),
        ensures
            final(self).wf(),
            final(self).spec_map() == old(self).spec_map().insert(key@, value),
            r == (if old(self).spec_map().dom().contains(key@) {
                Some(old(self).spec_map()[key@])
            } else {
                None
            }),
    {
        let (p, found) = self.position(&key);
        let ghost s = self@;
        let ghost k = key@;
        if found {
            proof {
                lemma_map_of_index(s, p as int);
                lemma_replace(s, p as int, value);
            }
            let old_entry = self.entries.remove(p);
            self.entries.insert(p, (key, value));
            assert(self@ =~= s.update(p as int, (k, value)));
            Some(old_entry.1)
        } else {
            proof {
                lemma_insert_new(s, p as int, k, value);
            }
            self.entries.insert(p, (key, value));
            assert(self@ =~= s.insert(p as int, (k, value)));
            None
        }
    }

    /// Removes the entry stored under `key`, returning its value, if any.
    pub fn remove(&mut self, key: &String) -> (r: Option<T>)
        requires
            old(self).wf(),
        ensures
            final(self).wf(),
            final(self).spec_map() == old(self).spec_map().remove(key@),
            r == (if old(self).spec_map().dom().contains(key@) {
                Some(old(self).spec_map()[key@])
            } else {
                None
            }),
    {
        let (p, found) = self.position(key);
        let ghost s = self@;
        if found {
            proof {
                lemma_map_of_index(s, p as int);
                lemma_remove(s, p as int);
            }
            let old_entry = self.entries.remove(p);
            assert(self@ =~= s.remove(p as int));
            Some(old_entry.1)
        } else {
            assert(map_of(s).remove(key@) =~= map_of(s));
            None
        }
    }

    /// The value stored under `key`, if any.
    pub fn get(&self, key: &String) -> (r: Option<&T>)
        requires
            self.wf(),
        ensures
            r == (if self.spec_map().dom().contains(key@) {
                Some(&self.spec_map()[key@])
            } else {
                None
            }),
    {
        let (p, found) = self.position(key);
        if found {
            proof {
                lemma_map_of_index(self@, p as int);
            }
            Some(&self.entries[p].1)
        } else {
            None
        }
    }

    /// The first position whose key is not below `key`, and whether the key
    /// there equals `key`.
    fn position(&self, key: &String) -> (r: (usize, bool))
        requires
            self.wf(),
        ensures
            r.0 <= self@.len(),
            forall|i: int| 0 <= i < r.0 ==> key_lt(#[trigger] self@[i].0, key@),
            forall|i: int| r.0 <= i < self@.len() && !(r.1 && i == r.0) ==> key_lt(key@, #[trigger] self@[i].0),
            r.1 ==> r.0 < self@.len() && self@[r.0 as int].0 == key@,
            r.1 <==> has_key(self@, key@),
    {
        let mut i: usize = 0;
        while i < self.entries.len()
            invariant
                self.wf(),
                i <= self@.len(),
                self@.len() == self.entries@.len(),
                forall|j: int| 0 <= j < i ==> key_lt(#[trigger] self@[j].0, key@),
            decreases self@.len() - i,
        {
            assert(self@[i as int].0 == self.entries@[i as int].0@);
            let below = key_lt_exec(&self.entries[i].0, key);
            if !below {
                let equal = self.entries[i].0 == *key;
                proof {
                    lemma_key_lt_total(self@[i as int].0, key@);
                    assert forall|j: int| i <= j < self@.len() && !(equal && j == i) implies key_lt(key@, #[trigger] self@[j].0) by {
                        if j > i {
                            assert(key_lt(self@[i as int].0, self@[j].0));
                            if self@[i as int].0 != key@ {
                                lemma_bytes_lt_transitive(encode_utf8(key@), encode_utf8(self@[i as int].0), encode_utf8(self@[j].0));
                            }
                        }
                    }
                    if !equal {
                        assert forall|j: int| 0 <= j < self@.len() implies #[trigger] self@[j].0 != key@ by {
                            lemma_key_lt_total(self@[j].0, key@);
                        }
                    }
                }
                return (i, equal);
            }
            i = i + 1;
        }
        proof {
            assert forall|j: int| 0 <= j < self@.len() implies #[trigger] self@[j].0 != key@ by {
                lemma_key_lt_total(self@[j].0, key@);
            }
        }
        (i, false)
    }
}

/// Compares two strings in byte-wise lexicographic order.
pub fn key_lt_exec(a: &String, b: &String) -> (r: bool)
    ensures
        r == key_lt(a@, b@),
{
    let x = a.as_str().as_bytes();
    let y = b.as_str().as_bytes();
    let ghost xs = x@;
    let ghost ys = y@;
    assert(xs == encode_utf8(a@));
    assert(ys == encode_utf8(b@));
    assert(xs.skip(0) =~= xs);
    assert(ys.skip(0) =~= ys);
    let mut i: usize = 0;
    while i < x.len() && i < y.len()
        invariant
            xs == x@,
            ys == y@,
            xs == encode_utf8(a@),
            ys == encode_utf8(b@),
            i <= xs.len(),
            i <= ys.len(),
            bytes_lt(xs, ys) == bytes_lt(xs.skip(i as int), ys.skip(i as int)),
        decreases xs.len() - i,
    {
        if x[i] != y[i] {
            assert(xs.skip(i as int)[0] == xs[i as int]);
            assert(ys.skip(i as int)[0] == ys[i as int]);
            assert(xs.skip(i as int).len() > 0 && ys.skip(i as int).len() > 0);
            assert(bytes_lt(xs.skip(i as int), ys.skip(i as int)) == (xs[i as int] < ys[i as int]));
            return x[i] < y[i];
        }
        assert(xs.skip(i as int).drop_first() =~= xs.skip(i + 1));
        assert(ys.skip(i as int).drop_first() =~= ys.skip(i + 1));
        i = i + 1;
    }
    x.len() < y.len()
}

/// The table that `insert` and `remove` leave, as `get` reads it: an inserted
/// key gives back the value written, other keys keep theirs, and a removed
/// key is gone while the others stay.
pub proof fn reads_after_writes<T>(list: KeyedList<T>, key: Seq<char>, value: T, other: Seq<char>)
    requires
        other != key,
    ensures
        list.spec_map().insert(key, value).dom().contains(key),
        list.spec_map().insert(key, value)[key] == value,
        list.spec_map().insert(key, value).dom().contains(other) == list.spec_map().dom().contains(other),
        list.spec_map().dom().contains(other) ==> list.spec_map().insert(key, value)[other] == list.spec_map()[other],
        !list.spec_map().remove(key).dom().contains(key),
        list.spec_map().remove(key).dom().contains(other) == list.spec_map().dom().contains(other),
        list.spec_map().dom().contains(other) ==> list.spec_map().remove(key)[other] == list.spec_map()[other],
{
}

} // verus!
