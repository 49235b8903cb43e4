use vstd::prelude::*;
use vstd::string::StrSliceExecFns;
use vstd::string::StringExecFns;
use crate::text::{
    compare_text, text_lt, lemma_text_lt_irreflexive, lemma_text_lt_total, lemma_text_lt_transitive,
};

verus! {

pub type Key = String;

pub type Value = String;

/// What `str::to_lowercase` makes of a text.
pub uninterp spec fn lower_of(s: Seq<char>) -> Seq<char>;

/// What `str::to_uppercase` makes of a text.
pub uninterp spec fn upper_of(s: Seq<char>) -> Seq<char>;

/// Relies on `str::to_lowercase`: the lower-case form of a text depends on
/// its characters alone.
#[verifier::external_body]
fn lowercase(s: &str) -> (r: String)
    ensures
        r@ == lower_of(s@),
{
    s.to_lowercase()
}

/// Relies on `str::to_uppercase`: the upper-case form of a text depends on
/// its characters alone.
#[verifier::external_body]
fn uppercase(s: &str) -> (r: String)
    ensures
        r@ == upper_of(s@),
{
    s.to_uppercase()
}

/// The entries of a header collection, as pairs of key and value.
pub type Entries = Seq<(Seq<char>, Seq<char>)>;

/// The keys of `s` stand in strictly increasing order, so no key is repeated.
pub open spec fn sorted_keys(s: Entries) -> bool {
    forall|i: int, j: int| 0 <= i < j < s.len() ==> text_lt(#[trigger] s[i].0, #[trigger] s[j].0)
}

/// Whether some entry of `s` has the key `k`.
pub open spec fn has_key(s: Entries, k: Seq<char>) -> bool {
    exists|i: int| 0 <= i < s.len() && #[trigger] s[i].0 == k
}

/// The place of the entry with key `k` in `s`.
pub open spec fn key_index(s: Entries, k: Seq<char>) -> int {
    choose|i: int| 0 <= i < s.len() && #[trigger] s[i].0 == k
}

/// The value that `s` holds for `k`, if any.
pub open spec fn lookup(s: Entries, k: Seq<char>) -> Option<Seq<char>> {
    if has_key(s, k) {
        Some(s[key_index(s, k)].1)
    } else {
        None
    }
}

/// The keys of `s` before place `j` come before `k`, and those from `j` on
/// come after it.
pub open spec fn splits_at(s: Entries, k: Seq<char>, j: int) -> bool {
    &&& 0 <= j <= s.len()
    &&& forall|i: int| 0 <= i < j ==> text_lt(#[trigger] s[i].0, k)
    &&& forall|i: int| j <= i < s.len() ==> text_lt(k, #[trigger] s[i].0)
}

/// The place at which a new key `k` goes so that the keys stay in order.
pub open spec fn insert_index(s: Entries, k: Seq<char>) -> int {
    choose|j: int| #[trigger] splits_at(s, k, j)
}

/// `s` with `k` bound to `v`: the value of an entry with key `k` is replaced,
/// or else a new entry is put in its place in the order of keys.
pub open spec fn put(s: Entries, k: Seq<char>, v: Seq<char>) -> Entries {
    if has_key(s, k) {
        s.update(key_index(s, k), (k, v))
    } else {
        s.insert(insert_index(s, k), (k, v))
    }
}

/// `s` without the entry of key `k`, if it has one.
pub open spec fn without(s: Entries, k: Seq<char>) -> Entries {
    if has_key(s, k) {
        s.remove(key_index(s, k))
    } else {
        s
    }
}

/// The key as it is written on the wire: its first character in upper case,
/// the rest as stored.
pub open spec fn capitalized(k: Seq<char>) -> Seq<char> {
    if k.len() == 0 {
        k
    } else {
        upper_of(k.take(1)) + k.skip(1)
    }
}

/// The wire form of one entry.
pub open spec fn header_line(e: (Seq<char>, Seq<char>)) -> Seq<char> {
    capitalized(e.0) + ": "@ + e.1 + "\r\n"@
}

/// The wire form of all entries, one line each, in order.
pub open spec fn header_lines(s: Entries) -> Seq<char>
    decreases s.len(),
{
    if s.len() == 0 {
        Seq::empty()
    } else {
        header_lines(s.drop_last()) + header_line(s.last())
    }
}

proof fn lemma_key_index(s: Entries, k: Seq<char>, i: int)
    requires
        sorted_keys(s),
        0 <= i < s.len(),
        s[i].0 == k,
    ensures
        has_key(s, k),
        key_index(s, k) == i,
        lookup(s, k) == Some(s[i].1),
{
    let j = key_index(s, k);
    if j < i {
        assert(text_lt(s[j].0, s[i].0));
        lemma_text_lt_irreflexive(k);
    } else if i < j {
        assert(text_lt(s[i].0, s[j].0));
        lemma_text_lt_irreflexive(k);
    }
}

proof fn lemma_insert_index(s: Entries, k: Seq<char>, j: int)
    requires
        splits_at(s, k, j),
    ensures
        insert_index(s, k) == j,
        !has_key(s, k),
{
    let q = insert_index(s, k);
    lemma_text_lt_irreflexive(k);
    if q < j {
        assert(text_lt(k, s[q].0));
        assert(text_lt(s[q].0, k));
        lemma_text_lt_transitive(k, s[q].0, k);
    } else if j < q {
        assert(text_lt(k, s[j].0));
        assert(text_lt(s[j].0, k));
        lemma_text_lt_transitive(k, s[j].0, k);
    }
    if has_key(s, k) {
        let i = choose|i: int| 0 <= i < s.len() && #[trigger] s[i].0 == k;
        if i < j {
            assert(text_lt(s[i].0, k));
        } else {
            assert(text_lt(k, s[i].0));
        }
    }
}

proof fn lemma_insert_sorted(s: Entries, k: Seq<char>, v: Seq<char>, j: int)
    requires
        sorted_keys(s),
        splits_at(s, k, j),
    ensures
        sorted_keys(s.insert(j, (k, v))),
{
    let t = s.insert(j, (k, v));
    assert forall|a: int, b: int| 0 <= a < b < t.len() implies text_lt(
        #[trigger] t[a].0,
        #[trigger] t[b].0,
    ) by {
        if b < j {
            assert(text_lt(s[a].0, s[b].0));
        } else if b == j {
            assert(text_lt(s[a].0, k));
        } else if a < j {
            assert(text_lt(s[a].0, k));
            assert(text_lt(k, s[b - 1].0));
            lemma_text_lt_transitive(s[a].0, k, s[b - 1].0);
        } else if a == j {
            assert(text_lt(k, s[b - 1].0));
        } else {
            assert(text_lt(s[a - 1].0, s[b - 1].0));
        }
    }
}

/// Binding a key keeps the keys in order.
pub proof fn lemma_put_sorted(s: Entries, k: Seq<char>, v: Seq<char>)
    requires
        sorted_keys(s),
    ensures
        sorted_keys(put(s, k, v)),
{
    if has_key(s, k) {
        let i = key_index(s, k);
        let t = s.update(i, (k, v));
        assert forall|a: int, b: int| 0 <= a < b < t.len() implies text_lt(
            #[trigger] t[a].0,
            #[trigger] t[b].0,
        ) by {
            assert(text_lt(s[a].0, s[b].0));
        }
    } else {
        lemma_split_exists(s, k);
        let j = choose|j: int| splits_at(s, k, j);
        lemma_insert_index(s, k, j);
        lemma_insert_sorted(s, k, v, j);
    }
}

proof fn lemma_split_exists(s: Entries, k: Seq<char>)
    requires
        sorted_keys(s),
        !has_key(s, k),
    ensures
        exists|j: int| splits_at(s, k, j),
    decreases s.len(),
{
    if s.len() == 0 {
        assert(splits_at(s, k, 0));
    } else {
        let p = s.drop_last();
        assert(sorted_keys(p)) by {
            assert forall|a: int, b: int| 0 <= a < b < p.len() implies text_lt(
                #[trigger] p[a].0,
                #[trigger] p[b].0,
            ) by {
                assert(text_lt(s[a].0, s[b].0));
            }
        }
        assert(!has_key(p, k)) by {
            if has_key(p, k) {
                let i = choose|i: int| 0 <= i < p.len() && #[trigger] p[i].0 == k;
                assert(s[i].0 == k);
            }
        }
        lemma_split_exists(p, k);
        let j = choose|j: int| splits_at(p, k, j);
        let last = s.len() - 1;
        assert forall|i: int| 0 <= i < j implies text_lt(#[trigger] s[i].0, k) by {
            assert(text_lt(p[i].0, k));
        }
        if j < p.len() {
            assert(text_lt(k, s[last].0)) by {
                assert(text_lt(k, p[j].0));
                assert(text_lt(s[j].0, s[last].0));
                lemma_text_lt_transitive(k, s[j].0, s[last].0);
            }
            assert forall|i: int| j <= i < s.len() implies text_lt(k, #[trigger] s[i].0) by {
                if i < last {
                    assert(text_lt(k, p[i].0));
                }
            }
            assert(splits_at(s, k, j));
        } else {
            lemma_text_lt_total(s[last].0, k);
            if text_lt(s[last].0, k) {
                assert(splits_at(s, k, s.len() as int));
            } else {
                assert(s[last].0 != k);
                assert(splits_at(s, k, j));
            }
        }
    }
}

/// After a key is bound to a value, looking the key up gives that value, and
/// the collection has grown by one entry exactly when the key was new.
pub proof fn lemma_put_lookup(s: Entries, k: Seq<char>, v: Seq<char>)
    requires
        sorted_keys(s),
    ensures
        lookup(put(s, k, v), k) == Some(v),
        put(s, k, v).len() == if has_key(s, k) { s.len() } else { s.len() + 1 },
{
    lemma_put_sorted(s, k, v);
    let t = put(s, k, v);
    if has_key(s, k) {
        lemma_key_index(t, k, key_index(s, k));
    } else {
        lemma_split_exists(s, k);
        let j = choose|j: int| splits_at(s, k, j);
        lemma_insert_index(s, k, j);
        lemma_key_index(t, k, j);
    }
}

/// Binding two keys that differ only in case, one after the other, leaves
/// one entry for them, which holds the second value: the same collection as
/// the second binding alone.
pub proof fn lemma_reinsert_overwrites(
    s: Entries,
    k1: Seq<char>,
    v1: Seq<char>,
    k2: Seq<char>,
    v2: Seq<char>,
)
    requires
        sorted_keys(s),
        lower_of(k1) == lower_of(k2),
    ensures
        put(put(s, lower_of(k1), v1), lower_of(k2), v2) == put(s, lower_of(k2), v2),
        put(put(s, lower_of(k1), v1), lower_of(k2), v2).len() == put(s, lower_of(k1), v1).len(),
{
    let k = lower_of(k1);
    lemma_put_sorted(s, k, v1);
    let t = put(s, k, v1);
    if has_key(s, k) {
        let i = key_index(s, k);
        lemma_key_index(t, k, i);
        assert(put(t, k, v2) =~= put(s, k, v2));
    } else {
        lemma_split_exists(s, k);
        let j = choose|j: int| splits_at(s, k, j);
        lemma_insert_index(s, k, j);
        lemma_key_index(t, k, j);
        assert(put(t, k, v2) =~= put(s, k, v2));
    }
}

/// Once the entry of a key is taken out, looking the key up gives nothing.
pub proof fn lemma_without_lookup(s: Entries, k: Seq<char>)
    requires
        sorted_keys(s),
    ensures
        lookup(without(s, k), k) is None,
        sorted_keys(without(s, k)),
{
    if has_key(s, k) {
        let i = key_index(s, k);
        let t = s.remove(i);
        assert forall|a: int, b: int| 0 <= a < b < t.len() implies text_lt(
            #[trigger] t[a].0,
            #[trigger] t[b].0,
        ) by {
            if a < i && b >= i {
                assert(text_lt(s[a].0, s[b + 1].0));
            } else if a >= i {
                assert(text_lt(s[a + 1].0, s[b + 1].0));
            } else {
                assert(text_lt(s[a].0, s[b].0));
            }
        }
        if has_key(t, k) {
            let q = choose|q: int| 0 <= q < t.len() && #[trigger] t[q].0 == k;
            if q < i {
                assert(text_lt(s[q].0, s[i].0));
            } else {
                assert(text_lt(s[i].0, s[q + 1].0));
            }
            lemma_text_lt_irreflexive(k);
        }
    }
}

/// A collection of headers: values by key, where keys are kept in lower case
/// and in increasing order, so that keys that differ only in case are one.
#[derive(Debug)]
pub struct Headers {
    headers: Vec<(Key, Value)>,
}

impl View for Headers {
    type V = Entries;

    closed spec fn view(&self) -> Entries {
        self.headers@.map_values(|e: (Key, Value)| (e.0@, e.1@))
    }
}

impl Headers {
    /// The keys stand in strictly increasing order.
    pub open spec fn well_formed(&self) -> bool {
        sorted_keys(self@)
    }

    /// An empty collection.
    pub fn new() -> (r: Headers)
        ensures
            r@ == Seq::<(Seq<char>, Seq<char>)>::empty(),
            r.well_formed(),
    {
        let r = Headers { headers: Vec::new() };
        assert(r@ =~= Seq::<(Seq<char>, Seq<char>)>::empty());
        r
    }

    /// The value held for `key`, whatever the case of its letters.
    pub fn get(&self, key: Key) -> (r: Option<&Value>)
        requires
            self.well_formed(),
        ensures
            match r {
                Some(v) => lookup(self@, lower_of(key@)) == Some(v@),
                None => lookup(self@, lower_of(key@)) is None,
            },
    {
        let k = lowercase(key.as_str());
        let n = self.headers.len();
        let mut i: usize = 0;
        while i < n
            invariant
                self.well_formed(),
                n == self@.len(),
                0 <= i <= n,
                k@ == lower_of(key@),
                forall|j: int| 0 <= j < i ==> self@[j].0 != k@,
            decreases n - i,
        {
            if self.headers[i].0 == k {
                proof {
                    assert(self@[i as int].0 == self.headers@[i as int].0@);
                    lemma_key_index(self@, k@, i as int);
                }
                return Some(&self.headers[i].1);
            }
            i = i + 1;
        }
        None
    }

    /// Binds `key`, in lower case, to `value`.  The value held before for a
    /// key that differs only in case is replaced and handed back; otherwise
    /// the entry is added in the order of keys and nothing is handed back.
    pub fn insert(&mut self, key: Key, value: Value) -> (r: Option<Value>)
        requires
            old(self).well_formed(),
        ensures
            final(self).well_formed(),
            final(self)@ == put(old(self)@, lower_of(key@), value@),
            match r {
                Some(v) => lookup(old(self)@, lower_of(key@)) == Some(v@),
                None => lookup(old(self)@, lower_of(key@)) is None,
            },
    {
        let k = lowercase(key.as_str());
        let ghost s0 = self@;
        let ghost kv = k@;
        let n = self.headers.len();
        let mut i: usize = 0;
        while i < n
            invariant
                self@ == s0,
                old(self)@ == s0,
                sorted_keys(s0),
                n == s0.len(),
                0 <= i <= n,
                k@ == kv,
                kv == lower_of(key@),
                forall|j: int| 0 <= j < i ==> text_lt(#[trigger] s0[j].0, kv),
            decreases n - i,
        {
            let o = compare_text(self.headers[i].0.as_str(), k.as_str());
            proof {
                assert(s0[i as int].0 == self.headers@[i as int].0@);
            }
            match o {
                core::cmp::Ordering::Less => {
                    i = i + 1;
                },
                core::cmp::Ordering::Equal => {
                    proof {
                        lemma_key_index(s0, kv, i as int);
                        lemma_put_sorted(s0, kv, value@);
                    }
                    let ghost e = self.headers@[i as int];
                    let (_, v) = self.headers.remove(i);
                    self.headers.insert(i, (k, value));
                    proof {
                        assert(v == e.1);
                        assert(s0[i as int].1 == e.1@);
                        assert(self@ =~= s0.update(i as int, (kv, value@)));
                    }
                    return Some(v);
                },
                core::cmp::Ordering::Greater => {
                    proof {
                        assert forall|j: int| i <= j < s0.len() implies text_lt(
                            kv,
                            #[trigger] s0[j].0,
                        ) by {
                            if i < j {
                                assert(text_lt(s0[i as int].0, s0[j].0));
                                lemma_text_lt_transitive(kv, s0[i as int].0, s0[j].0);
                            }
                        }
                        assert(splits_at(s0, kv, i as int));
                        lemma_insert_index(s0, kv, i as int);
                        lemma_insert_sorted(s0, kv, value@, i as int);
                    }
                    self.headers.insert(i, (k, value));
                    proof {
                        assert(self@ =~= s0.insert(i as int, (kv, value@)));
                    }
                    return None;
                },
            }
        }
        proof {
            assert(splits_at(s0, kv, n as int));
            lemma_insert_index(s0, kv, n as int);
            lemma_insert_sorted(s0, kv, value@, n as int);
        }
        self.headers.push((k, value));
        proof {
            assert(self@ =~= s0.insert(n as int, (kv, value@)));
        }
        None
    }

    /// Takes out the entry of `key`, whatever the case of its letters, and
    /// hands back its value; does nothing where there is none.
    pub fn remove(&mut self, key: &Key) -> (r: Option<Value>)
        requires
            old(self).well_formed(),
        ensures
            final(self).well_formed(),
            final(self)@ == without(old(self)@, lower_of(key@)),
            match r {
                Some(v) => lookup(old(self)@, lower_of(key@)) == Some(v@),
                None => lookup(old(self)@, lower_of(key@)) is None,
            },
    {
        let k = lowercase(key.as_str());
        let ghost s0 = self@;
        let n = self.headers.len();
        let mut i: usize = 0;
        while i < n
            invariant
                self@ == s0,
                old(self)@ == s0,
                sorted_keys(s0),
                n == s0.len(),
                0 <= i <= n,
                k@ == lower_of(key@),
                forall|j: int| 0 <= j < i ==> s0[j].0 != k@,
            decreases n - i,
        {
            if self.headers[i].0 == k {
                proof {
                    assert(s0[i as int].0 == self.headers@[i as int].0@);
                    lemma_key_index(s0, k@, i as int);
                }
                let ghost e = self.headers@[i as int];
                let (_, v) = self.headers.remove(i);
                proof {
                    assert(v == e.1);
                    assert(s0[i as int].1 == e.1@);
                    assert(self@ =~= s0.remove(i as int));
                    lemma_without_lookup(s0, k@);
                }
                return Some(v);
            }
            i = i + 1;
        }
        None
    }

    /// The keys, in increasing order.
    pub fn keys(&self) -> (r: Vec<Key>)
        ensures
            r@.len() == self@.len(),
            forall|i: int| 0 <= i < r@.len() ==> #[trigger] r@[i]@ == self@[i].0,
    {
        let n = self.headers.len();
        let mut r: Vec<Key> = Vec::new();
        let mut i: usize = 0;
        while i < n
            invariant
                n == self@.len(),
                0 <= i <= n,
                r@.len() == i,
                forall|j: int| 0 <= j < i ==> #[trigger] r@[j]@ == self@[j].0,
            decreases n - i,
        {
            r.push(self.headers[i].0.clone());
            i = i + 1;
        }
        r
    }

    /// The values, in the order of their keys.
    pub fn values(&self) -> (r: Vec<Value>)
        ensures
            r@.len() == self@.len(),
            forall|i: int| 0 <= i < r@.len() ==> #[trigger] r@[i]@ == self@[i].1,
    {
        let n = self.headers.len();
        let mut r: Vec<Value> = Vec::new();
        let mut i: usize = 0;
        while i < n
            invariant
                n == self@.len(),
                0 <= i <= n,
                r@.len() == i,
                forall|j: int| 0 <= j < i ==> #[trigger] r@[j]@ == self@[j].1,
            decreases n - i,
        {
            r.push(self.headers[i].1.clone());
            i = i + 1;
        }
        r
    }

    /// The number of entries.
    pub fn len(&self) -> (r: usize)
        ensures
            r == self@.len(),
    {
        self.headers.len()
    }

    /// Takes out every entry.
    pub fn clear(&mut self)
        ensures
            final(self).well_formed(),
            final(self)@ == Seq::<(Seq<char>, Seq<char>)>::empty(),
    {
        self.headers.clear();
        assert(self@ =~= Seq::<(Seq<char>, Seq<char>)>::empty());
    }

    /// The wire form of the collection: for each entry in the order of keys,
    /// the key with its first character in upper case, `: `, the value and a
    /// line break (`\r\n`).
    pub fn to_string(&self) -> (r: String)
        ensures
            r@ == header_lines(self@),
    {
        let n = self.headers.len();
        let mut r = String::new();
        let mut i: usize = 0;
        while i < n
            invariant
                n == self@.len(),
                0 <= i <= n,
                r@ == header_lines(self@.take(i as int)),
            decreases n - i,
        {
            let key = self.headers[i].0.as_str();
            let m = key.unicode_len();
            if m > 0 {
                let first = uppercase(key.substring_char(0, 1));
                r.append(first.as_str());
                r.append(key.substring_char(1, m));
            }
            r.append(": ");
            r.append(self.headers[i].1.as_str());
            r.append("\r\n");
            proof {
                let e = self@[i as int];
                assert(e.0 == self.headers@[i as int].0@);
                assert(self@.take(i + 1).drop_last() =~= self@.take(i as int));
                assert(self@.take(i + 1).last() == e);
                if m > 0 {
                    assert(e.0.take(1) =~= e.0.subrange(0, 1));
                    assert(e.0.skip(1) =~= e.0.subrange(1, m as int));
                }
                assert(r@ =~= header_lines(self@.take(i as int)) + header_line(e));
            }
            i = i + 1;
        }
        assert(self@.take(n as int) =~= self@);
        r
    }
}

} // verus!
