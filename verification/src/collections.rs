//! The collections that the decoders keep: text attributes, sets of keys and maps in
//! order of arrival.

use vstd::prelude::*;

use crate::text;
use crate::text::{cat, dec_text, hex0x_text, precedes_text, same_text, Unsigned};

verus! {

// ---------------------------------------------------------------------------
// Attributes
// ---------------------------------------------------------------------------

/// What a list of key and value pairs says of each key: the last pair with the key counts.
pub open spec fn folded(e: Seq<(String, String)>) -> Map<Seq<char>, Seq<char>>
    decreases e.len(),
{
    if e.len() == 0 {
        Map::empty()
    } else {
        folded(e.drop_last()).insert(e.last().0@, e.last().1@)
    }
}

proof fn folded_push(e: Seq<(String, String)>, p: (String, String))
    ensures
        folded(e.push(p)) == folded(e).insert(p.0@, p.1@),
{
    assert(e.push(p).drop_last() =~= e);
}

proof fn folded_update(e: Seq<(String, String)>, i: int, p: (String, String))
    requires
        0 <= i < e.len(),
        e[i].0@ == p.0@,
        forall|j: int| i < j < e.len() ==> (#[trigger] e[j]).0@ != p.0@,
    ensures
        folded(e.update(i, p)) == folded(e).insert(p.0@, p.1@),
    decreases e.len(),
{
    let u = e.update(i, p);
    if i == e.len() - 1 {
        assert(u.drop_last() =~= e.drop_last());
        assert(folded(u) =~= folded(e).insert(p.0@, p.1@));
    } else {
        assert(u.drop_last() =~= e.drop_last().update(i, p));
        assert forall|j: int| i < j < e.drop_last().len() implies (#[trigger] e.drop_last()[j]).0@
            != p.0@ by {
            assert(e.drop_last()[j] == e[j]);
        }
        folded_update(e.drop_last(), i, p);
        assert(e[e.len() - 1].0@ != p.0@);
        assert(folded(u) =~= folded(e).insert(p.0@, p.1@));
    }
}

proof fn folded_insert(e: Seq<(String, String)>, i: int, p: (String, String))
    requires
        0 <= i <= e.len(),
        forall|j: int| i <= j < e.len() ==> (#[trigger] e[j]).0@ != p.0@,
    ensures
        folded(e.insert(i, p)) == folded(e).insert(p.0@, p.1@),
    decreases e.len(),
{
    let u = e.insert(i, p);
    if i == e.len() {
        assert(u =~= e.push(p));
        folded_push(e, p);
    } else {
        let d = e.drop_last();
        assert(u.drop_last() =~= d.insert(i, p));
        assert forall|j: int| i <= j < d.len() implies (#[trigger] d[j]).0@ != p.0@ by {
            assert(d[j] == e[j]);
        }
        folded_insert(d, i, p);
        assert(u.last() == e.last());
        assert(e[e.len() - 1].0@ != p.0@);
        assert(folded(u) =~= folded(e).insert(p.0@, p.1@));
    }
}

proof fn folded_hit(e: Seq<(String, String)>, i: int, k: Seq<char>)
    requires
        0 <= i < e.len(),
        e[i].0@ == k,
        forall|j: int| i < j < e.len() ==> (#[trigger] e[j]).0@ != k,
    ensures
        folded(e).contains_key(k),
        folded(e)[k] == e[i].1@,
    decreases e.len(),
{
    if i < e.len() - 1 {
        let d = e.drop_last();
        assert forall|j: int| i < j < d.len() implies (#[trigger] d[j]).0@ != k by {
            assert(d[j] == e[j]);
        }
        folded_hit(d, i, k);
        assert(e[e.len() - 1].0@ != k);
    }
}

proof fn folded_miss(e: Seq<(String, String)>, k: Seq<char>)
    requires
        forall|j: int| 0 <= j < e.len() ==> (#[trigger] e[j]).0@ != k,
    ensures
        !folded(e).contains_key(k),
    decreases e.len(),
{
    if e.len() > 0 {
        let d = e.drop_last();
        assert forall|j: int| 0 <= j < d.len() implies (#[trigger] d[j]).0@ != k by {
            assert(d[j] == e[j]);
        }
        folded_miss(d, k);
        assert(e[e.len() - 1].0@ != k);
    }
}

/// Whether the keys of a list of pairs stand in lexicographic order, each once.
pub open spec fn ascending(e: Seq<(String, String)>) -> bool {
    forall|i: int, j: int|
        0 <= i < j < e.len() ==> text::precedes((#[trigger] e[i]).0@, (#[trigger] e[j]).0@)
}

/// Named text values, in the order of their names.
#[derive(Debug)]
pub struct Attributes {
    entries: Vec<(String, String)>,
}

impl View for Attributes {
    type V = Map<Seq<char>, Seq<char>>;

    closed spec fn view(&self) -> Map<Seq<char>, Seq<char>> {
        folded(self.entries@)
    }
}

/// The map with `v`, where there is one, set under `k`.
pub open spec fn insert_opt(
    m: Map<Seq<char>, Seq<char>>,
    k: Seq<char>,
    v: Option<Seq<char>>,
) -> Map<Seq<char>, Seq<char>> {
    match v {
        Some(t) => m.insert(k, t),
        None => m,
    }
}

impl Attributes {
    #[verifier::type_invariant]
    spec fn in_order(self) -> bool {
        ascending(self.entries@)
    }

    /// No attributes.
    pub fn new() -> (r: Self)
        ensures
            r@ == Map::<Seq<char>, Seq<char>>::empty(),
    {
        Attributes { entries: Vec::new() }
    }

    /// The index of the last pair with the key.
    fn position(&self, key: &str) -> (r: Option<usize>)
        ensures
            match r {
                Some(i) => i < self.entries.len() && self.entries@[i as int].0@ == key@ && forall|
                    j: int,
                |
                    i < j < self.entries.len() ==> (#[trigger] self.entries@[j]).0@ != key@,
                None => forall|j: int|
                    0 <= j < self.entries.len() ==> (#[trigger] self.entries@[j]).0@ != key@,
            },
    {
        let mut i: usize = self.entries.len();
        while i > 0
            invariant
                i <= self.entries.len(),
                forall|j: int|
                    i <= j < self.entries.len() ==> (#[trigger] self.entries@[j]).0@ != key@,
            decreases i,
        {
            i = i - 1;
            if same_text(self.entries[i].0.as_str(), key) {
                return Some(i);
            }
        }
        None
    }

    /// Sets the value of a key.
    pub fn insert(&mut self, key: &str, value: String)
        ensures
            final(self)@ == old(self)@.insert(key@, value@),
    {
        proof {
            use_type_invariant(&*self);
        }
        let ghost e = self.entries@;
        let pair = (key.to_owned(), value);
        let mut entries: Vec<(String, String)> = Vec::new();
        std::mem::swap(&mut entries, &mut self.entries);
        let mut i: usize = 0;
        while i < entries.len() && precedes_text(entries[i].0.as_str(), key)
            invariant
                i <= entries.len(),
                entries@ == e,
                forall|j: int| 0 <= j < i ==> text::precedes((#[trigger] e[j]).0@, key@),
            decreases entries.len() - i,
        {
            i = i + 1;
        }
        let there = i < entries.len() && same_text(entries[i].0.as_str(), key);
        proof {
            assert forall|j: int| i <= j < e.len() && !(there && j == i) implies text::precedes(
                key@,
                (#[trigger] e[j]).0@,
            ) by {
                text::precedes_is_total(e[i as int].0@, key@);
                if i < j && !there {
                    text::precedes_is_transitive(key@, e[i as int].0@, e[j].0@);
                }
            }
            assert forall|j: int| i <= j < e.len() && !(there && j == i) implies (#[trigger] e[j]).0@
                != key@ by {
                text::precedes_is_total(key@, e[j].0@);
            }
        }
        if there {
            proof {
                folded_update(e, i as int, pair);
            }
            entries.set(i, pair);
        } else {
            proof {
                folded_insert(e, i as int, pair);
            }
            entries.insert(i, pair);
        }
        self.entries = entries;
    }

    /// The value of a key.
    pub fn get(&self, key: &str) -> (r: Option<&String>)
        ensures
            match r {
                Some(v) => self@.contains_key(key@) && v@ == self@[key@],
                None => !self@.contains_key(key@),
            },
    {
        match self.position(key) {
            Some(i) => {
                proof {
                    folded_hit(self.entries@, i as int, key@);
                }
                Some(&self.entries[i].1)
            },
            None => {
                proof {
                    folded_miss(self.entries@, key@);
                }
                None
            },
        }
    }

    /// A copy of the value of a key.
    pub fn get_copy(&self, key: &str) -> (r: Option<String>)
        ensures
            text::opt_view(r) == lookup(self@, key@),
    {
        match self.get(key) {
            Some(v) => Some(v.as_str().to_owned()),
            None => None,
        }
    }

    /// Whether a key has a value.
    pub fn contains_key(&self, key: &str) -> (r: bool)
        ensures
            r == self@.contains_key(key@),
    {
        self.get(key).is_some()
    }

    /// Whether there is no attribute.
    pub fn is_empty(&self) -> (r: bool)
        ensures
            r == (self@ == Map::<Seq<char>, Seq<char>>::empty()),
    {
        let r = self.entries.len() == 0;
        proof {
            if self.entries.len() > 0 {
                assert(self@.contains_key(self.entries@.last().0@));
            }
        }
        r
    }

    /// The pairs in the order of their keys, each key once.
    pub fn entries(&self) -> (r: &Vec<(String, String)>)
        ensures
            folded(r@) == self@,
            ascending(r@),
    {
        proof {
            use_type_invariant(self);
        }
        &self.entries
    }

    /// Sets a key to a copy of a text.
    pub fn put(&mut self, key: &str, value: &str)
        ensures
            final(self)@ == old(self)@.insert(key@, value@),
    {
        self.insert(key, value.to_owned());
    }

    /// Sets a key to a decimal numeral.
    pub fn put_dec<N: Unsigned>(&mut self, key: &str, n: N)
        ensures
            final(self)@ == old(self)@.insert(key@, text::dec(n.value())),
    {
        self.insert(key, dec_text(n));
    }

    /// Sets a key to a `0x` numeral.
    pub fn put_hex<N: Unsigned>(&mut self, key: &str, n: N, width: usize)
        ensures
            final(self)@ == old(self)@.insert(key@, text::hex0x(n.value(), width as nat)),
    {
        self.insert(key, hex0x_text(n, width));
    }

    /// Sets a key, where there is a value for it.
    pub fn insert_some(&mut self, key: &str, value: Option<String>)
        ensures
            final(self)@ == insert_opt(old(self)@, key@, text::opt_view(value)),
    {
        match value {
            Some(v) => self.insert(key, v),
            None => {},
        }
    }

    /// Sets a key to a decimal numeral, where there is a number.
    pub fn put_some_dec<N: Unsigned>(&mut self, key: &str, n: Option<N>)
        ensures
            final(self)@ == insert_opt(old(self)@, key@, text::opt_dec(n)),
    {
        match n {
            Some(v) => self.insert(key, dec_text(v)),
            None => {},
        }
    }

    /// Sets a key to a `0x` numeral, where there is a number.
    pub fn put_some_hex<N: Unsigned>(&mut self, key: &str, n: Option<N>, width: usize)
        ensures
            final(self)@ == insert_opt(old(self)@, key@, text::opt_hex0x(n, width as nat)),
    {
        match n {
            Some(v) => self.insert(key, hex0x_text(v, width)),
            None => {},
        }
    }

    /// Sets every key of `other` to its value there.
    pub fn extend(&mut self, other: &Attributes)
        ensures
            final(self)@ == old(self)@.union_prefer_right(other@),
    {
        let mut i: usize = 0;
        assert(old(self)@ =~= old(self)@.union_prefer_right(folded(other.entries@.take(0))));
        while i < other.entries.len()
            invariant
                i <= other.entries.len(),
                self@ == old(self)@.union_prefer_right(folded(other.entries@.take(i as int))),
            decreases other.entries.len() - i,
        {
            self.insert(other.entries[i].0.as_str(), other.entries[i].1.as_str().to_owned());
            proof {
                let p = other.entries@[i as int];
                assert(other.entries@.take(i + 1) =~= other.entries@.take(i as int).push(p));
                folded_push(other.entries@.take(i as int), p);
                assert(self@ =~= old(self)@.union_prefer_right(
                    folded(other.entries@.take(i + 1)),
                ));
            }
            i = i + 1;
        }
        assert(other.entries@.take(i as int) =~= other.entries@);
    }

    /// Sets every key of `other`, with `prefix` in front, to its value there.
    pub fn extend_prefixed(&mut self, prefix: &str, other: &Attributes)
        ensures
            final(self)@ == old(self)@.union_prefer_right(prefixed(other@, prefix@)),
    {
        let mut i: usize = 0;
        assert(folded(other.entries@.take(0)) =~= Map::<Seq<char>, Seq<char>>::empty());
        assert(old(self)@ =~= old(self)@.union_prefer_right(
            prefixed(folded(other.entries@.take(0)), prefix@),
        ));
        while i < other.entries.len()
            invariant
                i <= other.entries.len(),
                self@ == old(self)@.union_prefer_right(
                    prefixed(folded(other.entries@.take(i as int)), prefix@),
                ),
            decreases other.entries.len() - i,
        {
            let key = cat(prefix, other.entries[i].0.as_str());
            self.insert(key.as_str(), other.entries[i].1.as_str().to_owned());
            proof {
                let p = other.entries@[i as int];
                assert(other.entries@.take(i + 1) =~= other.entries@.take(i as int).push(p));
                folded_push(other.entries@.take(i as int), p);
                prefixed_insert(folded(other.entries@.take(i as int)), prefix@, p.0@, p.1@);
                assert(self@ =~= old(self)@.union_prefer_right(
                    prefixed(folded(other.entries@.take(i + 1)), prefix@),
                ));
            }
            i = i + 1;
        }
        assert(other.entries@.take(i as int) =~= other.entries@);
    }

    /// A copy of the attributes.
    pub fn copy(&self) -> (r: Self)
        ensures
            r@ == self@,
    {
        let mut r = Attributes::new();
        r.extend(self);
        assert(r@ =~= self@);
        r
    }
}

impl Clone for Attributes {
    fn clone(&self) -> (r: Self)
        ensures
            r@ == self@,
    {
        self.copy()
    }
}

/// The map whose keys are those of `m` with `prefix` in front.
pub open spec fn prefixed(m: Map<Seq<char>, Seq<char>>, prefix: Seq<char>) -> Map<
    Seq<char>,
    Seq<char>,
> {
    Map::new(
        |k: Seq<char>|
            k.len() >= prefix.len() && k.take(prefix.len() as int) == prefix && m.contains_key(
                k.skip(prefix.len() as int),
            ),
        |k: Seq<char>| m[k.skip(prefix.len() as int)],
    )
}

proof fn prefixed_insert(
    m: Map<Seq<char>, Seq<char>>,
    prefix: Seq<char>,
    key: Seq<char>,
    value: Seq<char>,
)
    ensures
        prefixed(m.insert(key, value), prefix) == prefixed(m, prefix).insert(prefix + key, value),
{
    let a = prefixed(m.insert(key, value), prefix);
    let b = prefixed(m, prefix).insert(prefix + key, value);
    let n = prefix.len() as int;
    assert((prefix + key).take(n) =~= prefix);
    assert((prefix + key).skip(n) =~= key);
    assert forall|k: Seq<char>| a.contains_key(k) <==> b.contains_key(k) by {
        if a.contains_key(k) && k.skip(n) == key {
            assert(k =~= prefix + key);
        }
    }
    assert forall|k: Seq<char>| a.contains_key(k) implies a[k] == b[k] by {
        if k.skip(n) == key {
            assert(k =~= prefix + key);
        }
    }
    assert(a =~= b);
}

/// The value of a key, where it has one.
pub open spec fn lookup(m: Map<Seq<char>, Seq<char>>, k: Seq<char>) -> Option<Seq<char>> {
    if m.contains_key(k) {
        Some(m[k])
    } else {
        None
    }
}

// ---------------------------------------------------------------------------
// Keys
// ---------------------------------------------------------------------------

/// A value that is told apart from others by its view.
pub trait Key: View + Sized {
    /// Whether two keys have the same view.
    fn same(&self, other: &Self) -> (r: bool)
        ensures
            r == (self@ == other@),
    ;
}

impl Key for String {
    fn same(&self, other: &Self) -> (r: bool) {
        *self == *other
    }
}

impl Key for (String, u16) {
    fn same(&self, other: &Self) -> (r: bool) {
        self.0 == other.0 && self.1 == other.1
    }
}

impl Key for (String, u32) {
    fn same(&self, other: &Self) -> (r: bool) {
        self.0 == other.0 && self.1 == other.1
    }
}

impl Key for (String, u64) {
    fn same(&self, other: &Self) -> (r: bool) {
        self.0 == other.0 && self.1 == other.1
    }
}

/// A set of keys.
#[derive(Debug, Clone)]
pub struct KeySet<K> {
    items: Vec<K>,
}

impl<K: Key> View for KeySet<K> {
    type V = Set<K::V>;

    closed spec fn view(&self) -> Set<K::V> {
        Set::new(|k: K::V| exists|i: int| 0 <= i < self.items.len() && (#[trigger] self.items@[i])@ == k)
    }
}

impl<K: Key> KeySet<K> {
    /// The empty set.
    pub fn new() -> (r: Self)
        ensures
            r@ == Set::<K::V>::empty(),
    {
        let r = KeySet { items: Vec::new() };
        assert(r@ =~= Set::<K::V>::empty());
        r
    }

    /// Whether the key is in the set.
    pub fn contains(&self, key: &K) -> (r: bool)
        ensures
            r == self@.contains(key@),
    {
        let mut i: usize = 0;
        while i < self.items.len()
            invariant
                i <= self.items.len(),
                forall|j: int| 0 <= j < i ==> (#[trigger] self.items@[j])@ != key@,
            decreases self.items.len() - i,
        {
            if self.items[i].same(key) {
                return true;
            }
            i = i + 1;
        }
        false
    }

    /// Adds the key, and says whether it was new.
    pub fn insert(&mut self, key: K) -> (r: bool)
        ensures
            final(self)@ == old(self)@.insert(key@),
            r == !old(self)@.contains(key@),
    {
        if self.contains(&key) {
            assert(self@ =~= old(self)@.insert(key@));
            false
        } else {
            let ghost before = self.items@;
            self.items.push(key);
            proof {
                assert forall|k: K::V| self@.contains(k) <==> old(self)@.insert(key@).contains(k) by {
                    if self@.contains(k) {
                        let i = choose|i: int| 0 <= i < self.items.len() && (#[trigger] self.items@[i])@ == k;
                        if i < before.len() {
                            assert(before[i]@ == k);
                        }
                    }
                    if old(self)@.contains(k) {
                        let i = choose|i: int| 0 <= i < before.len() && (#[trigger] before[i])@ == k;
                        assert(self.items@[i]@ == k);
                    }
                    if k == key@ {
                        assert(self.items@[before.len() as int]@ == k);
                    }
                }
                assert(self@ =~= old(self)@.insert(key@));
            }
            true
        }
    }
}

// ---------------------------------------------------------------------------
// Maps in order of arrival
// ---------------------------------------------------------------------------

/// The value of the last pair with the key.
pub open spec fn find<K, W>(s: Seq<(K, W)>, k: K) -> Option<W>
    decreases s.len(),
{
    if s.len() == 0 {
        None
    } else if s.last().0 == k {
        Some(s.last().1)
    } else {
        find(s.drop_last(), k)
    }
}

/// The pairs that do not have the key.
pub open spec fn without<K, W>(s: Seq<(K, W)>, k: K) -> Seq<(K, W)>
    decreases s.len(),
{
    if s.len() == 0 {
        Seq::empty()
    } else if s.last().0 == k {
        without(s.drop_last(), k)
    } else {
        without(s.drop_last(), k).push(s.last())
    }
}

/// The pairs with the key set to the value: a pair for it stands last.
pub open spec fn put<K, W>(s: Seq<(K, W)>, k: K, v: W) -> Seq<(K, W)> {
    without(s, k).push((k, v))
}

/// Whether no key occurs twice.
pub open spec fn distinct_keys<K, W>(s: Seq<(K, W)>) -> bool {
    forall|i: int, j: int| 0 <= i < j < s.len() ==> (#[trigger] s[i]).0 != (#[trigger] s[j]).0
}

/// Removing a key leaves no pair with it, and the other pairs in place.
pub proof fn without_facts<K, W>(s: Seq<(K, W)>, k: K)
    ensures
        without(s, k).len() <= s.len(),
        find(s, k) is None ==> without(s, k) == s,
        find(s, k) is Some ==> without(s, k).len() < s.len(),
        forall|i: int| 0 <= i < without(s, k).len() ==> (#[trigger] without(s, k)[i]).0 != k,
        forall|i: int|
            0 <= i < without(s, k).len() ==> s.contains(#[trigger] without(s, k)[i]),
        find(without(s, k), k) is None,
        forall|q: K| q != k ==> #[trigger] find(without(s, k), q) == find(s, q),
        distinct_keys(s) ==> distinct_keys(without(s, k)),
        distinct_keys(s) && find(s, k) is Some ==> without(s, k).len() == s.len() - 1,
    decreases s.len(),
{
    if s.len() > 0 {
        let d = s.drop_last();
        without_facts(d, k);
        assert(s =~= d.push(s.last()));
        assert(s.contains(s.last())) by {
            assert(s[s.len() - 1] == s.last());
        }
        assert forall|i: int| 0 <= i < without(s, k).len() implies s.contains(
            #[trigger] without(s, k)[i],
        ) by {
            if i < without(d, k).len() {
                let x = without(d, k)[i];
                assert(d.contains(x));
                let j = choose|j: int| 0 <= j < d.len() && d[j] == x;
                assert(s[j] == x);
            }
        }
        if s.last().0 != k {
            assert(without(s, k).drop_last() =~= without(d, k));
        }
        assert forall|q: K| q != k implies #[trigger] find(without(s, k), q) == find(s, q) by {
            assert(find(without(d, k), q) == find(d, q));
        }
        if distinct_keys(s) {
            assert(distinct_keys(d)) by {
                assert forall|i: int, j: int| 0 <= i < j < d.len() implies (#[trigger] d[i]).0 != (
                #[trigger] d[j]).0 by {
                    assert(d[i] == s[i] && d[j] == s[j]);
                }
            }
            if s.last().0 == k {
                if find(d, k) is Some {
                    find_is_present(d, k);
                    let j = choose|j: int| 0 <= j < d.len() && (#[trigger] d[j]).0 == k;
                    assert(s[j].0 == s[s.len() - 1].0);
                }
            } else {
                let w = without(s, k);
                assert forall|i: int, j: int| 0 <= i < j < w.len() implies (#[trigger] w[i]).0 != (
                #[trigger] w[j]).0 by {
                    let wd = without(d, k);
                    assert(w[i] == wd[i]);
                    if j < wd.len() {
                        assert(w[j] == wd[j]);
                    } else {
                        assert(d.contains(wd[i]));
                        let n = choose|n: int| 0 <= n < d.len() && d[n] == wd[i];
                        assert(s[n].0 != s[s.len() - 1].0);
                    }
                }
            }
        }
    }
}

/// A key with a value stands among the pairs.
pub proof fn find_is_present<K, W>(s: Seq<(K, W)>, k: K)
    ensures
        find(s, k) is Some <==> exists|j: int| 0 <= j < s.len() && (#[trigger] s[j]).0 == k,
    decreases s.len(),
{
    if s.len() > 0 {
        let d = s.drop_last();
        find_is_present(d, k);
        if find(s, k) is Some {
            if s.last().0 == k {
                assert(s[s.len() - 1].0 == k);
            } else {
                let j = choose|j: int| 0 <= j < d.len() && (#[trigger] d[j]).0 == k;
                assert(s[j].0 == k);
            }
        }
        if exists|j: int| 0 <= j < s.len() && (#[trigger] s[j]).0 == k {
            let j = choose|j: int| 0 <= j < s.len() && (#[trigger] s[j]).0 == k;
            if j < d.len() {
                assert(d[j].0 == k);
            }
        }
    }
}

/// Setting a key gives it the value, keeps every other key's value, and keeps keys distinct.
pub proof fn put_facts<K, W>(s: Seq<(K, W)>, k: K, v: W)
    ensures
        find(put(s, k, v), k) == Some(v),
        forall|q: K| q != k ==> #[trigger] find(put(s, k, v), q) == find(s, q),
        distinct_keys(s) ==> distinct_keys(put(s, k, v)),
        put(s, k, v).len() <= s.len() + 1,
{
    without_facts(s, k);
    let w = without(s, k);
    assert(put(s, k, v).drop_last() =~= w);
    assert forall|q: K| q != k implies #[trigger] find(put(s, k, v), q) == find(s, q) by {
        assert(find(w, q) == find(s, q));
    }
    if distinct_keys(s) {
        let p = put(s, k, v);
        assert forall|i: int, j: int| 0 <= i < j < p.len() implies (#[trigger] p[i]).0 != (
        #[trigger] p[j]).0 by {
            assert(p[i] == w[i]);
            if j < w.len() {
                assert(p[j] == w[j]);
            }
        }
    }
}

/// A map that keeps its pairs in the order in which they were last set.
#[derive(Debug, Clone)]
pub struct KeyedMap<K, V> {
    pairs: Vec<(K, V)>,
}

/// The views of a list of pairs.
pub open spec fn pair_views<K: View, V: View>(s: Seq<(K, V)>) -> Seq<(K::V, V::V)> {
    Seq::new(s.len(), |i: int| (s[i].0@, s[i].1@))
}

impl<K: Key, V: View> View for KeyedMap<K, V> {
    type V = Seq<(K::V, V::V)>;

    closed spec fn view(&self) -> Seq<(K::V, V::V)> {
        pair_views(self.pairs@)
    }
}

/// The view of an optional value.
pub open spec fn opt_v<V: View>(v: Option<V>) -> Option<V::V> {
    match v {
        Some(x) => Some(x@),
        None => None,
    }
}

impl<K: Key, V: View> KeyedMap<K, V> {
    /// The empty map.
    pub fn new() -> (r: Self)
        ensures
            r@ == Seq::<(K::V, V::V)>::empty(),
    {
        let r = KeyedMap { pairs: Vec::new() };
        assert(r@ =~= Seq::<(K::V, V::V)>::empty());
        r
    }

    /// The number of pairs.
    pub fn len(&self) -> (r: usize)
        ensures
            r == self@.len(),
    {
        self.pairs.len()
    }

    /// Whether there is no pair.
    pub fn is_empty(&self) -> (r: bool)
        ensures
            r == (self@.len() == 0),
    {
        self.pairs.len() == 0
    }

    /// The value of a key.
    pub fn get(&self, key: &K) -> (r: Option<&V>)
        ensures
            match r {
                Some(v) => find(self@, key@) == Some(v@),
                None => find(self@, key@) is None,
            },
    {
        let mut i: usize = self.pairs.len();
        assert(self@.take(i as int) =~= self@);
        while i > 0
            invariant
                i <= self.pairs.len(),
                find(self@, key@) == find(self@.take(i as int), key@),
            decreases i,
        {
            proof {
                let t = self@.take(i as int);
                assert(t.drop_last() =~= self@.take(i - 1));
                assert(t.last() == (self.pairs@[i - 1].0@, self.pairs@[i - 1].1@));
            }
            i = i - 1;
            if self.pairs[i].0.same(key) {
                return Some(&self.pairs[i].1);
            }
        }
        None
    }

    /// Removes a key and gives back the value that it had.
    pub fn remove(&mut self, key: &K) -> (r: Option<V>)
        ensures
            final(self)@ == without(old(self)@, key@),
            opt_v(r) == find(old(self)@, key@),
    {
        let ghost all = self@;
        let ghost mut n: int = 0;
        let mut found: Option<V> = None;
        let mut i: usize = 0;
        assert(all.skip(0) =~= all);
        assert(without(all.take(0), key@) =~= Seq::<(K::V, V::V)>::empty());
        assert(self@ =~= without(all.take(0), key@) + all.skip(0));
        while i < self.pairs.len()
            invariant
                0 <= n <= all.len(),
                i == without(all.take(n), key@).len(),
                self@ == without(all.take(n), key@) + all.skip(n),
                opt_v(found) == find(all.take(n), key@),
            decreases self.pairs.len() - i,
        {
            proof {
                assert(n < all.len());
                assert(self@[i as int] == all[n]);
                assert(all.take(n + 1).drop_last() =~= all.take(n));
                assert(all.take(n + 1).last() == all[n]);
                assert(all.skip(n) =~= seq![all[n]] + all.skip(n + 1));
            }
            let ghost now = self@;
            if self.pairs[i].0.same(key) {
                let (_, v) = self.pairs.remove(i);
                found = Some(v);
                assert(self@ =~= now.remove(i as int));
                assert(self@ =~= without(all.take(n + 1), key@) + all.skip(n + 1));
            } else {
                assert(self@ =~= without(all.take(n + 1), key@) + all.skip(n + 1));
                i = i + 1;
            }
            proof {
                n = n + 1;
            }
        }
        proof {
            assert(self@.len() == i);
            assert(all.skip(n).len() == 0);
            assert(all.take(n) =~= all);
            assert(self@ =~= without(all, key@));
        }
        found
    }

    /// Sets a key to a value.
    pub fn insert(&mut self, key: K, value: V)
        ensures
            final(self)@ == put(old(self)@, key@, value@),
    {
        let _ = self.remove(&key);
        let ghost now = self@;
        self.pairs.push((key, value));
        assert(self@ =~= now.push((key@, value@)));
    }

    /// Adds a pair behind all others.
    pub fn append(&mut self, key: K, value: V)
        ensures
            final(self)@ == old(self)@.push((key@, value@)),
    {
        self.pairs.push((key, value));
        assert(self@ =~= old(self)@.push((key@, value@)));
    }

    /// Removes the pair that was set first.
    pub fn remove_first(&mut self)
        requires
            old(self)@.len() > 0,
        ensures
            final(self)@ == old(self)@.drop_first(),
    {
        let _ = self.pairs.remove(0);
        assert(self@ =~= old(self)@.drop_first());
    }

    /// Removes the pair that was set first and gives back its value.
    pub fn pop_first(&mut self) -> (r: Option<(K, V)>)
        ensures
            match r {
                Some(p) => old(self)@.len() > 0 && (p.0@, p.1@) == old(self)@[0] && final(self)@
                    == old(self)@.drop_first(),
                None => old(self)@.len() == 0 && final(self)@ == old(self)@,
            },
    {
        if self.pairs.len() == 0 {
            None
        } else {
            let p = self.pairs.remove(0);
            assert(self@ =~= old(self)@.drop_first());
            Some(p)
        }
    }
}

} // verus!
