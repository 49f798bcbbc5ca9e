//! A JSON value model for tool arguments and request bodies.
//!
//! Numbers keep the three shapes a JSON number takes: a non-negative
//! integer, a negative integer, or any other number kept as its text.

use vstd::prelude::*;
use crate::text::owned;

verus! {

/// A JSON number.
pub enum JsonNumber {
    /// A non-negative integer that fits in `u64`.
    PosInt(u64),
    /// A negative integer that fits in `i64`.
    NegInt(i64),
    /// Any other number, as its JSON text.
    Float(String),
}

/// A JSON value.
pub enum JsonValue {
    Null,
    Bool(bool),
    Number(JsonNumber),
    Str(String),
    Array(Vec<JsonValue>),
    Object(Vec<(String, JsonValue)>),
}

impl JsonValue {
    /// The text of a string value, as the string view.
    pub open spec fn spec_str(self) -> Option<Seq<char>> {
        match self {
            JsonValue::Str(s) => Some(s@),
            _ => None,
        }
    }

    /// The value of a non-negative integer.
    pub open spec fn spec_u64(self) -> Option<u64> {
        match self {
            JsonValue::Number(JsonNumber::PosInt(n)) => Some(n),
            _ => None,
        }
    }

    /// The text of a string value.
    pub fn as_str(&self) -> (r: Option<&String>)
        ensures
            match r {
                Some(s) => self.spec_str() == Some(s@),
                None => self.spec_str() is None,
            },
    {
        match self {
            JsonValue::Str(s) => Some(s),
            _ => None,
        }
    }

    /// The value of a non-negative integer.
    pub fn as_u64(&self) -> (r: Option<u64>)
        ensures
            r == self.spec_u64(),
    {
        match self {
            JsonValue::Number(JsonNumber::PosInt(n)) => Some(*n),
            _ => None,
        }
    }
}

/// A JSON object: a map from keys to values, each key at most once.
pub struct JsonObject {
    entries: Vec<(String, JsonValue)>,
}

/// The key stored at index `i`.
pub open spec fn entry_key(entries: Seq<(String, JsonValue)>, i: int) -> Seq<char> {
    entries[i].0@
}

/// No key occurs twice.
pub open spec fn keys_distinct(entries: Seq<(String, JsonValue)>) -> bool {
    forall|i: int, j: int|
        0 <= i < entries.len() && 0 <= j < entries.len() && i != j ==> #[trigger] entry_key(
            entries,
            i,
        ) != #[trigger] entry_key(entries, j)
}

/// `k` is stored at some index.
pub open spec fn has_key(entries: Seq<(String, JsonValue)>, k: Seq<char>) -> bool {
    exists|i: int| 0 <= i < entries.len() && #[trigger] entry_key(entries, i) == k
}

/// The map that a sequence of distinct-keyed entries stands for.
pub open spec fn entries_map(entries: Seq<(String, JsonValue)>) -> Map<Seq<char>, JsonValue> {
    Map::new(
        |k: Seq<char>| has_key(entries, k),
        |k: Seq<char>|
            entries[choose|i: int| 0 <= i < entries.len() && #[trigger] entry_key(entries, i) == k].1,
    )
}

/// With distinct keys, the map holds the value stored at each index.
proof fn lemma_entry_in_map(entries: Seq<(String, JsonValue)>, i: int)
    requires
        keys_distinct(entries),
        0 <= i < entries.len(),
    ensures
        entries_map(entries).contains_key(entry_key(entries, i)),
        entries_map(entries)[entry_key(entries, i)] == entries[i].1,
{
    let k = entry_key(entries, i);
    assert(has_key(entries, k));
    let j = choose|j: int| 0 <= j < entries.len() && #[trigger] entry_key(entries, j) == k;
    assert(entry_key(entries, j) == k);
}

impl View for JsonObject {
    type V = Map<Seq<char>, JsonValue>;

    closed spec fn view(&self) -> Map<Seq<char>, JsonValue> {
        entries_map(self.entries@)
    }
}

impl JsonObject {
    #[verifier::type_invariant]
    closed spec fn inv(self) -> bool {
        keys_distinct(self.entries@)
    }

    /// The empty object.
    pub fn new() -> (r: JsonObject)
        ensures
            r@ == Map::<Seq<char>, JsonValue>::empty(),
    {
        let r = JsonObject { entries: Vec::new() };
        assert(r@ =~= Map::<Seq<char>, JsonValue>::empty());
        r
    }

    /// The index of `key`, if the object holds it.
    fn find(&self, key: &str) -> (r: Option<usize>)
        ensures
            match r {
                Some(i) => i < self.entries@.len() && entry_key(self.entries@, i as int) == key@,
                None => !has_key(self.entries@, key@),
            },
    {
        let k = owned(key);
        let mut i: usize = 0;
        while i < self.entries.len()
            invariant
                i <= self.entries@.len(),
                k@ == key@,
                forall|j: int| 0 <= j < i ==> #[trigger] entry_key(self.entries@, j) != key@,
            decreases self.entries@.len() - i,
        {
            if self.entries[i].0 == k {
                return Some(i);
            }
            i = i + 1;
        }
        None
    }

    /// The value under `key`.
    pub fn get(&self, key: &str) -> (r: Option<&JsonValue>)
        ensures
            match r {
                Some(v) => self@.contains_key(key@) && self@[key@] == *v,
                None => !self@.contains_key(key@),
            },
    {
        proof {
            use_type_invariant(self);
        }
        match self.find(key) {
            Some(i) => {
                proof {
                    lemma_entry_in_map(self.entries@, i as int);
                }
                Some(&self.entries[i].1)
            },
            None => None,
        }
    }

    /// A copy of the string stored under `key`, if there is one.
    pub fn get_str(&self, key: &str) -> (r: Option<String>)
        ensures
            match r {
                Some(s) => arg_str(self@, key@) == Some(s@),
                None => arg_str(self@, key@) is None,
            },
    {
        match self.get(key) {
            Some(v) => match v.as_str() {
                Some(s) => Some(s.clone()),
                None => None,
            },
            None => None,
        }
    }

    /// The non-negative integer stored under `key`, if there is one.
    pub fn get_u64(&self, key: &str) -> (r: Option<u64>)
        ensures
            r == arg_u64(self@, key@),
    {
        match self.get(key) {
            Some(v) => v.as_u64(),
            None => None,
        }
    }

    /// Sets `key` to `value`, replacing any earlier value.
    pub fn insert(&mut self, key: String, value: JsonValue)
        ensures
            final(self)@ == old(self)@.insert(key@, value),
    {
        proof {
            use_type_invariant(&*self);
        }
        let ghost old_entries = self.entries@;
        let ghost k = key@;
        match self.find(key.as_str()) {
            Some(i) => {
                let mut entries: Vec<(String, JsonValue)> = Vec::new();
                std::mem::swap(&mut entries, &mut self.entries);
                entries.set(i, (key, value));
                proof {
                    let e = entries@;
                    assert(keys_distinct(e)) by {
                        assert forall|a: int, b: int|
                            0 <= a < e.len() && 0 <= b < e.len() && a != b implies #[trigger] entry_key(
                            e,
                            a,
                        ) != #[trigger] entry_key(e, b) by {
                            assert(entry_key(e, a) == entry_key(old_entries, a));
                            assert(entry_key(e, b) == entry_key(old_entries, b));
                        }
                    }
                    assert(entry_key(e, i as int) == k);
                    assert forall|kk: Seq<char>| #[trigger]
                        has_key(e, kk) == has_key(old_entries, kk) by {
                        if has_key(e, kk) {
                            let a = choose|a: int| 0 <= a < e.len() && #[trigger] entry_key(e, a) == kk;
                            assert(entry_key(old_entries, a) == kk);
                        }
                        if has_key(old_entries, kk) {
                            let a = choose|a: int|
                                0 <= a < old_entries.len() && #[trigger] entry_key(old_entries, a) == kk;
                            assert(entry_key(e, a) == kk);
                        }
                    }
                    assert forall|kk: Seq<char>| #[trigger] has_key(e, kk) implies entries_map(e)[kk]
                        == value_after_insert(old_entries, kk, k, value) by {
                        let a = choose|a: int| 0 <= a < e.len() && #[trigger] entry_key(e, a) == kk;
                        lemma_entry_in_map(e, a);
                        if a != i {
                            lemma_entry_in_map(old_entries, a);
                        }
                    }
                    assert(entries_map(e) =~= entries_map(old_entries).insert(k, value));
                }
                self.entries = entries;
            },
            None => {
                let mut entries: Vec<(String, JsonValue)> = Vec::new();
                std::mem::swap(&mut entries, &mut self.entries);
                entries.push((key, value));
                proof {
                    let e = entries@;
                    let n = old_entries.len() as int;
                    assert(keys_distinct(e)) by {
                        assert forall|a: int, b: int|
                            0 <= a < e.len() && 0 <= b < e.len() && a != b implies #[trigger] entry_key(
                            e,
                            a,
                        ) != #[trigger] entry_key(e, b) by {
                            if a < n && b < n {
                                assert(entry_key(e, a) == entry_key(old_entries, a));
                                assert(entry_key(e, b) == entry_key(old_entries, b));
                            } else if a < n {
                                assert(entry_key(e, a) == entry_key(old_entries, a));
                            } else {
                                assert(entry_key(e, b) == entry_key(old_entries, b));
                            }
                        }
                    }
                    assert forall|kk: Seq<char>| #[trigger]
                        has_key(e, kk) == (has_key(old_entries, kk) || kk == k) by {
                        if has_key(e, kk) && kk != k {
                            let a = choose|a: int| 0 <= a < e.len() && #[trigger] entry_key(e, a) == kk;
                            assert(entry_key(old_entries, a) == kk);
                        }
                        if has_key(old_entries, kk) {
                            let a = choose|a: int|
                                0 <= a < old_entries.len() && #[trigger] entry_key(old_entries, a) == kk;
                            assert(entry_key(e, a) == kk);
                        }
                        if kk == k {
                            assert(entry_key(e, n) == kk);
                        }
                    }
                    assert forall|kk: Seq<char>| #[trigger] has_key(e, kk) implies entries_map(e)[kk]
                        == value_after_insert(old_entries, kk, k, value) by {
                        let a = choose|a: int| 0 <= a < e.len() && #[trigger] entry_key(e, a) == kk;
                        lemma_entry_in_map(e, a);
                        if a != n {
                            lemma_entry_in_map(old_entries, a);
                        }
                    }
                    assert(entries_map(e) =~= entries_map(old_entries).insert(k, value));
                }
                self.entries = entries;
            },
        }
    }

    /// Takes the value under `key` out of the object.
    pub fn remove(&mut self, key: &str) -> (r: Option<JsonValue>)
        ensures
            final(self)@ == old(self)@.remove(key@),
            match r {
                Some(v) => old(self)@.contains_key(key@) && old(self)@[key@] == v,
                None => !old(self)@.contains_key(key@),
            },
    {
        proof {
            use_type_invariant(&*self);
        }
        let ghost old_entries = self.entries@;
        match self.find(key) {
            Some(i) => {
                proof {
                    lemma_entry_in_map(old_entries, i as int);
                }
                let mut entries: Vec<(String, JsonValue)> = Vec::new();
                std::mem::swap(&mut entries, &mut self.entries);
                let (_, v) = entries.remove(i);
                proof {
                    let e = entries@;
                    assert forall|a: int| 0 <= a < e.len() implies #[trigger] entry_key(e, a)
                        == entry_key(old_entries, if a < i { a } else { a + 1 }) by {}
                    assert(keys_distinct(e)) by {
                        assert forall|a: int, b: int|
                            0 <= a < e.len() && 0 <= b < e.len() && a != b implies #[trigger] entry_key(
                            e,
                            a,
                        ) != #[trigger] entry_key(e, b) by {
                            assert(entry_key(e, a) == entry_key(
                                old_entries,
                                if a < i { a } else { a + 1 },
                            ));
                            assert(entry_key(e, b) == entry_key(
                                old_entries,
                                if b < i { b } else { b + 1 },
                            ));
                        }
                    }
                    assert forall|kk: Seq<char>| #[trigger]
                        has_key(e, kk) == (has_key(old_entries, kk) && kk != key@) by {
                        if has_key(e, kk) {
                            let a = choose|a: int| 0 <= a < e.len() && #[trigger] entry_key(e, a) == kk;
                            let b = if a < i { a } else { a + 1 };
                            assert(entry_key(old_entries, b) == kk);
                            assert(entry_key(old_entries, i as int) == key@);
                        }
                        if has_key(old_entries, kk) && kk != key@ {
                            let b = choose|b: int|
                                0 <= b < old_entries.len() && #[trigger] entry_key(old_entries, b) == kk;
                            let a = if b < i { b } else { b - 1 };
                            assert(entry_key(e, a) == kk);
                        }
                    }
                    assert forall|kk: Seq<char>| #[trigger] has_key(e, kk) implies entries_map(e)[kk]
                        == entries_map(old_entries)[kk] by {
                        let a = choose|a: int| 0 <= a < e.len() && #[trigger] entry_key(e, a) == kk;
                        lemma_entry_in_map(e, a);
                        lemma_entry_in_map(old_entries, if a < i { a } else { a + 1 });
                    }
                    assert(entries_map(e) =~= entries_map(old_entries).remove(key@));
                }
                self.entries = entries;
                Some(v)
            },
            None => {
                proof {
                    assert(entries_map(old_entries) =~= entries_map(old_entries).remove(key@));
                }
                None
            },
        }
    }

    /// The fields of `self` whose keys are among `keys`.
    pub fn select(self, keys: &[&str]) -> (r: JsonObject)
        ensures
            r@ == self@.restrict(key_set(keys@)),
    {
        let ghost orig = self@;
        let mut rest = self;
        let mut out = JsonObject::new();
        let mut i: usize = 0;
        proof {
            assert(key_set(keys@.take(0)) =~= Set::<Seq<char>>::empty());
            assert(out@ =~= orig.restrict(key_set(keys@.take(0))));
            assert(rest@ =~= orig.remove_keys(key_set(keys@.take(0))));
        }
        while i < keys.len()
            invariant
                i <= keys@.len(),
                out@ == orig.restrict(key_set(keys@.take(i as int))),
                rest@ == orig.remove_keys(key_set(keys@.take(i as int))),
            decreases keys@.len() - i,
        {
            let k = keys[i];
            let ghost before = key_set(keys@.take(i as int));
            proof {
                let t0 = keys@.take(i as int);
                let t1 = keys@.take(i + 1);
                assert(t1 =~= t0.push(k));
                assert forall|kk: Seq<char>| #[trigger] key_set(t1).contains(kk) == before.insert(
                    k@,
                ).contains(kk) by {
                    if key_set(t1).contains(kk) {
                        let j = choose|j: int| 0 <= j < t1.len() && #[trigger] t1[j]@ == kk;
                        if j < i {
                            assert(t0[j]@ == kk);
                        }
                    }
                    if before.contains(kk) {
                        let j = choose|j: int| 0 <= j < t0.len() && #[trigger] t0[j]@ == kk;
                        assert(t1[j]@ == kk);
                    }
                    if kk == k@ {
                        assert(t1[i as int]@ == kk);
                    }
                }
                assert(key_set(t1) =~= before.insert(k@));
            }
            match rest.remove(k) {
                Some(v) => {
                    out.insert(owned(k), v);
                },
                None => {},
            }
            proof {
                assert(out@ =~= orig.restrict(before.insert(k@)));
                assert(rest@ =~= orig.remove_keys(before.insert(k@)));
            }
            i = i + 1;
        }
        proof {
            assert(keys@.take(keys@.len() as int) =~= keys@);
        }
        out
    }

    /// The entries, each key once.
    pub fn entries(&self) -> (r: &Vec<(String, JsonValue)>)
        ensures
            keys_distinct(r@),
            entries_map(r@) == self@,
    {
        proof {
            use_type_invariant(self);
        }
        &self.entries
    }
}

/// The text of the string stored under `key`, if there is one.
pub open spec fn arg_str(args: Map<Seq<char>, JsonValue>, key: Seq<char>) -> Option<Seq<char>> {
    if args.contains_key(key) {
        args[key].spec_str()
    } else {
        None
    }
}

/// The non-negative integer stored under `key`, if there is one.
pub open spec fn arg_u64(args: Map<Seq<char>, JsonValue>, key: Seq<char>) -> Option<u64> {
    if args.contains_key(key) {
        args[key].spec_u64()
    } else {
        None
    }
}

/// The keys that a list of key literals names.
pub open spec fn key_set(keys: Seq<&str>) -> Set<Seq<char>> {
    Set::new(|kk: Seq<char>| exists|j: int| 0 <= j < keys.len() && #[trigger] keys[j]@ == kk)
}

/// The value under `kk` after `k` is set to `v`.
pub open spec fn value_after_insert(
    old_entries: Seq<(String, JsonValue)>,
    kk: Seq<char>,
    k: Seq<char>,
    v: JsonValue,
) -> JsonValue {
    if kk == k {
        v
    } else {
        entries_map(old_entries)[kk]
    }
}

} // verus!
