use serde_json::Value;
use vstd::prelude::*;

verus! {

/// No two entries of `entries` share a key.
pub open spec fn keys_unique(entries: Seq<(Seq<char>, Value)>) -> bool {
    forall|i: int, j: int|
        0 <= i < j < entries.len() ==> #[trigger] entries[i].0 != #[trigger] entries[j].0
}

/// `k` is the key of some entry of `entries`.
pub open spec fn has_key(entries: Seq<(Seq<char>, Value)>, k: Seq<char>) -> bool {
    exists|i: int| 0 <= i < entries.len() && #[trigger] entries[i].0 == k
}

/// The value stored under `k` in `entries`, if any.
pub open spec fn value_of(entries: Seq<(Seq<char>, Value)>, k: Seq<char>) -> Option<Value> {
    if has_key(entries, k) {
        Some(entries[choose|i: int| 0 <= i < entries.len() && #[trigger] entries[i].0 == k].1)
    } else {
        None
    }
}

/// Where keys are unique, the value stored under an entry's key is that
/// entry's value.
pub proof fn lemma_value_of_entry(entries: Seq<(Seq<char>, Value)>, i: int)
    requires
        keys_unique(entries),
        0 <= i < entries.len(),
    ensures
        value_of(entries, entries[i].0) == Some(entries[i].1),
{
    assert(has_key(entries, entries[i].0));
    let j = choose|j: int| 0 <= j < entries.len() && #[trigger] entries[j].0 == entries[i].0;
    if j < i {
        assert(entries[j].0 != entries[i].0);
    } else if i < j {
        assert(entries[i].0 != entries[j].0);
    }
}

/// A JSON object, as serde_json builds it with its `preserve_order` feature.
#[verifier::external_type_specification]
#[verifier::external_body]
#[verifier::reject_recursive_types(K)]
#[verifier::reject_recursive_types(V)]
pub struct ExMap<K, V>(serde_json::Map<K, V>);

/// The entries of a JSON object, in their order.
pub uninterp spec fn object_entries(m: serde_json::Map<String, Value>) -> Seq<(Seq<char>, Value)>;

/// Relies on serde_json::Map::new: the map starts empty.
#[verifier::external_body]
fn object_new() -> (r: serde_json::Map<String, Value>)
    ensures
        object_entries(r) == Seq::<(Seq<char>, Value)>::empty(),
{
    serde_json::Map::new()
}

/// Relies on serde_json::Map::len: the number of entries.
#[verifier::external_body]
fn object_len(m: &serde_json::Map<String, Value>) -> (r: usize)
    ensures
        r == object_entries(*m).len(),
{
    m.len()
}

/// Relies on serde_json::Map::get: the value stored under `key`, if any.
#[verifier::external_body]
fn object_get<'a>(m: &'a serde_json::Map<String, Value>, key: &str) -> (r: Option<&'a Value>)
    ensures
        match r {
            Some(v) => value_of(object_entries(*m), key@) == Some(*v),
            None => !has_key(object_entries(*m), key@),
        },
{
    m.get(key)
}

/// Relies on serde_json::Map::iter, which walks the entries in their order,
/// and on `Iterator::nth` over it: the entry at position `i`, if any.
#[verifier::external_body]
fn object_nth<'a>(
    m: &'a serde_json::Map<String, Value>,
    i: usize,
) -> (r: Option<(&'a String, &'a Value)>)
    ensures
        r is Some <==> i < object_entries(*m).len(),
        r matches Some(e) ==> e.0@ == object_entries(*m)[i as int].0 && *e.1 == object_entries(
            *m,
        )[i as int].1,
{
    m.iter().nth(i)
}

/// Relies on serde_json::Map::insert, which is IndexMap::insert under
/// `preserve_order`: an existing key keeps its position and gets the new
/// value, and the old value is returned; a new key is appended last.
#[verifier::external_body]
fn object_insert(m: &mut serde_json::Map<String, Value>, key: String, value: Value) -> (r: Option<Value>)
    ensures
        has_key(object_entries(*old(m)), key@) ==> exists|i: int|
            0 <= i < object_entries(*old(m)).len() && object_entries(*old(m))[i].0 == key@ && r
                == Some(object_entries(*old(m))[i].1) && object_entries(*final(m))
                == object_entries(*old(m)).update(i, (key@, value)),
        !has_key(object_entries(*old(m)), key@) ==> r is None && object_entries(*final(m))
            == object_entries(*old(m)).push((key@, value)),
{
    m.insert(key, value)
}

/// The named parameters of a request: string keys, each at most once, in the
/// order in which they were inserted.
pub struct ParamMap {
    map: serde_json::Map<String, Value>,
}

impl View for ParamMap {
    type V = Seq<(Seq<char>, Value)>;

    closed spec fn view(&self) -> Seq<(Seq<char>, Value)> {
        object_entries(self.map)
    }
}

impl ParamMap {
    /// No two entries share a key.
    #[verifier::type_invariant]
    pub open spec fn inv(self) -> bool {
        keys_unique(self@)
    }

    /// An empty map.
    pub fn new() -> (r: ParamMap)
        ensures
            r@ == Seq::<(Seq<char>, Value)>::empty(),
            keys_unique(r@),
    {
        ParamMap { map: object_new() }
    }

    /// The number of entries.
    pub fn len(&self) -> (r: usize)
        ensures
            r == self@.len(),
            keys_unique(self@),
    {
        proof {
            use_type_invariant(self);
        }
        object_len(&self.map)
    }

    /// The value stored under `key`, if any.
    pub fn get(&self, key: &str) -> (r: Option<&Value>)
        ensures
            match r {
                Some(v) => value_of(self@, key@) == Some(*v),
                None => value_of(self@, key@) is None,
            },
            keys_unique(self@),
    {
        proof {
            use_type_invariant(self);
        }
        object_get(&self.map, key)
    }

    /// The key and value of the entry at position `i`, if there is one.
    pub fn get_index(&self, i: usize) -> (r: Option<(&String, &Value)>)
        ensures
            i < self@.len() ==> (r matches Some(e) && e.0@ == self@[i as int].0 && *e.1
                == self@[i as int].1),
            i >= self@.len() ==> r is None,
            keys_unique(self@),
    {
        proof {
            use_type_invariant(self);
        }
        object_nth(&self.map, i)
    }

    /// Stores `value` under `key`. A new key is appended after all others; an
    /// existing key keeps its position and gets the new value, and the old
    /// value is returned.
    pub fn insert(&mut self, key: String, value: Value) -> (r: Option<Value>)
        ensures
            has_key(old(self)@, key@) ==> exists|i: int|
                0 <= i < old(self)@.len() && old(self)@[i].0 == key@ && r == Some(old(self)@[i].1)
                    && final(self)@ == old(self)@.update(i, (key@, value)),
            !has_key(old(self)@, key@) ==> r is None && final(self)@ == old(self)@.push(
                (key@, value),
            ),
            keys_unique(final(self)@),
    {
        proof {
            use_type_invariant(&*self);
        }
        let mut map = object_new();
        std::mem::swap(&mut map, &mut self.map);
        let r = object_insert(&mut map, key, value);
        *self = ParamMap { map };
        r
    }
}

} // verus!
