use crate::key::{KeyView, ParamKey};
use crate::map::{has_key, keys_unique, lemma_value_of_entry, ParamMap};
use crate::params::RawParams;
use serde_json::Value;
use vstd::prelude::*;

verus! {

/// A request without parameters has no parameter under any key, and
/// iterating over it yields nothing.
pub proof fn lemma_empty_params(key: KeyView)
    ensures
        RawParams::Empty.lookup(key) is None,
        RawParams::Empty.items().len() == 0,
{
}

/// Named parameters answer a name with the value stored under it, and never
/// answer a position.
pub proof fn lemma_object_lookup(map: ParamMap, i: int, position: nat)
    requires
        keys_unique(map@),
        0 <= i < map@.len(),
    ensures
        RawParams::Object(map).lookup(KeyView::Named(map@[i].0)) == Some(map@[i].1),
        RawParams::Object(map).lookup(KeyView::Positional(position)) is None,
{
    lemma_value_of_entry(map@, i);
}

/// Positional parameters answer a position below their length with the
/// value there, and any other position or any name with nothing.
pub proof fn lemma_array_lookup(values: Vec<Value>, position: nat, name: Seq<char>)
    ensures
        RawParams::Array(values).lookup(KeyView::Positional(position)) == if position
            < values@.len() {
            Some(values@[position as int])
        } else {
            None
        },
        RawParams::Array(values).lookup(KeyView::Named(name)) is None,
{
}

/// A lookup depends on the parameters and on what the key selects alone:
/// asking twice for the same key of unchanged parameters gives the same
/// answer.
pub proof fn lemma_lookup_repeatable(params: RawParams, first: ParamKey, second: ParamKey)
    requires
        first@ == second@,
    ensures
        params.lookup(first@) == params.lookup(second@),
{
}

/// Iteration over named parameters follows insertion order: a map that
/// gained a new key at its end yields the same parameters as before, then
/// the new one.
pub proof fn lemma_insert_keeps_order(before: ParamMap, after: ParamMap, key: Seq<char>, value: Value)
    requires
        !has_key(before@, key),
        after@ == before@.push((key, value)),
    ensures
        RawParams::Object(after).items() == RawParams::Object(before).items().push(
            (KeyView::Named(key), value),
        ),
{
    assert(RawParams::Object(after).items() =~= RawParams::Object(before).items().push(
        (KeyView::Named(key), value),
    ));
}

/// Iteration over positional parameters yields each value with its index,
/// in index order.
pub proof fn lemma_array_items(values: Vec<Value>, i: int)
    requires
        0 <= i < values@.len(),
    ensures
        RawParams::Array(values).items().len() == values@.len(),
        RawParams::Array(values).items()[i] == (KeyView::Positional(i as nat), values@[i]),
{
}

} // verus!
