//! Insertion-ordered maps keyed by name, and what the library relies on of
//! them.
//!
//! The maps are `indexmap::IndexMap`s. Verus does not look inside them:
//! each map is described by the sequence of its entries in order, and the
//! operations below state, without proof, how `IndexMap` acts on it.

use crate::models::{ProxyGroup, ProxyGroupView};
use crate::text::str_eq;
use indexmap::IndexMap;
use vstd::prelude::*;

verus! {

/// `indexmap::IndexMap`: a hash map that keeps its entries in insertion
/// order. Nothing inside it is visible to the verifier.
#[verifier::external_type_specification]
#[verifier::external_body]
#[verifier::reject_recursive_types(K)]
#[verifier::reject_recursive_types(V)]
#[verifier::reject_recursive_types(S)]
pub struct ExIndexMap<K, V, S>(IndexMap<K, V, S>);

/// Proxy groups by name, in the order the backend listed them.
pub type GroupMap = IndexMap<String, ProxyGroup>;

/// The latest measured delay of each node, in milliseconds, by node name.
pub type DelayMap = IndexMap<String, u32>;

/// The entries of a group map, in order.
pub uninterp spec fn group_entries(m: GroupMap) -> Seq<(Seq<char>, ProxyGroupView)>;

/// The entries of a delay map, in order.
pub uninterp spec fn delay_entries(m: DelayMap) -> Seq<(Seq<char>, u32)>;

/// The value stored under `key`: that of the first entry with this key.
pub open spec fn lookup<V>(entries: Seq<(Seq<char>, V)>, key: Seq<char>) -> Option<V>
    decreases entries.len(),
{
    if entries.len() == 0 {
        None
    } else if entries[0].0 == key {
        Some(entries[0].1)
    } else {
        lookup(entries.drop_first(), key)
    }
}

/// The entries after storing `value` under `key`: an entry that has the key
/// keeps its place and takes the value; otherwise the pair goes last.
pub open spec fn put<V>(entries: Seq<(Seq<char>, V)>, key: Seq<char>, value: V) -> Seq<
    (Seq<char>, V),
>
    decreases entries.len(),
{
    if entries.len() == 0 {
        seq![(key, value)]
    } else if entries[0].0 == key {
        seq![(key, value)] + entries.drop_first()
    } else {
        seq![entries[0]] + put(entries.drop_first(), key, value)
    }
}

/// True when some entry has the key.
pub open spec fn has_key<V>(entries: Seq<(Seq<char>, V)>, key: Seq<char>) -> bool {
    exists|i: int| 0 <= i < entries.len() && entries[i].0 == key
}

/// True when no two entries have the same key.
pub open spec fn keys_distinct<V>(entries: Seq<(Seq<char>, V)>) -> bool {
    forall|i: int, j: int|
        0 <= i < j < entries.len() ==> (#[trigger] entries[i]).0 != (#[trigger] entries[j]).0
}

/// Storing under a key that no entry has appends the pair.
pub proof fn lemma_put_new_key<V>(entries: Seq<(Seq<char>, V)>, key: Seq<char>, value: V)
    requires
        !has_key(entries, key),
    ensures
        put(entries, key, value) == entries.push((key, value)),
    decreases entries.len(),
{
    if entries.len() > 0 {
        lemma_put_new_key(entries.drop_first(), key, value);
    }
}

/// Storing keeps the keys where they are: the entries keep their keys and
/// their order, at most one pair is appended, and only entries with the
/// stored key change their value.
pub proof fn lemma_put_keeps_the_order<V>(entries: Seq<(Seq<char>, V)>, key: Seq<char>, value: V)
    ensures
        put(entries, key, value).len() == (if has_key(entries, key) {
            entries.len()
        } else {
            entries.len() + 1
        }),
        forall|i: int|
            0 <= i < entries.len() ==> (#[trigger] put(entries, key, value)[i]).0 == entries[i].0,
        forall|i: int|
            0 <= i < entries.len() && entries[i].0 != key ==> #[trigger] put(entries, key, value)[i]
                == entries[i],
        forall|i: int|
            0 <= i < put(entries, key, value).len() ==> #[trigger] put(entries, key, value)[i] == (
                key,
                value,
            ) || (i < entries.len() && put(entries, key, value)[i] == entries[i]),
        !has_key(entries, key) ==> put(entries, key, value).last() == (key, value),
        has_key(put(entries, key, value), key),
    decreases entries.len(),
{
    let after = put(entries, key, value);
    if entries.len() == 0 || entries[0].0 == key {
        assert(after[0].0 == key);
    } else {
        let rest = entries.drop_first();
        let after_rest = put(rest, key, value);
        lemma_put_keeps_the_order(rest, key, value);
        if has_key(entries, key) {
            let i = choose|i: int| 0 <= i < entries.len() && entries[i].0 == key;
            assert(rest[i - 1].0 == key);
        }
        let at = choose|i: int| 0 <= i < after_rest.len() && after_rest[i].0 == key;
        assert(after[at + 1].0 == key);
    }
}

/// What was stored under a key is found under it, and what is found under
/// other keys stays as it was.
pub proof fn lemma_lookup_after_put<V>(
    entries: Seq<(Seq<char>, V)>,
    key: Seq<char>,
    value: V,
    other: Seq<char>,
)
    ensures
        lookup(put(entries, key, value), other) == (if other == key {
            Some(value)
        } else {
            lookup(entries, other)
        }),
    decreases entries.len(),
{
    let after = put(entries, key, value);
    if entries.len() == 0 {
        assert(lookup(after.drop_first(), other) == None::<V>);
    } else if entries[0].0 == key {
        assert(after.drop_first() =~= entries.drop_first());
    } else {
        lemma_lookup_after_put(entries.drop_first(), key, value, other);
        assert(after.drop_first() =~= put(entries.drop_first(), key, value));
    }
}

/// Storing under distinct keys keeps the keys distinct.
pub proof fn lemma_put_keeps_keys_distinct<V>(
    entries: Seq<(Seq<char>, V)>,
    key: Seq<char>,
    value: V,
)
    requires
        keys_distinct(entries),
    ensures
        keys_distinct(put(entries, key, value)),
{
    lemma_put_keeps_the_order(entries, key, value);
}

/// True when `name` is one of `names`.
pub open spec fn listed(names: Seq<Seq<char>>, name: Seq<char>) -> bool {
    exists|i: int| 0 <= i < names.len() && names[i] == name
}

/// The entries whose key is one of `names`, in their order.
pub open spec fn only_listed<V>(entries: Seq<(Seq<char>, V)>, names: Seq<Seq<char>>) -> Seq<
    (Seq<char>, V),
> {
    entries.filter(|e: (Seq<char>, V)| listed(names, e.0))
}

/// True exactly when `name` is one of `names`.
pub fn contains_name(names: &Vec<String>, name: &str) -> (found: bool)
    ensures
        found == listed(names.deep_view(), name@),
{
    let mut i: usize = 0;
    while i < names.len()
        invariant
            i <= names.len(),
            forall|k: int| 0 <= k < i ==> names[k]@ != name@,
        decreases names.len() - i,
    {
        if str_eq(names[i].as_str(), name) {
            assert(names.deep_view()[i as int] == name@);
            return true;
        }
        i += 1;
    }
    false
}

/// `IndexMap::new`: a map without entries.
#[verifier::external_body]
pub(crate) fn groups_new() -> (m: GroupMap)
    ensures
        group_entries(m) == (Seq::<(Seq<char>, ProxyGroupView)>::empty()),
{
    IndexMap::new()
}

/// `IndexMap::insert`: a key that the map holds keeps its place in the order
/// and gets the new value; a new key goes last with its value.
#[verifier::external_body]
pub(crate) fn groups_insert(m: &mut GroupMap, key: String, group: ProxyGroup)
    ensures
        group_entries(*final(m)) == put(group_entries(*old(m)), key@, group@),
{
    m.insert(key, group);
}

/// `IndexMap::len`: the number of entries.
#[verifier::external_body]
pub(crate) fn groups_len(m: &GroupMap) -> (n: usize)
    ensures
        n == group_entries(*m).len(),
{
    m.len()
}

/// `IndexMap::get_index`: the key and value at a position in the order, for
/// positions below the length, and nothing for others.
#[verifier::external_body]
pub(crate) fn groups_get_index(m: &GroupMap, index: usize) -> (entry: Option<
    (&String, &ProxyGroup),
>)
    ensures
        entry is Some <==> index < group_entries(*m).len(),
        entry matches Some(pair) ==> (pair.0@, pair.1@) == group_entries(*m)[index as int],
{
    m.get_index(index)
}

/// `IndexMap::retain`, keeping the entries whose key is one of `names`: the
/// entries are visited in order, and those kept stay in their order.
#[verifier::external_body]
pub(crate) fn groups_retain_listed(m: &mut GroupMap, names: &Vec<String>)
    ensures
        group_entries(*final(m)) == only_listed(group_entries(*old(m)), names.deep_view()),
{
    m.retain(|key, _| contains_name(names, key.as_str()));
}

/// `IndexMap::new`: a map without entries.
#[verifier::external_body]
pub(crate) fn delays_new() -> (m: DelayMap)
    ensures
        delay_entries(m) == (Seq::<(Seq<char>, u32)>::empty()),
{
    IndexMap::new()
}

/// `IndexMap::insert`: a key that the map holds keeps its place in the order
/// and gets the new value; a new key goes last with its value.
#[verifier::external_body]
pub(crate) fn delays_insert(m: &mut DelayMap, key: String, delay: u32)
    ensures
        delay_entries(*final(m)) == put(delay_entries(*old(m)), key@, delay),
{
    m.insert(key, delay);
}

/// `IndexMap::get`: the value stored under the key, if the map holds it.
#[verifier::external_body]
pub(crate) fn delays_get(m: &DelayMap, key: &str) -> (delay: Option<u32>)
    ensures
        delay == lookup(delay_entries(*m), key@),
{
    m.get(key).copied()
}

} // verus!
