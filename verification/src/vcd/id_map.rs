//! The table from identifier codes to signal names: an insertion-ordered
//! map of the `indexmap` crate.

use crate::text::{position, views};
use indexmap::IndexMap;
use vstd::prelude::*;

verus! {

/// `indexmap::IndexMap`, a hash map that keeps its entries in the order in
/// which their keys were first inserted.
#[verifier::external_type_specification]
#[verifier::external_body]
#[verifier::reject_recursive_types(K)]
#[verifier::reject_recursive_types(V)]
#[verifier::reject_recursive_types(S)]
pub struct ExIndexMap<K, V, S>(IndexMap<K, V, S>);

/// The entries of a map, each a key with its value, in the order of the
/// map.
pub uninterp spec fn id_map_entries(m: IndexMap<String, String>) -> Seq<(Seq<char>, Seq<char>)>;

/// The keys of the entries, in their order.
pub open spec fn entry_keys(entries: Seq<(Seq<char>, Seq<char>)>) -> Seq<Seq<char>> {
    Seq::new(entries.len(), |i: int| entries[i].0)
}

/// The values of the entries, in their order.
pub open spec fn entry_values(entries: Seq<(Seq<char>, Seq<char>)>) -> Seq<Seq<char>> {
    Seq::new(entries.len(), |i: int| entries[i].1)
}

/// The value that stands under `key`, if any.
pub open spec fn entry_value(entries: Seq<(Seq<char>, Seq<char>)>, key: Seq<char>) -> Option<
    Seq<char>,
> {
    match position(entry_keys(entries), key) {
        Some(i) => Some(entries[i].1),
        None => None,
    }
}

/// The entries after `value` is put under `key`: in the place of the
/// entry of that key, if there is one, else at the end.
pub open spec fn with_entry(
    entries: Seq<(Seq<char>, Seq<char>)>,
    key: Seq<char>,
    value: Seq<char>,
) -> Seq<(Seq<char>, Seq<char>)> {
    match position(entry_keys(entries), key) {
        Some(i) => entries.update(i, (key, value)),
        None => entries.push((key, value)),
    }
}

/// `IndexMap::new` makes a map without entries.
#[verifier::external_body]
pub(crate) fn id_map_new() -> (m: IndexMap<String, String>)
    ensures
        id_map_entries(m).len() == 0,
{
    IndexMap::new()
}

/// `IndexMap::insert` puts a value under a key. Where the key is in the
/// map already, its entry keeps its place and takes the new value; else
/// the new entry comes last.
#[verifier::external_body]
pub(crate) fn id_map_insert(m: &mut IndexMap<String, String>, key: String, value: String)
    ensures
        id_map_entries(*final(m)) == with_entry(id_map_entries(*old(m)), key@, value@),
{
    m.insert(key, value);
}

/// `IndexMap::get` gives the value that stands under a key, if the key is
/// in the map.
#[verifier::external_body]
pub(crate) fn id_map_get<'a>(m: &'a IndexMap<String, String>, key: &str) -> (r: Option<&'a String>)
    ensures
        match r {
            Some(value) => entry_value(id_map_entries(*m), key@) == Some(value@),
            None => entry_value(id_map_entries(*m), key@) is None,
        },
{
    m.get(key)
}

/// `IndexMap::values` walks the values of the map in the order of its
/// entries.
#[verifier::external_body]
pub(crate) fn id_map_values(m: &IndexMap<String, String>) -> (r: Vec<String>)
    ensures
        views(r@) == entry_values(id_map_entries(*m)),
{
    m.values().cloned().collect()
}

} // verus!
