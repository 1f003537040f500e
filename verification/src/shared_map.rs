//! Trusted boundary around the sharded concurrent map that backs the node
//! registry. The map's contents are named by `node_map_contents`; each
//! wrapper states, over that name, what the outside call does.

use vstd::prelude::*;
use crate::registry::{NodeRecord, NodeRecordV};

verus! {

#[verifier::external_type_specification]
#[verifier::external_body]
#[verifier::reject_recursive_types(K)]
#[verifier::reject_recursive_types(V)]
#[verifier::reject_recursive_types(S)]
pub struct ExDashMap<K, V, S>(dashmap::DashMap<K, V, S>);

/// What the shared map holds: node id to record.
pub uninterp spec fn node_map_contents(m: dashmap::DashMap<String, NodeRecord>) -> Map<
    Seq<char>,
    NodeRecordV,
>;

/// Relies on dashmap::DashMap::new: an empty map.
#[verifier::external_body]
pub(crate) fn node_map_new() -> (m: dashmap::DashMap<String, NodeRecord>)
    ensures
        node_map_contents(m) == crate::registry::empty_model(),
{
    dashmap::DashMap::new()
}

/// Relies on dashmap::DashMap::insert: maps the key to the value and keeps
/// every other entry.
#[verifier::external_body]
pub(crate) fn node_map_insert(
    m: &mut dashmap::DashMap<String, NodeRecord>,
    key: String,
    value: NodeRecord,
)
    ensures
        node_map_contents(*final(m)) == node_map_contents(*old(m)).insert(key@, value@),
{
    m.insert(key, value);
}

/// Relies on dashmap::DashMap::get: the value under the key, if the key is
/// present (cloned here before the guard is dropped).
#[verifier::external_body]
pub(crate) fn node_map_get(m: &dashmap::DashMap<String, NodeRecord>, key: &String) -> (r: Option<
    NodeRecord,
>)
    ensures
        match r {
            Some(v) => node_map_contents(*m).contains_key(key@) && v@ == node_map_contents(
                *m,
            )[key@],
            None => !node_map_contents(*m).contains_key(key@),
        },
{
    m.get(key).map(|e| e.value().clone())
}

/// A faithful listing of the map model `m`: one entry per key, in some
/// order.
pub open spec fn entries_list(r: Seq<(String, NodeRecord)>, m: Map<Seq<char>, NodeRecordV>) -> bool {
    &&& m.dom().finite()
    &&& r.len() == m.dom().len()
    &&& forall|i: int|
        0 <= i < r.len() ==> m.contains_key(#[trigger] r[i].0@) && m[r[i].0@] == r[i].1@
    &&& forall|i: int, j: int| 0 <= i < j < r.len() ==> r[i].0@ != r[j].0@
    &&& forall|k: Seq<char>|
        m.contains_key(k) ==> exists|i: int| 0 <= i < r.len() && #[trigger] r[i].0@ == k
}

/// Relies on dashmap::DashMap::iter: it visits each entry exactly once, in
/// no fixed order.
#[verifier::external_body]
pub(crate) fn node_map_entries(m: &dashmap::DashMap<String, NodeRecord>) -> (r: Vec<
    (String, NodeRecord),
>)
    ensures
        entries_list(r@, node_map_contents(*m)),
{
    m.iter().map(|e| (e.key().clone(), e.value().clone())).collect()
}

} // verus!
