//! The registry's tables: `ahash` maps keyed by protocol identity, seen
//! through their contents.

use vstd::prelude::*;

use ahash::{AHashMap, RandomState};

use crate::pad::{PadData, PadGroup};
use crate::tool::ToolData;

verus! {

#[verifier::external_type_specification]
#[verifier::external_body]
#[verifier::reject_recursive_types(K)]
#[verifier::reject_recursive_types(V)]
#[verifier::reject_recursive_types(S)]
pub struct ExAHashMap<K, V, S>(AHashMap<K, V, S>);

#[verifier::external_type_specification]
#[verifier::external_body]
pub struct ExRandomState(RandomState);

/// What a tool table holds.
pub uninterp spec fn tool_entries(m: AHashMap<u32, ToolData>) -> Map<u32, ToolData>;

/// What a pad table holds.
pub uninterp spec fn pad_entries(m: AHashMap<u32, PadData>) -> Map<u32, PadData>;

/// What a group table holds.
pub uninterp spec fn group_entries(m: AHashMap<u32, PadGroup>) -> Map<u32, PadGroup>;

/// Relies on AHashMap::new: the new map is empty.
#[verifier::external_body]
pub(crate) fn new_tool_table() -> (r: AHashMap<u32, ToolData>)
    ensures
        tool_entries(r).dom() == Set::<u32>::empty(),
{
    AHashMap::new()
}

/// Relies on AHashMap::insert: afterwards `k` maps to `v`, other keys
/// unchanged; returns the value `k` had before, if any.
#[verifier::external_body]
pub(crate) fn tool_table_insert(m: &mut AHashMap<u32, ToolData>, k: u32, v: ToolData) -> (r: Option<ToolData>)
    ensures
        tool_entries(*final(m)) == tool_entries(*old(m)).insert(k, v),
        r == (if tool_entries(*old(m)).contains_key(k) {
            Some(tool_entries(*old(m))[k])
        } else {
            None
        }),
{
    m.insert(k, v)
}

/// Relies on AHashMap::remove: returns the value at `k`, if any, and drops `k`.
#[verifier::external_body]
pub(crate) fn tool_table_remove(m: &mut AHashMap<u32, ToolData>, k: u32) -> (r: Option<ToolData>)
    ensures
        tool_entries(*final(m)) == tool_entries(*old(m)).remove(k),
        r == (if tool_entries(*old(m)).contains_key(k) {
            Some(tool_entries(*old(m))[k])
        } else {
            None
        }),
{
    m.remove(&k)
}

/// Relies on AHashMap::get: the value at `k`, if any.
#[verifier::external_body]
pub(crate) fn tool_table_get(m: &AHashMap<u32, ToolData>, k: u32) -> (r: Option<&ToolData>)
    ensures
        r is Some <==> tool_entries(*m).contains_key(k),
        r is Some ==> *r->0 == tool_entries(*m)[k],
{
    m.get(&k)
}

/// Relies on AHashMap::new: the new map is empty.
#[verifier::external_body]
pub(crate) fn new_pad_table() -> (r: AHashMap<u32, PadData>)
    ensures
        pad_entries(r).dom() == Set::<u32>::empty(),
{
    AHashMap::new()
}

/// Relies on AHashMap::insert: afterwards `k` maps to `v`, other keys
/// unchanged; returns the value `k` had before, if any.
#[verifier::external_body]
pub(crate) fn pad_table_insert(m: &mut AHashMap<u32, PadData>, k: u32, v: PadData) -> (r: Option<PadData>)
    ensures
        pad_entries(*final(m)) == pad_entries(*old(m)).insert(k, v),
        r == (if pad_entries(*old(m)).contains_key(k) {
            Some(pad_entries(*old(m))[k])
        } else {
            None
        }),
{
    m.insert(k, v)
}

/// Relies on AHashMap::remove: returns the value at `k`, if any, and drops `k`.
#[verifier::external_body]
pub(crate) fn pad_table_remove(m: &mut AHashMap<u32, PadData>, k: u32) -> (r: Option<PadData>)
    ensures
        pad_entries(*final(m)) == pad_entries(*old(m)).remove(k),
        r == (if pad_entries(*old(m)).contains_key(k) {
            Some(pad_entries(*old(m))[k])
        } else {
            None
        }),
{
    m.remove(&k)
}

/// Relies on AHashMap::get: the value at `k`, if any.
#[verifier::external_body]
pub(crate) fn pad_table_get(m: &AHashMap<u32, PadData>, k: u32) -> (r: Option<&PadData>)
    ensures
        r is Some <==> pad_entries(*m).contains_key(k),
        r is Some ==> *r->0 == pad_entries(*m)[k],
{
    m.get(&k)
}

/// Relies on AHashMap::new: the new map is empty.
#[verifier::external_body]
pub(crate) fn new_group_table() -> (r: AHashMap<u32, PadGroup>)
    ensures
        group_entries(r).dom() == Set::<u32>::empty(),
{
    AHashMap::new()
}

/// Relies on AHashMap::insert: afterwards `k` maps to `v`, other keys
/// unchanged; returns the value `k` had before, if any.
#[verifier::external_body]
pub(crate) fn group_table_insert(m: &mut AHashMap<u32, PadGroup>, k: u32, v: PadGroup) -> (r: Option<PadGroup>)
    ensures
        group_entries(*final(m)) == group_entries(*old(m)).insert(k, v),
        r == (if group_entries(*old(m)).contains_key(k) {
            Some(group_entries(*old(m))[k])
        } else {
            None
        }),
{
    m.insert(k, v)
}

/// Relies on AHashMap::remove: returns the value at `k`, if any, and drops `k`.
#[verifier::external_body]
pub(crate) fn group_table_remove(m: &mut AHashMap<u32, PadGroup>, k: u32) -> (r: Option<PadGroup>)
    ensures
        group_entries(*final(m)) == group_entries(*old(m)).remove(k),
        r == (if group_entries(*old(m)).contains_key(k) {
            Some(group_entries(*old(m))[k])
        } else {
            None
        }),
{
    m.remove(&k)
}

/// Relies on AHashMap::get: the value at `k`, if any.
#[verifier::external_body]
pub(crate) fn group_table_get(m: &AHashMap<u32, PadGroup>, k: u32) -> (r: Option<&PadGroup>)
    ensures
        r is Some <==> group_entries(*m).contains_key(k),
        r is Some ==> *r->0 == group_entries(*m)[k],
{
    m.get(&k)
}

} // verus!
