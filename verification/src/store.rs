//! The two-tier store's pure side: which store's records an invocation
//! consults, how a load degrades, and how registration appends.
//!
//! Reading and writing the JSON files themselves is the caller's business.

use vstd::prelude::*;

use crate::record::Command;

verus! {

/// The records an invocation resolves against. With global scope
/// requested, the global store's; otherwise the local store's, unless the
/// local store holds no records at all, in which case the global store's.
///
/// The fallback is store-wide, by emptiness, not per alias: a non-empty
/// local store is never bypassed, even when it lacks the requested alias.
pub open spec fn spec_selected_records(
    global_requested: bool,
    local: Seq<Command>,
    global: Seq<Command>,
) -> Seq<Command> {
    if global_requested {
        global
    } else if local.len() == 0 {
        global
    } else {
        local
    }
}

/// Decides whether an invocation must fall back to the global store:
/// only when global scope was not requested and the local store holds no
/// records at all.
pub fn needs_global_fallback(global_requested: bool, local: &[Command]) -> (r: bool)
    ensures
        r == (!global_requested && local@.len() == 0),
{
    !global_requested && local.len() == 0
}

/// The records a load hands on: a store that was missing or unparsable
/// (`None`) degrades to the empty record list, never to an error.
pub fn records_or_empty(loaded: Option<Vec<Command>>) -> (r: Vec<Command>)
    ensures
        match loaded {
            Some(v) => r == v,
            None => r@.len() == 0,
        },
{
    match loaded {
        Some(v) => v,
        None => Vec::new(),
    }
}

/// Appends a newly registered record to a store's record list. The caller
/// then rewrites the whole list to disk; re-registering an alias adds a
/// second record rather than replacing the first.
pub fn append_record(records: &mut Vec<Command>, record: Command)
    ensures
        final(records)@ == old(records)@.push(record),
{
    records.push(record);
}

/// Round trip through an empty store: appending one record to a store
/// with no records yields a store holding exactly that record, unchanged.
pub proof fn lemma_append_to_empty(records: Seq<Command>, record: Command)
    requires
        records.len() == 0,
    ensures
        records.push(record).len() == 1,
        records.push(record)[0] == record,
{
}

/// The fallback policy, stated store-wide: with the local store empty, an
/// invocation that did not request global scope resolves against the
/// global store exactly as if it had; with at least one local record, the
/// local store alone is consulted, whether or not it holds the alias.
pub proof fn lemma_fallback_policy(local: Seq<Command>, global: Seq<Command>)
    ensures
        local.len() == 0 ==> spec_selected_records(false, local, global) == global,
        local.len() > 0 ==> spec_selected_records(false, local, global) == local,
{
}

} // verus!
