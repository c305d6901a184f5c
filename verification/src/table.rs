//! The table of slots, keyed by file identifier.

use crate::file::{FileId, FileIdView};
use crate::slot::FileSlot;
use vstd::prelude::*;

verus! {

/// The hasher of the table: `rustc_hash::FxBuildHasher`, carried as it is.
#[verifier::external_type_specification]
#[verifier::external_body]
pub struct ExFxBuildHasher(rustc_hash::FxBuildHasher);

/// Maps file identifiers to their slots.
pub type SlotTable = rustc_hash::FxHashMap<FileId, FileSlot>;

/// The slots that a table holds, each under what its key holds.
pub uninterp spec fn table_slots(table: SlotTable) -> Map<FileIdView, FileSlot>;

/// The table without slots.
pub open spec fn no_slots() -> Map<FileIdView, FileSlot> {
    Map::empty()
}

/// Makes an empty `rustc_hash::FxHashMap`, with `Default::default`.
#[verifier::external_body]
pub(crate) fn table_new() -> (made: SlotTable)
    ensures
        table_slots(made) == no_slots(),
{
    rustc_hash::FxHashMap::default()
}

/// Calls `HashMap::insert`: the slot is stored under the key, in place of
/// any slot stored under an equal key. Keys are equal when their package,
/// path and kind are.
#[verifier::external_body]
pub(crate) fn table_insert(table: &mut SlotTable, id: FileId, slot: FileSlot)
    ensures
        table_slots(*final(table)) == table_slots(*old(table)).insert(id@, slot),
{
    table.insert(id, slot);
}

/// Calls `HashMap::remove`: the slot stored under an equal key leaves the
/// table and is handed back, or `None` if there is none.
#[verifier::external_body]
pub(crate) fn table_remove(table: &mut SlotTable, id: &FileId) -> (slot: Option<FileSlot>)
    ensures
        table_slots(*final(table)) == table_slots(*old(table)).remove(id@),
        slot == if table_slots(*old(table)).contains_key(id@) {
            Some(table_slots(*old(table))[id@])
        } else {
            None
        },
{
    table.remove(id)
}

/// Calls `HashMap::keys` and copies each key: every key of the table comes
/// out, and nothing else. The order is the table's own and is not stated.
#[verifier::external_body]
pub(crate) fn table_keys(table: &SlotTable) -> (ids: Vec<FileId>)
    ensures
        forall|i: int| 0 <= i < ids.len() ==> table_slots(*table).contains_key(#[trigger] ids[i]@),
        forall|key: FileIdView| #[trigger]
            table_slots(*table).contains_key(key) ==> exists|i: int|
                0 <= i < ids.len() && ids[i]@ == key,
{
    table.keys().cloned().collect()
}

} // verus!
