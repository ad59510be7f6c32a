//! The generation-checked slot table, kept in a `slotmap::SlotMap`.
//!
//! A slot's key is carried around as the 64-bit code that `KeyData::as_ffi`
//! gives: the slot index in the low 32 bits and its (odd) version above.
use slotmap::Key;
use vstd::prelude::*;

verus! {

/// The slot table: for each live key code, the type tag recorded with it.
/// Verus does not take a declaration of `SlotMap` (its key bound is an outside
/// trait), so the map is held here, out of Verus's sight.
#[verifier::external_body]
pub struct SlotTable {
    map: slotmap::SlotMap<slotmap::DefaultKey, u64>,
}

/// What a slot table holds: live key codes and the tag stored under each.
pub uninterp spec fn table_of(m: SlotTable) -> Map<u64, u64>;

/// A key code as `KeyData::as_ffi` writes it: the version, which is always
/// odd for an occupied slot, sits in the upper half.
pub open spec fn is_key_code(k: u64) -> bool {
    (k / 0x1_0000_0000) % 2 == 1
}

/// The most slots that may be live at once: beyond this the table's `insert`
/// panics.
pub const MAX_LIVE: u64 = 0xFFFF_FFFE;

/// Relies on `SlotMap::new`: the new table is empty.
#[verifier::external_body]
pub(crate) fn table_new() -> (r: SlotTable)
    ensures
        table_of(r).dom() =~= Set::<u64>::empty(),
{
    SlotTable { map: slotmap::SlotMap::new() }
}

/// Relies on `SlotMap::insert` and `KeyData::as_ffi`: the returned key was not
/// live before, names the new entry, and nothing else changes. `insert` panics
/// only when `u32::MAX - 1` entries are live.
#[verifier::external_body]
pub(crate) fn table_insert(m: &mut SlotTable, tag: u64) -> (k: u64)
    requires
        table_of(*old(m)).len() < MAX_LIVE,
    ensures
        is_key_code(k),
        !table_of(*old(m)).contains_key(k),
        table_of(*final(m)) == table_of(*old(m)).insert(k, tag),
{
    m.map.insert(tag).data().as_ffi()
}

/// Relies on `SlotMap::get` and `KeyData::from_ffi`: a key code that
/// `as_ffi` wrote finds its entry if, and only if, it is live.
#[verifier::external_body]
pub(crate) fn table_get(m: &SlotTable, k: u64) -> (r: Option<u64>)
    requires
        is_key_code(k),
    ensures
        r == (if table_of(*m).contains_key(k) {
            Some(table_of(*m)[k])
        } else {
            None::<u64>
        }),
{
    m.map.get(slotmap::KeyData::from_ffi(k).into()).copied()
}

/// Relies on `SlotMap::remove` and `KeyData::from_ffi`: the entry goes, and
/// its tag is handed back; a key that is not live changes nothing.
#[verifier::external_body]
pub(crate) fn table_remove(m: &mut SlotTable, k: u64) -> (r: Option<u64>)
    requires
        is_key_code(k),
    ensures
        table_of(*final(m)) == table_of(*old(m)).remove(k),
        r == (if table_of(*old(m)).contains_key(k) {
            Some(table_of(*old(m))[k])
        } else {
            None::<u64>
        }),
{
    m.map.remove(slotmap::KeyData::from_ffi(k).into())
}

} // verus!
