//! Laws that relate the operations of the arena, proved from their contracts.
use crate::const_value::{stored_as, AccessError, ConstValue};
use crate::runtime::{outside_scope, succeeds, Runtime};
use vstd::prelude::*;

verus! {

/// Round trip: right after `value` is stored, its handle reads exactly
/// `value`.
pub proof fn lemma_round_trip<V>(
    before: Runtime<V>,
    after: Runtime<V>,
    h: ConstValue,
    value: V,
    tag: u64,
    view: u64,
)
    requires
        stored_as(before, after, h, value, tag, view),
    ensures
        h.readable(after),
        h.value(after) == value,
        h.access(after) == Ok::<(), AccessError>(()),
        after.slots()[h.key()].tag == tag,
{
}

/// A store hands out a slot never issued before: its handle differs from
/// every handle the runtime issued earlier, live or disposed of.
pub proof fn lemma_store_is_new<V>(
    before: Runtime<V>,
    after: Runtime<V>,
    n: ConstValue,
    value: V,
    tag: u64,
    view: u64,
    h: ConstValue,
)
    requires
        stored_as(before, after, n, value, tag, view),
        h.owner() == before.rid(),
        h.serial() < before.issued(),
    ensures
        n.id() != h.id(),
        n.serial() < after.issued(),
{
}

/// Being a later state is transitive.
pub proof fn lemma_succeeds_transitive<V>(a: Runtime<V>, b: Runtime<V>, c: Runtime<V>)
    requires
        succeeds(a, b),
        succeeds(b, c),
    ensures
        succeeds(a, c),
{
    assert forall|k: u64| #[trigger] c.slots().contains_key(k) implies c.slots()[k].serial
        >= a.issued() || (a.slots().contains_key(k) && a.slots()[k].serial
        == c.slots()[k].serial) by {
        if c.slots()[k].serial < a.issued() {
            assert(b.slots().contains_key(k));
        }
    }
}

/// Disposal is final: once a handle's slot is disposed of, the handle reaches
/// nothing, so every fallible access through it comes back empty.
pub proof fn lemma_disposal_is_final<V>(before: Runtime<V>, after: Runtime<V>, h: ConstValue)
    requires
        after.rid() == before.rid(),
        after.slots() == (if h.reaches(before) {
            before.slots().remove(h.key())
        } else {
            before.slots()
        }),
    ensures
        !h.reaches(after),
        !h.readable(after),
        h.access(after) is Err,
{
}

/// A handle that no longer reaches its slot never reaches one again, however
/// many values are stored later: a later state gives its key, if at all,
/// only under a serial issued afterwards.
pub proof fn lemma_disposed_stays_disposed<V>(before: Runtime<V>, after: Runtime<V>, h: ConstValue)
    requires
        succeeds(before, after),
        h.serial() < before.issued(),
        !h.reaches(before),
    ensures
        !h.reaches(after),
        !h.readable(after),
        h.serial() < after.issued(),
{
    if h.reaches(after) {
        assert(after.slots().contains_key(h.key()));
    }
}

/// Tearing a scope down removes the slots registered with it, and leaves
/// every other slot, value and all, as it was.
pub proof fn lemma_scope_teardown<V>(before: Runtime<V>, after: Runtime<V>, scope: u64, h: ConstValue)
    requires
        after.rid() == before.rid(),
        after.slots() == outside_scope(before.slots(), scope),
    ensures
        h.reaches(before) && before.slots()[h.key()].scope == scope ==> !h.reaches(after),
        h.reaches(before) && before.slots()[h.key()].scope != scope ==> {
            &&& h.reaches(after)
            &&& after.slots()[h.key()] == before.slots()[h.key()]
            &&& h.readable(after) == h.readable(before)
            &&& h.value(after) == h.value(before)
        },
{
}

/// Handles to one slot alias: whatever one of them reads in a runtime, the
/// other reads too, so a change made through one is seen through the other.
/// A downcast gives such a handle.
pub proof fn lemma_downcast_aliases<V>(rt: Runtime<V>, broad: ConstValue, narrow: ConstValue)
    requires
        narrow.id() == broad.id(),
    ensures
        narrow.reaches(rt) == broad.reaches(rt),
        narrow.readable(rt) == broad.readable(rt),
        narrow.value(rt) == broad.value(rt),
        narrow.access(rt) == broad.access(rt),
{
}

/// While a writer has a slot's value out, no access to that slot gets
/// through: not a read, not another update, not a replacement.
pub proof fn lemma_writer_excludes_access<V>(rt: Runtime<V>, h: ConstValue)
    requires
        h.reaches(rt),
        rt.slots()[h.key()].held is None,
    ensures
        !h.readable(rt),
        h.access(rt) == Err::<(), AccessError>(AccessError::Borrowed),
{
}

/// Handles of different runtimes are never equal, even with the same slot
/// key and serial, and no runtime lets both of them through.
pub proof fn lemma_runtimes_are_isolated<V>(rt: Runtime<V>, a: ConstValue, b: ConstValue)
    requires
        a.owner() != b.owner(),
    ensures
        a.id() != b.id(),
        !(a.reaches(rt) && b.reaches(rt)),
        a.reaches(rt) ==> b.access(rt) == Err::<(), AccessError>(AccessError::ForeignRuntime),
{
}

} // verus!
