//! `ConstValue`: a read-only handle to a slot of a runtime.
use crate::runtime::{continues, succeeds, Runtime, Slot};
use crate::slots::MAX_LIVE;
use vstd::prelude::*;

verus! {

/// Why an access through a handle found nothing.
#[derive(Clone, Copy, PartialEq, Eq, Debug, Structural)]
pub enum AccessError {
    /// The handle was made by another runtime.
    ForeignRuntime,
    /// The slot has been disposed of.
    Disposed,
    /// A writer has the slot's value out.
    Borrowed,
}

/// What tells one slot from every other: the runtime that issued it, its key
/// in that runtime's table, and the serial it was issued under.
#[derive(Clone, Copy, PartialEq, Eq, Hash, Debug, Structural)]
pub struct SlotId {
    pub runtime: u64,
    pub key: u64,
    pub serial: u64,
}

/// A copyable handle to a value stored in a runtime, read-only. It names the
/// slot it refers to and the type tag it views the value under. It owns
/// nothing: the value lives until its slot is disposed of. Two handles are
/// equal, and hash alike, when they name the same slot, whatever their view.
#[derive(Clone, Copy, Debug)]
pub struct ConstValue {
    slot: SlotId,
    tag: u64,
}

impl PartialEq for ConstValue {
    fn eq(&self, other: &ConstValue) -> (r: bool)
        ensures
            r == (self.id() == other.id()),
    {
        self.slot == other.slot
    }
}

impl vstd::std_specs::cmp::PartialEqSpecImpl for ConstValue {
    open spec fn obeys_eq_spec() -> bool {
        true
    }

    open spec fn eq_spec(&self, other: &ConstValue) -> bool {
        self.id() == other.id()
    }
}

impl Eq for ConstValue {

}

/// Relies on `u64`'s `Hash::hash`, which feeds the integer to the hasher;
/// nothing is claimed of what the hasher does with it.
pub assume_specification<H: core::hash::Hasher>[ <u64 as core::hash::Hash>::hash::<H> ](
    data: &u64,
    state: &mut H,
);

impl core::hash::Hash for ConstValue {
    fn hash<H: core::hash::Hasher>(&self, state: &mut H) {
        self.slot.runtime.hash(state);
        self.slot.key.hash(state);
        self.slot.serial.hash(state);
    }
}

impl ConstValue {
    /// The slot this handle refers to.
    pub closed spec fn id(self) -> SlotId {
        self.slot
    }

    /// The identity of the runtime that made this handle.
    pub open spec fn owner(self) -> u64 {
        self.id().runtime
    }

    /// The key of the slot this handle refers to.
    pub open spec fn key(self) -> u64 {
        self.id().key
    }

    /// The serial of the slot this handle refers to.
    pub open spec fn serial(self) -> u64 {
        self.id().serial
    }

    /// The type tag this handle views the value under.
    pub closed spec fn view_tag(self) -> u64 {
        self.tag
    }

    /// The handle belongs to `rt` and its slot is live there: the key is live
    /// under the serial the handle was issued with.
    pub open spec fn reaches<V>(self, rt: Runtime<V>) -> bool {
        &&& rt.rid() == self.owner()
        &&& rt.slots().contains_key(self.key())
        &&& rt.slots()[self.key()].serial == self.serial()
    }

    /// The handle reaches its slot in `rt` and no writer has the value out.
    pub open spec fn readable<V>(self, rt: Runtime<V>) -> bool {
        self.reaches(rt) && rt.slots()[self.key()].held is Some
    }

    /// The value the handle sees in `rt`, when it is readable.
    pub open spec fn value<V>(self, rt: Runtime<V>) -> V {
        rt.slots()[self.key()].held->Some_0
    }

    /// What an access through the handle in `rt` runs into.
    pub open spec fn access<V>(self, rt: Runtime<V>) -> Result<(), AccessError> {
        if rt.rid() != self.owner() {
            Err(AccessError::ForeignRuntime)
        } else if !self.reaches(rt) {
            Err(AccessError::Disposed)
        } else if rt.slots()[self.key()].held is None {
            Err(AccessError::Borrowed)
        } else {
            Ok(())
        }
    }

    /// The slot this handle refers to.
    pub fn slot_id(&self) -> (r: SlotId)
        ensures
            r == self.id(),
    {
        self.slot
    }

    /// The identity of the runtime that made this handle.
    pub fn runtime_id(&self) -> (r: u64)
        ensures
            r == self.owner(),
    {
        self.slot.runtime
    }

    /// The key of the slot this handle refers to.
    pub fn slot_key(&self) -> (r: u64)
        ensures
            r == self.key(),
    {
        self.slot.key
    }

    /// The type tag this handle views the value under.
    pub fn type_tag(&self) -> (r: u64)
        ensures
            r == self.view_tag(),
    {
        self.tag
    }

    /// Whether the handle reaches its slot in `rt`.
    pub(crate) fn is_live<V>(&self, rt: &Runtime<V>) -> (r: bool)
        requires
            rt.wf(),
        ensures
            r == self.reaches(*rt),
    {
        rt.id() == self.slot.runtime && rt.holds(self.slot.key, self.slot.serial)
    }

    /// Says whether an access through the handle in `rt` would find the value,
    /// and if not, why.
    pub fn check_access<V>(&self, rt: &Runtime<V>) -> (r: Result<(), AccessError>)
        requires
            rt.wf(),
        ensures
            r == self.access(*rt),
    {
        if rt.id() != self.slot.runtime {
            Err(AccessError::ForeignRuntime)
        } else if !self.is_live(rt) {
            Err(AccessError::Disposed)
        } else if !rt.is_available(self.slot.key) {
            Err(AccessError::Borrowed)
        } else {
            Ok(())
        }
    }

    /// Creates a read-only handle to `value`, stored in `rt` under `tag`.
    pub fn new<V>(rt: &mut Runtime<V>, value: V, tag: u64) -> (r: ConstValue)
        requires
            old(rt).wf(),
            old(rt).slots().len() < MAX_LIVE,
            old(rt).issued() < u64::MAX,
        ensures
            stored(*old(rt), *final(rt), r, value, tag),
    {
        store_const_value(rt, value, tag)
    }

    /// Applies `f` to the stored value and returns what it gives, or `None`
    /// if the handle is another runtime's, its slot is gone, or a writer has
    /// the value out. While `f` runs the runtime is lent to the call shared:
    /// `f` may read any value of it, but it cannot store or dispose of one. To
    /// change the runtime meanwhile, use `try_with_value_lent`.
    pub fn try_with_value<V, O, F: FnOnce(&V) -> O>(&self, rt: &Runtime<V>, f: F) -> (r: Option<
        O,
    >)
        requires
            rt.wf(),
            self.readable(*rt) ==> f.requires((&self.value(*rt),)),
        ensures
            match r {
                Some(o) => self.readable(*rt) && f.ensures((&self.value(*rt),), o),
                None => !self.readable(*rt),
            },
    {
        if !self.is_live(rt) {
            return None;
        }
        rt.read(self.slot.key, f)
    }

    /// Applies `f` to the stored value and to the runtime, which `f` may use
    /// meanwhile to store, change or dispose of other values. The value is
    /// taken out of its cell for the call, so an access to this same slot
    /// from within `f` finds it borrowed; when `f` returns, the value goes
    /// back, unless `f` disposed of the slot. `None`, with nothing changed, if
    /// the value cannot be read.
    pub fn try_with_value_lent<V, O, F: FnOnce(&mut Runtime<V>, &V) -> O>(
        &self,
        rt: &mut Runtime<V>,
        f: F,
    ) -> (r: Option<O>)
        requires
            old(rt).wf(),
            self.readable(*old(rt)) ==> forall|m: &mut Runtime<V>|
                lent(*old(rt), mut_ref_current(m), *self) ==> #[trigger] f.requires(
                    (m, &self.value(*old(rt))),
                ),
            self.readable(*old(rt)) ==> forall|m: &mut Runtime<V>, o: O|
                #[trigger] f.ensures((m, &self.value(*old(rt))), o) ==> mut_ref_future(m).wf(),
        ensures
            final(rt).wf(),
            r is None ==> !self.readable(*old(rt)) && continues(*old(rt), *final(rt))
                && final(rt).slots() == old(rt).slots(),
            r is Some ==> self.readable(*old(rt)) && exists|m: &mut Runtime<V>|
                lent(*old(rt), mut_ref_current(m), *self) && f.ensures(
                    (m, &self.value(*old(rt))),
                    r->Some_0,
                ) && given_back(mut_ref_future(m), *final(rt), *self, self.value(*old(rt))),
    {
        if !self.is_live(rt) {
            return None;
        }
        match rt.take(self.slot.key) {
            Some(v) => {
                proof {
                    assert(v == self.value(*old(rt)));
                    assert(lent(*old(rt), *rt, *self));
                }
                let o = f(rt, &v);
                proof {
                    assert(rt.wf());
                }
                if self.is_live(rt) {
                    let _ = rt.put_back(self.slot.key, v);
                }
                Some(o)
            },
            None => None,
        }
    }

    /// Applies `f` to the stored value and returns what it gives. The value
    /// must be readable through the handle. As with `try_with_value`, `f`
    /// cannot change the runtime.
    pub fn with_value<V, O, F: FnOnce(&V) -> O>(&self, rt: &Runtime<V>, f: F) -> (r: O)
        requires
            rt.wf(),
            self.readable(*rt),
            f.requires((&self.value(*rt),)),
        ensures
            f.ensures((&self.value(*rt),), r),
    {
        self.try_with_value(rt, f).expect("could not get stored const value")
    }

    /// A clone of the stored value, or `None` if it cannot be read. To share
    /// a value rather than copy it, store an `Rc` of it: its clone is another
    /// pointer to the same allocation.
    pub fn try_get_value<V: Clone>(&self, rt: &Runtime<V>) -> (r: Option<V>)
        requires
            rt.wf(),
        ensures
            match r {
                Some(v) => self.readable(*rt) && cloned(self.value(*rt), v),
                None => !self.readable(*rt),
            },
    {
        self.try_with_value(rt, |v: &V| -> (c: V)
            ensures
                cloned(*v, c),
            { v.clone() })
    }

    /// A clone of the stored value, which must be readable.
    pub fn get_value<V: Clone>(&self, rt: &Runtime<V>) -> (r: V)
        requires
            rt.wf(),
            self.readable(*rt),
        ensures
            cloned(self.value(*rt), r),
    {
        self.try_get_value(rt).expect("could not get const value")
    }

    /// A handle to the same slot that views the value under `tag`, if the
    /// handle reaches its slot and the value there was stored under `tag`.
    pub fn downcast<V>(&self, rt: &Runtime<V>, tag: u64) -> (r: Option<ConstValue>)
        requires
            rt.wf(),
        ensures
            match r {
                Some(h) => {
                    &&& self.reaches(*rt)
                    &&& rt.slots()[self.key()].tag == tag
                    &&& h.id() == self.id()
                    &&& h.view_tag() == tag
                },
                None => !(self.reaches(*rt) && rt.slots()[self.key()].tag == tag),
            },
    {
        if !self.is_live(rt) {
            return None;
        }
        match rt.tag_of(self.slot.key) {
            Some(t) => if t == tag {
                Some(ConstValue { slot: self.slot, tag })
            } else {
                None
            },
            None => None,
        }
    }

    /// Disposes of the stored value. Nothing happens if the handle does not
    /// reach its slot: it is another runtime's, or the slot is gone already.
    pub fn dispose<V>(self, rt: &mut Runtime<V>)
        requires
            old(rt).wf(),
        ensures
            final(rt).wf(),
            continues(*old(rt), *final(rt)),
            succeeds(*old(rt), *final(rt)),
            final(rt).slots() == (if self.reaches(*old(rt)) {
                old(rt).slots().remove(self.key())
            } else {
                old(rt).slots()
            }),
    {
        if self.is_live(rt) {
            rt.remove(self.slot.key);
        }
    }
}

/// `during` is `before` with the value of `h`'s slot taken out for a reader.
pub open spec fn lent<V>(before: Runtime<V>, during: Runtime<V>, h: ConstValue) -> bool {
    &&& continues(before, during)
    &&& during.slots() == before.slots().insert(
        h.key(),
        Slot { held: None, ..before.slots()[h.key()] },
    )
}

/// `after` is `during` with `value` put back in `h`'s slot, if that slot is
/// still there with its value out; otherwise `after` is `during` unchanged.
pub open spec fn given_back<V>(during: Runtime<V>, after: Runtime<V>, h: ConstValue, value: V) -> bool {
    &&& continues(during, after)
    &&& after.slots() == if h.reaches(during) && during.slots()[h.key()].held is None {
        during.slots().insert(h.key(), Slot { held: Some(value), ..during.slots()[h.key()] })
    } else {
        during.slots()
    }
}

/// `after` is `before` with `value` stored in a fresh slot under `tag`,
/// registered with the active scope and issued the next serial, and `h` is a
/// handle to it that views the value under `view`.
pub open spec fn stored_as<V>(
    before: Runtime<V>,
    after: Runtime<V>,
    h: ConstValue,
    value: V,
    tag: u64,
    view: u64,
) -> bool {
    &&& after.wf()
    &&& h.owner() == before.rid()
    &&& h.serial() == before.issued()
    &&& h.view_tag() == view
    &&& !before.slots().contains_key(h.key())
    &&& after.slots() == before.slots().insert(
        h.key(),
        Slot { tag, scope: before.active_scope(), serial: before.issued(), held: Some(value) },
    )
    &&& after.rid() == before.rid()
    &&& after.active_scope() == before.active_scope()
    &&& after.issued() == before.issued() + 1
    &&& succeeds(before, after)
}

/// `after` is `before` with `value` stored under `tag`, and `h` is a handle
/// to it that views the value under that same tag.
pub open spec fn stored<V>(before: Runtime<V>, after: Runtime<V>, h: ConstValue, value: V, tag: u64) -> bool {
    stored_as(before, after, h, value, tag, tag)
}

/// Stores `value` in `rt` under `tag` and returns a read-only handle that
/// views it under `view`, which may be broader than `tag`.
pub fn store_const_value_as<V>(rt: &mut Runtime<V>, value: V, tag: u64, view: u64) -> (r:
    ConstValue)
    requires
        old(rt).wf(),
        old(rt).slots().len() < MAX_LIVE,
        old(rt).issued() < u64::MAX,
    ensures
        stored_as(*old(rt), *final(rt), r, value, tag, view),
{
    let serial = rt.serials_issued();
    let key = rt.insert(value, tag);
    ConstValue { slot: SlotId { runtime: rt.id(), key, serial }, tag: view }
}

/// Stores `value` in `rt` under `tag` and returns a read-only handle to it.
pub fn store_const_value<V>(rt: &mut Runtime<V>, value: V, tag: u64) -> (r: ConstValue)
    requires
        old(rt).wf(),
        old(rt).slots().len() < MAX_LIVE,
        old(rt).issued() < u64::MAX,
    ensures
        stored(*old(rt), *final(rt), r, value, tag),
{
    store_const_value_as(rt, value, tag, tag)
}

} // verus!
