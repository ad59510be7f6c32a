//! `StoredValue`: a handle to a slot of a runtime through which the value can
//! also be changed, under a guard that lets one writer at a time have it.
use crate::const_value::{
    given_back, lent, store_const_value, store_const_value_as, stored, stored_as, AccessError,
    ConstValue,
};
use crate::runtime::{continues, succeeds, Runtime, Slot};
use crate::slots::MAX_LIVE;
use vstd::prelude::*;

verus! {

/// `f` may be called on a mutable reference to `v`.
pub open spec fn update_allowed<V, O, F: FnOnce(&mut V) -> O>(f: F, v: V) -> bool {
    forall|m: &mut V| mut_ref_current(m) == v ==> #[trigger] f.requires((m,))
}

/// A copyable handle to a value stored in a runtime, through which the value
/// can be read, changed and replaced. Two handles are equal, and hash alike,
/// when they name the same slot.
#[derive(Clone, Copy, Debug)]
pub struct StoredValue(ConstValue);

impl PartialEq for StoredValue {
    fn eq(&self, other: &StoredValue) -> (r: bool)
        ensures
            r == (self.handle().id() == other.handle().id()),
    {
        self.0 == other.0
    }
}

impl vstd::std_specs::cmp::PartialEqSpecImpl for StoredValue {
    open spec fn obeys_eq_spec() -> bool {
        true
    }

    open spec fn eq_spec(&self, other: &StoredValue) -> bool {
        self.handle().id() == other.handle().id()
    }
}

impl Eq for StoredValue {

}

impl core::hash::Hash for StoredValue {
    fn hash<H: core::hash::Hasher>(&self, state: &mut H) {
        self.0.hash(state);
    }
}

impl StoredValue {
    /// The read-only handle to the same slot.
    pub closed spec fn handle(self) -> ConstValue {
        self.0
    }

    /// The read-only handle to the same slot.
    pub fn as_const(&self) -> (r: ConstValue)
        ensures
            r == self.handle(),
    {
        self.0
    }

    /// Creates a handle to `value`, stored in `rt` under `tag`.
    pub fn new<V>(rt: &mut Runtime<V>, value: V, tag: u64) -> (r: StoredValue)
        requires
            old(rt).wf(),
            old(rt).slots().len() < MAX_LIVE,
            old(rt).issued() < u64::MAX,
        ensures
            stored(*old(rt), *final(rt), r.handle(), value, tag),
    {
        store_value(rt, value, tag)
    }

    /// Says whether an access through the handle in `rt` would find the value,
    /// and if not, why.
    pub fn check_access<V>(&self, rt: &Runtime<V>) -> (r: Result<(), AccessError>)
        requires
            rt.wf(),
        ensures
            r == self.handle().access(*rt),
    {
        self.0.check_access(rt)
    }

    /// Applies `f` to the stored value and returns what it gives, or `None`
    /// if the handle is another runtime's, its slot is gone, or a writer has
    /// the value out. While `f` runs the runtime is lent to the call shared:
    /// `f` may read any value of it, but it cannot store or dispose of one; to
    /// do that meanwhile, use `try_with_value_lent`.
    pub fn try_with_value<V, O, F: FnOnce(&V) -> O>(&self, rt: &Runtime<V>, f: F) -> (r: Option<
        O,
    >)
        requires
            rt.wf(),
            self.handle().readable(*rt) ==> f.requires((&self.handle().value(*rt),)),
        ensures
            match r {
                Some(o) => self.handle().readable(*rt) && f.ensures(
                    (&self.handle().value(*rt),),
                    o,
                ),
                None => !self.handle().readable(*rt),
            },
    {
        self.0.try_with_value(rt, f)
    }

    /// Applies `f` to the stored value and to the runtime, which `f` may use
    /// meanwhile to store, change or dispose of other values. The value is
    /// taken out of its cell for the call, so an access to this same slot
    /// from within `f` finds it borrowed; when `f` returns, the value goes
    /// back, unless `f` disposed of the slot. `None`, with nothing changed, if
    /// the value cannot be read.
    pub fn try_with_value_lent<V, O, F: FnOnce(&mut Runtime<V>, &V) -> O>(
        &self,
        rt: &mut Runtime<V>,
        f: F,
    ) -> (r: Option<O>)
        requires
            old(rt).wf(),
            self.handle().readable(*old(rt)) ==> forall|m: &mut Runtime<V>|
                lent(*old(rt), mut_ref_current(m), self.handle()) ==> #[trigger] f.requires(
                    (m, &self.handle().value(*old(rt))),
                ),
            self.handle().readable(*old(rt)) ==> forall|m: &mut Runtime<V>, o: O|
                #[trigger] f.ensures((m, &self.handle().value(*old(rt))), o) ==> mut_ref_future(
                    m,
                ).wf(),
        ensures
            final(rt).wf(),
            r is None ==> !self.handle().readable(*old(rt)) && continues(*old(rt), *final(rt))
                && final(rt).slots() == old(rt).slots(),
            r is Some ==> self.handle().readable(*old(rt)) && exists|m: &mut Runtime<V>|
                lent(*old(rt), mut_ref_current(m), self.handle()) && f.ensures(
                    (m, &self.handle().value(*old(rt))),
                    r->Some_0,
                ) && given_back(
                    mut_ref_future(m),
                    *final(rt),
                    self.handle(),
                    self.handle().value(*old(rt)),
                ),
    {
        self.0.try_with_value_lent(rt, f)
    }

    /// Applies `f` to the stored value and returns what it gives. The value
    /// must be readable through the handle.
    pub fn with_value<V, O, F: FnOnce(&V) -> O>(&self, rt: &Runtime<V>, f: F) -> (r: O)
        requires
            rt.wf(),
            self.handle().readable(*rt),
            f.requires((&self.handle().value(*rt),)),
        ensures
            f.ensures((&self.handle().value(*rt),), r),
    {
        self.try_with_value(rt, f).expect("could not get stored value")
    }

    /// A clone of the stored value, or `None` if it cannot be read.
    pub fn try_get_value<V: Clone>(&self, rt: &Runtime<V>) -> (r: Option<V>)
        requires
            rt.wf(),
        ensures
            match r {
                Some(v) => self.handle().readable(*rt) && cloned(self.handle().value(*rt), v),
                None => !self.handle().readable(*rt),
            },
    {
        self.0.try_get_value(rt)
    }

    /// A clone of the stored value, which must be readable.
    pub fn get_value<V: Clone>(&self, rt: &Runtime<V>) -> (r: V)
        requires
            rt.wf(),
            self.handle().readable(*rt),
        ensures
            cloned(self.handle().value(*rt), r),
    {
        self.try_get_value(rt).expect("could not get stored value")
    }

    /// Takes the value out for a writer. Until `finish_update` gives it back,
    /// every other access to the slot finds it borrowed, while the runtime
    /// itself is free for other work. `None` if the value cannot be read, a
    /// writer holding it already included.
    pub fn begin_update<V>(&self, rt: &mut Runtime<V>) -> (r: Option<V>)
        requires
            old(rt).wf(),
        ensures
            final(rt).wf(),
            continues(*old(rt), *final(rt)),
            succeeds(*old(rt), *final(rt)),
            match r {
                Some(v) => {
                    &&& self.handle().readable(*old(rt))
                    &&& v == self.handle().value(*old(rt))
                    &&& final(rt).slots() == old(rt).slots().insert(
                        self.handle().key(),
                        Slot { held: None, ..old(rt).slots()[self.handle().key()] },
                    )
                },
                None => {
                    &&& !self.handle().readable(*old(rt))
                    &&& final(rt).slots() == old(rt).slots()
                },
            },
    {
        if !self.0.is_live(rt) {
            return None;
        }
        rt.take(self.0.slot_key())
    }

    /// Gives the value back after `begin_update`. If the slot is gone
    /// meanwhile, or no writer had its value, nothing changes and `value` is
    /// handed back.
    pub fn finish_update<V>(&self, rt: &mut Runtime<V>, value: V) -> (r: Option<V>)
        requires
            old(rt).wf(),
        ensures
            final(rt).wf(),
            continues(*old(rt), *final(rt)),
            succeeds(*old(rt), *final(rt)),
            if self.handle().reaches(*old(rt)) && old(rt).slots()[self.handle().key()].held is None {
                &&& r is None
                &&& final(rt).slots() == old(rt).slots().insert(
                    self.handle().key(),
                    Slot { held: Some(value), ..old(rt).slots()[self.handle().key()] },
                )
            } else {
                &&& r == Some(value)
                &&& final(rt).slots() == old(rt).slots()
            },
    {
        if !self.0.is_live(rt) {
            return Some(value);
        }
        rt.put_back(self.0.slot_key(), value)
    }

    /// Lets `f` change the stored value and returns what it gives, or `None`
    /// if the value cannot be read (which includes a writer holding it).
    pub fn try_update_value<V, O, F: FnOnce(&mut V) -> O>(self, rt: &mut Runtime<V>, f: F) -> (r:
        Option<O>)
        requires
            old(rt).wf(),
            self.handle().readable(*old(rt)) ==> update_allowed(f, self.handle().value(*old(rt))),
        ensures
            final(rt).wf(),
            continues(*old(rt), *final(rt)),
            succeeds(*old(rt), *final(rt)),
            match r {
                Some(o) => {
                    &&& self.handle().readable(*old(rt))
                    &&& self.handle().readable(*final(rt))
                    &&& final(rt).slots() == old(rt).slots().insert(
                        self.handle().key(),
                        Slot {
                            held: Some(self.handle().value(*final(rt))),
                            ..old(rt).slots()[self.handle().key()]
                        },
                    )
                },
                None => {
                    &&& !self.handle().readable(*old(rt))
                    &&& final(rt).slots() == old(rt).slots()
                },
            },
            r is Some ==> exists|m: &mut V|
                mut_ref_current(m) == self.handle().value(*old(rt)) && mut_ref_future(m)
                    == self.handle().value(*final(rt)) && f.ensures((m,), r->Some_0),
    {
        match self.begin_update(rt) {
            Some(v) => {
                let mut v = v;
                let o = f(&mut v);
                let ghost v1 = v;
                let back = self.finish_update(rt, v);
                proof {
                    assert(back is None);
                    assert(rt.slots() =~= old(rt).slots().insert(
                        self.handle().key(),
                        Slot { held: Some(v1), ..old(rt).slots()[self.handle().key()] },
                    ));
                }
                Some(o)
            },
            None => None,
        }
    }

    /// Lets `f` change the stored value, which must be readable, and returns
    /// what `f` gives.
    pub fn update_value<V, O, F: FnOnce(&mut V) -> O>(&self, rt: &mut Runtime<V>, f: F) -> (r: O)
        requires
            old(rt).wf(),
            self.handle().readable(*old(rt)),
            update_allowed(f, self.handle().value(*old(rt))),
        ensures
            final(rt).wf(),
            continues(*old(rt), *final(rt)),
            succeeds(*old(rt), *final(rt)),
            self.handle().readable(*final(rt)),
            final(rt).slots() == old(rt).slots().insert(
                self.handle().key(),
                Slot {
                    held: Some(self.handle().value(*final(rt))),
                    ..old(rt).slots()[self.handle().key()]
                },
            ),
            exists|m: &mut V|
                mut_ref_current(m) == self.handle().value(*old(rt)) && mut_ref_future(m)
                    == self.handle().value(*final(rt)) && f.ensures((m,), r),
    {
        self.try_update_value(rt, f).expect("could not set stored value")
    }

    /// Replaces the stored value. If the value cannot be read (the slot is
    /// gone, the handle is another runtime's, or a writer has the value out),
    /// nothing changes and `value` is handed back.
    pub fn try_set_value<V>(&self, rt: &mut Runtime<V>, value: V) -> (r: Option<V>)
        requires
            old(rt).wf(),
        ensures
            final(rt).wf(),
            continues(*old(rt), *final(rt)),
            succeeds(*old(rt), *final(rt)),
            if self.handle().readable(*old(rt)) {
                &&& r is None
                &&& final(rt).slots() == old(rt).slots().insert(
                    self.handle().key(),
                    Slot { held: Some(value), ..old(rt).slots()[self.handle().key()] },
                )
            } else {
                &&& r == Some(value)
                &&& final(rt).slots() == old(rt).slots()
            },
    {
        if !self.0.is_live(rt) {
            return Some(value);
        }
        rt.replace(self.0.slot_key(), value)
    }

    /// Replaces the stored value, which must be readable.
    pub fn set_value<V>(&self, rt: &mut Runtime<V>, value: V)
        requires
            old(rt).wf(),
            self.handle().readable(*old(rt)),
        ensures
            final(rt).wf(),
            continues(*old(rt), *final(rt)),
            succeeds(*old(rt), *final(rt)),
            final(rt).slots() == old(rt).slots().insert(
                self.handle().key(),
                Slot { held: Some(value), ..old(rt).slots()[self.handle().key()] },
            ),
    {
        self.check_access(rt).expect("could not set stored value");
        let rejected = self.try_set_value(rt, value);
        proof {
            assert(rejected is None);
        }
    }

    /// A handle to the same slot that views the value under `tag`, if the
    /// handle reaches its slot and the value there was stored under `tag`.
    /// Changes through either handle are seen through the other.
    pub fn downcast<V>(&self, rt: &Runtime<V>, tag: u64) -> (r: Option<StoredValue>)
        requires
            rt.wf(),
        ensures
            match r {
                Some(h) => {
                    &&& self.handle().reaches(*rt)
                    &&& rt.slots()[self.handle().key()].tag == tag
                    &&& h.handle().id() == self.handle().id()
                    &&& h.handle().view_tag() == tag
                },
                None => !(self.handle().reaches(*rt) && rt.slots()[self.handle().key()].tag
                    == tag),
            },
    {
        match self.0.downcast(rt, tag) {
            Some(h) => Some(StoredValue(h)),
            None => None,
        }
    }

    /// Disposes of the stored value. Nothing happens if the handle does not
    /// reach its slot: it is another runtime's, or the slot is gone already.
    pub fn dispose<V>(self, rt: &mut Runtime<V>)
        requires
            old(rt).wf(),
        ensures
            final(rt).wf(),
            continues(*old(rt), *final(rt)),
            succeeds(*old(rt), *final(rt)),
            final(rt).slots() == (if self.handle().reaches(*old(rt)) {
                old(rt).slots().remove(self.handle().key())
            } else {
                old(rt).slots()
            }),
    {
        self.0.dispose(rt)
    }
}

/// Stores `value` in `rt` under `tag` and returns a handle to it.
pub fn store_value<V>(rt: &mut Runtime<V>, value: V, tag: u64) -> (r: StoredValue)
    requires
        old(rt).wf(),
        old(rt).slots().len() < MAX_LIVE,
        old(rt).issued() < u64::MAX,
    ensures
        stored(*old(rt), *final(rt), r.handle(), value, tag),
{
    StoredValue(store_const_value(rt, value, tag))
}

/// Stores `value` in `rt` under `tag` and returns a handle that views it under
/// `view`, which may be broader than `tag`; `downcast` narrows it again.
pub fn store_value_as<V>(rt: &mut Runtime<V>, value: V, tag: u64, view: u64) -> (r: StoredValue)
    requires
        old(rt).wf(),
        old(rt).slots().len() < MAX_LIVE,
        old(rt).issued() < u64::MAX,
    ensures
        stored_as(*old(rt), *final(rt), r.handle(), value, tag, view),
{
    StoredValue(store_const_value_as(rt, value, tag, view))
}

} // verus!
