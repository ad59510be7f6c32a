//! The runtime: a slot arena, the access guard of each cell, and the disposal
//! tokens that tie each slot to the scope it was stored in.
use crate::slots::{
    is_key_code, table_get, table_insert, table_new, table_of, table_remove, SlotTable, MAX_LIVE,
};
use std::collections::HashMap;
use vstd::prelude::*;

verus! {

broadcast use vstd::std_specs::hash::group_hash_axioms;

/// What a live slot is, as the contracts see it.
pub struct Slot<V> {
    /// The type tag recorded when the value was stored.
    pub tag: u64,
    /// The scope whose teardown removes the slot.
    pub scope: u64,
    /// The serial the slot was issued under: no other slot of the runtime,
    /// earlier or later, gets the same one.
    pub serial: u64,
    /// The value, or `None` while a writer has it out.
    pub held: Option<V>,
}

/// A teardown record: disposing `scope` removes the slot `slot` issued under
/// `serial`, if it is still there.
#[derive(Clone, Copy, PartialEq, Eq, Structural)]
struct DisposalToken {
    scope: u64,
    slot: u64,
    serial: u64,
}

/// One cell of the arena: its scope and serial, and its value unless a
/// writer holds it.
struct Cell<V> {
    scope: u64,
    serial: u64,
    held: Option<V>,
}

/// Which slots a teardown removes.
enum Doom {
    Scope(u64),
    All,
}

impl Doom {
    spec fn condemns(self, scope: u64) -> bool {
        match self {
            Doom::Scope(s) => scope == s,
            Doom::All => true,
        }
    }

    fn condemns_scope(&self, scope: u64) -> (r: bool)
        ensures
            r == self.condemns(scope),
    {
        match self {
            Doom::Scope(s) => scope == *s,
            Doom::All => true,
        }
    }
}

/// The slots of `m` whose scope is not `scope`.
pub open spec fn outside_scope<V>(m: Map<u64, Slot<V>>, scope: u64) -> Map<u64, Slot<V>> {
    Map::new(|k: u64| m.contains_key(k) && m[k].scope != scope, |k: u64| m[k])
}

/// `after` comes from `before` without a store: it is well formed, has the
/// same identity, active scope and issued serials, and each of its slots was
/// a slot of `before` with the same tag, scope and serial.
pub open spec fn continues<V>(before: Runtime<V>, after: Runtime<V>) -> bool {
    &&& after.wf()
    &&& after.rid() == before.rid()
    &&& after.active_scope() == before.active_scope()
    &&& after.issued() == before.issued()
    &&& forall|k: u64|
        #[trigger] after.slots().contains_key(k) ==> {
            &&& before.slots().contains_key(k)
            &&& after.slots()[k].tag == before.slots()[k].tag
            &&& after.slots()[k].scope == before.slots()[k].scope
            &&& after.slots()[k].serial == before.slots()[k].serial
        }
}

/// `after` is a later state of the runtime `before`: same identity, no fewer
/// serials issued, and each of its slots either was a slot of `before` under
/// the same serial or was issued a serial that `before` had not issued.
pub open spec fn succeeds<V>(before: Runtime<V>, after: Runtime<V>) -> bool {
    &&& after.rid() == before.rid()
    &&& before.issued() <= after.issued()
    &&& forall|k: u64|
        #[trigger] after.slots().contains_key(k) ==> after.slots()[k].serial >= before.issued() || (
        before.slots().contains_key(k) && before.slots()[k].serial == after.slots()[k].serial)
}

/// An arena of values of type `V`, with an identity that handles are checked
/// against. All values of one runtime have the type `V`; to keep values of
/// several types in one runtime, make `V` an enum of them and give each
/// variant its own type tag.
pub struct Runtime<V> {
    id: u64,
    table: SlotTable,
    cells: HashMap<u64, Cell<V>>,
    tokens: Vec<DisposalToken>,
    scope: u64,
    issued: u64,
}

impl<V> Runtime<V> {
    /// The identity of this runtime.
    pub closed spec fn rid(&self) -> u64 {
        self.id
    }

    /// The scope that newly stored values are registered with.
    pub closed spec fn active_scope(&self) -> u64 {
        self.scope
    }

    /// How many serials have been issued; the next store gets this one.
    pub closed spec fn issued(&self) -> u64 {
        self.issued
    }

    /// The live slots, by key.
    pub closed spec fn slots(&self) -> Map<u64, Slot<V>> {
        Map::new(
            |k: u64| table_of(self.table).contains_key(k),
            |k: u64|
                Slot {
                    tag: table_of(self.table)[k],
                    scope: self.cells@[k].scope,
                    serial: self.cells@[k].serial,
                    held: self.cells@[k].held,
                },
        )
    }

    /// The token that slot `k` is registered under.
    spec fn token_of(&self, k: u64) -> DisposalToken {
        DisposalToken { scope: self.cells@[k].scope, slot: k, serial: self.cells@[k].serial }
    }

    /// `tok` names a live slot under that slot's serial.
    spec fn token_live(&self, tok: DisposalToken) -> bool {
        self.cells@.contains_key(tok.slot) && self.cells@[tok.slot].serial == tok.serial
    }

    /// The arena is consistent: the slot table and the cells have the same
    /// keys, every serial in use was issued, a token that names a live slot
    /// under its serial names its scope too, and every live slot has a token.
    /// Tokens of disposed slots may linger until their scope is torn down.
    pub closed spec fn wf(&self) -> bool {
        let t = table_of(self.table);
        &&& t.dom().finite()
        &&& t.dom() == self.cells@.dom()
        &&& forall|k: u64| t.contains_key(k) ==> is_key_code(k)
        &&& forall|k: u64| #[trigger] self.cells@.contains_key(k) ==> self.cells@[k].serial < self.issued
        &&& forall|i: int|
            0 <= i < self.tokens@.len() ==> {
                let tok = #[trigger] self.tokens@[i];
                &&& tok.serial < self.issued
                &&& self.token_live(tok) ==> self.cells@[tok.slot].scope == tok.scope
            }
        &&& forall|k: u64|
            #[trigger] t.contains_key(k) ==> self.tokens@.contains(self.token_of(k))
    }

    /// Makes an empty runtime with the given identity, in scope 0. Handles are
    /// told apart by the identity of the runtime that made them, so runtimes
    /// that live side by side must be given distinct identities.
    pub fn new(id: u64) -> (r: Runtime<V>)
        ensures
            r.wf(),
            r.rid() == id,
            r.active_scope() == 0,
            r.issued() == 0,
            r.slots() =~= Map::<u64, Slot<V>>::empty(),
    {
        Runtime {
            id,
            table: table_new(),
            cells: HashMap::new(),
            tokens: Vec::new(),
            scope: 0,
            issued: 0,
        }
    }

    /// This runtime's identity.
    pub fn id(&self) -> (r: u64)
        ensures
            r == self.rid(),
    {
        self.id
    }

    /// The scope that newly stored values are registered with.
    pub fn current_scope(&self) -> (r: u64)
        ensures
            r == self.active_scope(),
    {
        self.scope
    }

    /// How many serials have been issued.
    pub fn serials_issued(&self) -> (r: u64)
        ensures
            r == self.issued(),
    {
        self.issued
    }

    /// Makes `scope` the one that newly stored values are registered with.
    pub fn set_scope(&mut self, scope: u64)
        requires
            old(self).wf(),
        ensures
            final(self).wf(),
            final(self).active_scope() == scope,
            final(self).rid() == old(self).rid(),
            final(self).issued() == old(self).issued(),
            final(self).slots() == old(self).slots(),
            succeeds(*old(self), *final(self)),
    {
        self.scope = scope;
    }

    /// How many slots are live.
    pub fn len(&self) -> (r: usize)
        requires
            self.wf(),
        ensures
            r as nat == self.slots().len(),
    {
        proof {
            assert(self.slots().dom() =~= self.cells@.dom());
        }
        self.cells.len()
    }

    /// Whether `k` names a live slot.
    pub fn contains(&self, k: u64) -> (r: bool)
        requires
            self.wf(),
        ensures
            r == self.slots().contains_key(k),
    {
        self.cells.contains_key(&k)
    }

    /// Whether `k` names a live slot issued under `serial`.
    pub fn holds(&self, k: u64, serial: u64) -> (r: bool)
        requires
            self.wf(),
        ensures
            r == (self.slots().contains_key(k) && self.slots()[k].serial == serial),
    {
        match self.cells.get(&k) {
            Some(cell) => cell.serial == serial,
            None => false,
        }
    }

    /// Whether `k` names a live slot whose value no writer has out.
    pub fn is_available(&self, k: u64) -> (r: bool)
        requires
            self.wf(),
        ensures
            r == (self.slots().contains_key(k) && self.slots()[k].held is Some),
    {
        match self.cells.get(&k) {
            Some(cell) => cell.held.is_some(),
            None => false,
        }
    }

    /// The type tag of the live slot `k`.
    pub fn tag_of(&self, k: u64) -> (r: Option<u64>)
        requires
            self.wf(),
        ensures
            r == (if self.slots().contains_key(k) {
                Some(self.slots()[k].tag)
            } else {
                None::<u64>
            }),
    {
        if self.cells.contains_key(&k) {
            table_get(&self.table, k)
        } else {
            None
        }
    }

    /// Applies `f` to the value of slot `k`, unless the slot is gone or its
    /// value is out with a writer.
    pub fn read<O, F: FnOnce(&V) -> O>(&self, k: u64, f: F) -> (r: Option<O>)
        requires
            self.wf(),
            self.slots().contains_key(k) && self.slots()[k].held is Some ==> f.requires(
                (&self.slots()[k].held->Some_0,),
            ),
        ensures
            match r {
                Some(o) => {
                    &&& self.slots().contains_key(k)
                    &&& self.slots()[k].held is Some
                    &&& f.ensures((&self.slots()[k].held->Some_0,), o)
                },
                None => !(self.slots().contains_key(k) && self.slots()[k].held is Some),
            },
    {
        match self.cells.get(&k) {
            Some(cell) => match &cell.held {
                Some(v) => Some(f(v)),
                None => None,
            },
            None => None,
        }
    }

    /// Puts `held` in the live cell `k`, keeping its scope and serial.
    fn set_held(&mut self, k: u64, held: Option<V>)
        requires
            old(self).wf(),
            old(self).cells@.contains_key(k),
        ensures
            final(self).wf(),
            continues(*old(self), *final(self)),
            final(self).slots() == old(self).slots().insert(
                k,
                Slot { held, ..old(self).slots()[k] },
            ),
    {
        let (scope, serial) = match self.cells.get(&k) {
            Some(cell) => (cell.scope, cell.serial),
            None => (0, 0),
        };
        self.cells.insert(k, Cell { scope, serial, held });
        proof {
            assert(self.cells@.dom() =~= old(self).cells@.dom());
            assert forall|j: u64| #[trigger]
                self.cells@.contains_key(j) implies self.cells@[j].scope == old(self).cells@[j].scope
                && self.cells@[j].serial == old(self).cells@[j].serial by {}
            assert forall|j: u64| #[trigger]
                table_of(self.table).contains_key(j) implies self.tokens@.contains(
                self.token_of(j),
            ) by {
                assert(self.token_of(j) == old(self).token_of(j));
            }
            assert forall|i: int| 0 <= i < self.tokens@.len() implies {
                let tok = #[trigger] self.tokens@[i];
                &&& tok.serial < self.issued
                &&& self.token_live(tok) ==> self.cells@[tok.slot].scope == tok.scope
            } by {
                let tok = self.tokens@[i];
                assert(self.token_live(tok) == old(self).token_live(tok));
            }
            assert(self.slots() =~= old(self).slots().insert(
                k,
                Slot { held, ..old(self).slots()[k] },
            ));
        }
    }

    /// Hands the value of slot `k` to a writer, leaving the cell marked as
    /// written to until `put_back`. Gives nothing if the slot is gone or a
    /// writer already has its value.
    pub fn take(&mut self, k: u64) -> (r: Option<V>)
        requires
            old(self).wf(),
        ensures
            final(self).wf(),
            continues(*old(self), *final(self)),
            succeeds(*old(self), *final(self)),
            match r {
                Some(v) => {
                    &&& old(self).slots().contains_key(k)
                    &&& old(self).slots()[k].held == Some(v)
                    &&& final(self).slots() == old(self).slots().insert(
                        k,
                        Slot { held: None, ..old(self).slots()[k] },
                    )
                },
                None => {
                    &&& !(old(self).slots().contains_key(k) && old(self).slots()[k].held is Some)
                    &&& final(self).slots() == old(self).slots()
                },
            },
    {
        if !self.is_available(k) {
            return None;
        }
        let r = match self.cells.remove(&k) {
            Some(cell) => {
                let Cell { scope, serial, held } = cell;
                self.cells.insert(k, Cell { scope, serial, held: None });
                held
            },
            None => None,
        };
        proof {
            let ghost mid = *self;
            assert(self.cells@.dom() =~= old(self).cells@.dom());
            assert forall|j: u64| #[trigger]
                self.cells@.contains_key(j) implies self.cells@[j].scope == old(self).cells@[j].scope
                && self.cells@[j].serial == old(self).cells@[j].serial by {}
            assert forall|j: u64| #[trigger]
                table_of(self.table).contains_key(j) implies self.tokens@.contains(
                self.token_of(j),
            ) by {
                assert(self.token_of(j) == old(self).token_of(j));
            }
            assert forall|i: int| 0 <= i < self.tokens@.len() implies {
                let tok = #[trigger] self.tokens@[i];
                &&& tok.serial < self.issued
                &&& self.token_live(tok) ==> self.cells@[tok.slot].scope == tok.scope
            } by {
                let tok = self.tokens@[i];
                assert(self.token_live(tok) == old(self).token_live(tok));
            }
            assert(self.slots() =~= old(self).slots().insert(
                k,
                Slot { held: None, ..old(self).slots()[k] },
            ));
        }
        r
    }

    /// Gives slot `k` its value back from a writer. If the slot is gone, or
    /// its value is not out, nothing changes and `value` is handed back.
    pub fn put_back(&mut self, k: u64, value: V) -> (r: Option<V>)
        requires
            old(self).wf(),
        ensures
            final(self).wf(),
            continues(*old(self), *final(self)),
            succeeds(*old(self), *final(self)),
            if old(self).slots().contains_key(k) && old(self).slots()[k].held is None {
                &&& r is None
                &&& final(self).slots() == old(self).slots().insert(
                    k,
                    Slot { held: Some(value), ..old(self).slots()[k] },
                )
            } else {
                &&& r == Some(value)
                &&& final(self).slots() == old(self).slots()
            },
    {
        if !self.contains(k) || self.is_available(k) {
            return Some(value);
        }
        self.set_held(k, Some(value));
        None
    }

    /// Replaces the value of slot `k`. If the slot is gone, or a writer has its
    /// value, nothing changes and `value` is handed back.
    pub fn replace(&mut self, k: u64, value: V) -> (r: Option<V>)
        requires
            old(self).wf(),
        ensures
            final(self).wf(),
            continues(*old(self), *final(self)),
            succeeds(*old(self), *final(self)),
            if old(self).slots().contains_key(k) && old(self).slots()[k].held is Some {
                &&& r is None
                &&& final(self).slots() == old(self).slots().insert(
                    k,
                    Slot { held: Some(value), ..old(self).slots()[k] },
                )
            } else {
                &&& r == Some(value)
                &&& final(self).slots() == old(self).slots()
            },
    {
        if !self.is_available(k) {
            return Some(value);
        }
        self.set_held(k, Some(value));
        None
    }

    /// Removes every slot whose scope `d` condemns, and drops the tokens of
    /// those slots and of slots disposed of earlier.
    fn teardown(&mut self, d: Doom)
        requires
            old(self).wf(),
        ensures
            final(self).wf(),
            continues(*old(self), *final(self)),
            final(self).slots() == Map::new(
                |k: u64|
                    old(self).slots().contains_key(k) && !d.condemns(old(self).slots()[k].scope),
                |k: u64| old(self).slots()[k],
            ),
    {
        let ghost t0 = table_of(self.table);
        let ghost c0 = self.cells@;
        let ghost old_self = *self;
        let mut old_tokens = Vec::new();
        std::mem::swap(&mut old_tokens, &mut self.tokens);
        let n = old_tokens.len();
        proof {
            assert(old_tokens@.subrange(0, n as int) =~= old_tokens@);
        }
        let mut i: usize = 0;
        while i < n
            invariant
                0 <= i <= n,
                n == old_tokens@.len(),
                old_tokens@ == old_self.tokens@,
                old_self.wf(),
                t0 == table_of(old_self.table),
                c0 == old_self.cells@,
                self.id == old_self.id,
                self.scope == old_self.scope,
                self.issued == old_self.issued,
                table_of(self.table).dom() == self.cells@.dom(),
                table_of(self.table).dom().finite(),
                forall|k: u64|
                    #[trigger] table_of(self.table).contains_key(k) ==> {
                        &&& t0.contains_key(k)
                        &&& table_of(self.table)[k] == t0[k]
                        &&& self.cells@[k] == c0[k]
                    },
                forall|k: u64|
                    t0.contains_key(k) && !d.condemns(c0[k].scope) ==> #[trigger] table_of(
                        self.table,
                    ).contains_key(k),
                forall|k: u64|
                    t0.contains_key(k) && d.condemns(c0[k].scope) && !old_tokens@.subrange(
                        i as int,
                        n as int,
                    ).contains(old_self.token_of(k)) ==> !#[trigger] table_of(
                        self.table,
                    ).contains_key(k),
                forall|j: int|
                    0 <= j < self.tokens@.len() ==> {
                        let tok = #[trigger] self.tokens@[j];
                        &&& tok.serial < self.issued
                        &&& self.token_live(tok) ==> self.cells@[tok.slot].scope == tok.scope
                    },
                forall|k: u64|
                    #[trigger] table_of(self.table).contains_key(k) ==> self.tokens@.contains(
                        old_self.token_of(k),
                    ) || old_tokens@.subrange(i as int, n as int).contains(old_self.token_of(k)),
            decreases n - i,
        {
            let tok = old_tokens[i];
            proof {
                let j = i as int;
                assert(old_self.tokens@[j] == tok);
            }
            let ghost kept0 = self.tokens@;
            let live = match self.cells.get(&tok.slot) {
                Some(cell) => cell.serial == tok.serial,
                None => false,
            };
            proof {
                if live {
                    assert(old_self.token_live(tok));
                    assert(tok == old_self.token_of(tok.slot));
                }
            }
            if d.condemns_scope(tok.scope) {
                if live {
                    table_remove(&mut self.table, tok.slot);
                    self.cells.remove(&tok.slot);
                }
                proof {
                    assert forall|j: int| 0 <= j < self.tokens@.len() implies {
                        let tk = #[trigger] self.tokens@[j];
                        &&& tk.serial < self.issued
                        &&& self.token_live(tk) ==> self.cells@[tk.slot].scope == tk.scope
                    } by {
                        let tk = self.tokens@[j];
                        if self.token_live(tk) {
                            assert(self.cells@[tk.slot] == c0[tk.slot]);
                        }
                    }
                }
            } else if live {
                self.tokens.push(tok);
                proof {
                    assert(self.tokens@ == kept0.push(tok));
                    assert(self.tokens@[kept0.len() as int] == tok);
                    assert forall|j: int| 0 <= j < self.tokens@.len() implies {
                        let tk = #[trigger] self.tokens@[j];
                        &&& tk.serial < self.issued
                        &&& self.token_live(tk) ==> self.cells@[tk.slot].scope == tk.scope
                    } by {
                        if j < kept0.len() {
                            assert(self.tokens@[j] == kept0[j]);
                        }
                    }
                    assert forall|x: DisposalToken| kept0.contains(x) implies self.tokens@.contains(
                        x,
                    ) by {
                        let m = choose|m: int| 0 <= m < kept0.len() && kept0[m] == x;
                        assert(self.tokens@[m] == x);
                    }
                }
            }
            proof {
                let ghost lo = old_tokens@.subrange(i as int, n as int);
                let ghost hi = old_tokens@.subrange(i as int + 1, n as int);
                assert forall|x: DisposalToken| lo.contains(x) && x != tok implies hi.contains(x) by {
                    let m = choose|m: int| 0 <= m < lo.len() && lo[m] == x;
                    assert(m != 0);
                    assert(hi[m - 1] == x);
                }
                assert forall|k: u64|
                    t0.contains_key(k) && d.condemns(c0[k].scope) && !hi.contains(
                        old_self.token_of(k),
                    ) implies !#[trigger] table_of(self.table).contains_key(k) by {
                    if old_self.token_of(k) != tok {
                    }
                }
                assert forall|k: u64| #[trigger]
                    table_of(self.table).contains_key(k) implies self.tokens@.contains(
                    old_self.token_of(k),
                ) || hi.contains(old_self.token_of(k)) by {
                    if old_self.token_of(k) == tok {
                        assert(self.tokens@[self.tokens@.len() - 1] == tok);
                    }
                }
            }
            i = i + 1;
        }
        proof {
            let t = table_of(self.table);
            assert(old_tokens@.subrange(n as int, n as int).len() == 0);
            assert forall|k: u64| #[trigger] t.contains_key(k) implies self.tokens@.contains(
                self.token_of(k),
            ) by {
                assert(self.token_of(k) == old_self.token_of(k));
            }
            assert(self.slots() =~= Map::new(
                |k: u64|
                    old(self).slots().contains_key(k) && !d.condemns(old(self).slots()[k].scope),
                |k: u64| old(self).slots()[k],
            ));
        }
    }

    /// Disposes of slot `k` and hands its value back, unless a writer has it
    /// out. A key that is not live changes nothing. The slot's token stays
    /// behind, naming a serial no slot has any more, until its scope is torn
    /// down.
    pub fn remove(&mut self, k: u64) -> (r: Option<V>)
        requires
            old(self).wf(),
        ensures
            final(self).wf(),
            continues(*old(self), *final(self)),
            succeeds(*old(self), *final(self)),
            final(self).slots() == old(self).slots().remove(k),
            r == (if old(self).slots().contains_key(k) {
                old(self).slots()[k].held
            } else {
                None::<V>
            }),
    {
        if !self.contains(k) {
            proof {
                assert(self.slots() =~= old(self).slots().remove(k));
            }
            return None;
        }
        table_remove(&mut self.table, k);
        let r = match self.cells.remove(&k) {
            Some(cell) => cell.held,
            None => None,
        };
        proof {
            assert forall|j: u64| #[trigger]
                table_of(self.table).contains_key(j) implies self.tokens@.contains(
                self.token_of(j),
            ) by {
                assert(self.token_of(j) == old(self).token_of(j));
            }
            assert forall|i: int| 0 <= i < self.tokens@.len() implies {
                let tok = #[trigger] self.tokens@[i];
                &&& tok.serial < self.issued
                &&& self.token_live(tok) ==> self.cells@[tok.slot].scope == tok.scope
            } by {
                let tok = self.tokens@[i];
                if self.token_live(tok) {
                    assert(old(self).token_live(tok));
                }
            }
            assert(self.slots() =~= old(self).slots().remove(k));
        }
        r
    }

    /// Tears `scope` down: every slot registered with it goes, and no other.
    pub fn dispose_scope(&mut self, scope: u64)
        requires
            old(self).wf(),
        ensures
            final(self).wf(),
            continues(*old(self), *final(self)),
            succeeds(*old(self), *final(self)),
            final(self).slots() == outside_scope(old(self).slots(), scope),
    {
        self.teardown(Doom::Scope(scope));
        proof {
            assert(self.slots() =~= outside_scope(old(self).slots(), scope));
        }
    }

    /// Disposes of every slot of the runtime.
    pub fn dispose(&mut self)
        requires
            old(self).wf(),
        ensures
            final(self).wf(),
            continues(*old(self), *final(self)),
            succeeds(*old(self), *final(self)),
            final(self).slots() == Map::<u64, Slot<V>>::empty(),
    {
        self.teardown(Doom::All);
        proof {
            assert(self.slots() =~= Map::<u64, Slot<V>>::empty());
        }
    }

    /// Stores `value` in a fresh slot under `tag`, registered with the active
    /// scope and issued the next serial, and returns the slot's key.
    pub fn insert(&mut self, value: V, tag: u64) -> (k: u64)
        requires
            old(self).wf(),
            old(self).slots().len() < MAX_LIVE,
            old(self).issued() < u64::MAX,
        ensures
            final(self).wf(),
            !old(self).slots().contains_key(k),
            final(self).slots() == old(self).slots().insert(
                k,
                Slot {
                    tag,
                    scope: old(self).active_scope(),
                    serial: old(self).issued(),
                    held: Some(value),
                },
            ),
            final(self).rid() == old(self).rid(),
            final(self).active_scope() == old(self).active_scope(),
            final(self).issued() == old(self).issued() + 1,
            succeeds(*old(self), *final(self)),
    {
        proof {
            assert(self.slots().dom() =~= table_of(self.table).dom());
        }
        let k = table_insert(&mut self.table, tag);
        let scope = self.scope;
        let serial = self.issued;
        self.cells.insert(k, Cell { scope, serial, held: Some(value) });
        self.tokens.push(DisposalToken { scope, slot: k, serial });
        self.issued = serial + 1;
        proof {
            let t = table_of(self.table);
            let n = self.tokens@.len();
            let new_tok = DisposalToken { scope, slot: k, serial };
            assert(self.tokens@ == old(self).tokens@.push(new_tok));
            assert forall|i: int| 0 <= i < n implies {
                let tok = #[trigger] self.tokens@[i];
                &&& tok.serial < self.issued
                &&& self.token_live(tok) ==> self.cells@[tok.slot].scope == tok.scope
            } by {
                if i < n - 1 {
                    let tok = self.tokens@[i];
                    assert(tok == old(self).tokens@[i]);
                    if self.token_live(tok) && tok.slot != k {
                        assert(old(self).token_live(tok));
                    }
                }
            }
            assert forall|j: u64| #[trigger] t.contains_key(j) implies self.tokens@.contains(
                self.token_of(j),
            ) by {
                if j == k {
                    assert(self.tokens@[n - 1] == self.token_of(j));
                } else {
                    assert(self.token_of(j) == old(self).token_of(j));
                    assert(old(self).tokens@.contains(old(self).token_of(j)));
                    let i = choose|i: int|
                        0 <= i < old(self).tokens@.len() && old(self).tokens@[i] == old(
                            self,
                        ).token_of(j);
                    assert(self.tokens@[i] == old(self).tokens@[i]);
                }
            }
            assert(self.slots() =~= old(self).slots().insert(
                k,
                Slot { tag, scope, serial, held: Some(value) },
            ));
        }
        k
    }
}

} // verus!
