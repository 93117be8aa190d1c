//! The actor directory: per-actor records looked up and mutated by
//! address or ID, backed by the content-addressed store that also holds
//! the init actor's persisted resolver state. Records are kept
//! most-recent-first; a lookup takes the first match.

use vstd::prelude::*;

use crate::address::{Address, Payload};
use crate::assoc::{find_val, lemma_find_insert_front, lemma_find_some_key_present};
use crate::error::ExecutionError;
use crate::init_actor::{
    mapped_below, resolve_spec, State, FIRST_NON_SINGLETON_ADDR, INIT_ACTOR_ID,
};
use crate::store::{map_get, StateV, Store};

verus! {

/// Code identifier of the init actor's executable code.
pub const INIT_ACTOR_CODE_ID: u64 = 2;

/// One actor's record: its code reference, state root, sequence number
/// and balance.
#[derive(Clone, Copy, Debug, PartialEq, Eq, Structural)]
pub struct ActorState {
    /// Content identifier of the actor's executable code.
    pub code: u64,
    /// Content identifier of the actor's state root.
    pub state: u64,
    /// Sequence (nonce) of the actor.
    pub sequence: u64,
    /// The actor's balance, in the smallest token unit.
    pub balance: u128,
}

/// The actor directory plus its backing store.
#[derive(Debug)]
pub struct StateTree {
    /// The content-addressed backing store.
    pub store: Store,
    /// The records, most recent binding of each ID first.
    pub actors: Vec<(u64, ActorState)>,
}

/// The execution context handed from frame to frame: the actor
/// directory together with its backing store. Exactly one live handle
/// owns it at any instant.
#[derive(Debug)]
pub struct Machine {
    pub state_tree: StateTree,
}

impl StateTree {
    pub closed spec fn actor_seq(self) -> Seq<(u64, ActorState)> {
        self.actors@
    }

    /// The record of actor `id`, if it exists.
    pub open spec fn actor_at(self, id: u64) -> Option<ActorState> {
        find_val(self.actor_seq(), id)
    }

    /// The reserved init actor's record (meaningful under `wf`).
    pub open spec fn init_record(self) -> ActorState {
        self.actor_at(INIT_ACTOR_ID).unwrap()
    }

    /// The resolver state persisted in the init actor's record
    /// (meaningful under `wf`).
    pub open spec fn init_state(self) -> StateV {
        self.store.state_view(self.init_record().state)
    }

    /// The resolver's next ID to allocate.
    pub open spec fn next_id_spec(self) -> u64 {
        self.init_state().next_id
    }

    /// The resolver's current address map.
    pub open spec fn resolver_map(self) -> Seq<(Seq<u8>, u64)> {
        self.store.map_view(self.init_state().address_map)
    }

    /// Well-formedness: the store is consistent; the init actor exists,
    /// its state object and map root are present; the allocator stands
    /// at or above the first non-reserved ID; every mapped ID and every
    /// directory ID was allocated below the allocator's cursor; and the
    /// map never stores an ID-type address as a key.
    pub open spec fn wf(self) -> bool {
        &&& self.store.wf()
        &&& self.actor_at(INIT_ACTOR_ID) is Some
        &&& self.store.has_state(self.init_record().state)
        &&& self.store.has_map(self.init_state().address_map)
        &&& self.init_state().next_id >= FIRST_NON_SINGLETON_ADDR
        &&& mapped_below(self.resolver_map(), self.init_state().next_id)
        &&& (forall|j: int|
            0 <= j < self.resolver_map().len() ==> (#[trigger] self.resolver_map()[j]).0.len() >= 1
                && self.resolver_map()[j].0[0] != 0u8)
        &&& (forall|j: int|
            0 <= j < self.actor_seq().len() ==> (#[trigger] self.actor_seq()[j]).0
                < self.init_state().next_id)
    }

    /// Genesis: a directory holding only the reserved init actor, whose
    /// record points at a freshly persisted resolver state with an empty
    /// map.
    pub fn new(network_name: String) -> (r: Result<StateTree, ExecutionError>)
        ensures
            r matches Ok(tree) && {
                &&& tree.wf()
                &&& tree.resolver_map() == Seq::<(Seq<u8>, u64)>::empty()
                &&& tree.next_id_spec() == FIRST_NON_SINGLETON_ADDR
                &&& tree.init_state().network_name == network_name@
                &&& tree.init_record().balance == 0
                &&& tree.init_record().code == INIT_ACTOR_CODE_ID
                &&& (forall|id: u64| id != INIT_ACTOR_ID ==> #[trigger] tree.actor_at(id) is None)
                &&& tree.store.can_alloc(u64::MAX - 2)
            },
    {
        let mut store = Store::new();
        let st = match State::new(&mut store, network_name) {
            Ok(st) => st,
            Err(e) => {
                return Err(e);
            },
        };
        let cid = store.put_state(st);
        let init_rec = ActorState { code: INIT_ACTOR_CODE_ID, state: cid, sequence: 0, balance: 0 };
        let mut actors: Vec<(u64, ActorState)> = Vec::new();
        actors.push((INIT_ACTOR_ID, init_rec));
        let tree = StateTree { store, actors };
        proof {
            assert(tree.actor_seq() =~= Seq::<(u64, ActorState)>::empty().push(
                (INIT_ACTOR_ID, init_rec),
            ));
            assert(tree.actor_seq()[0] == (INIT_ACTOR_ID, init_rec));
            assert(tree.actor_seq().drop_first() =~= Seq::<(u64, ActorState)>::empty());
            assert(tree.actor_at(INIT_ACTOR_ID) == Some(init_rec));
            assert forall|id: u64| id != INIT_ACTOR_ID implies #[trigger] tree.actor_at(id)
                is None by {
                assert(tree.actor_seq().len() == 1);
                assert(tree.actor_seq()[0].0 != id);
                assert(tree.actor_seq().drop_first() =~= Seq::<(u64, ActorState)>::empty());
                assert(find_val(Seq::<(u64, ActorState)>::empty(), id) is None);
            }
        }
        Ok(tree)
    }

    /// Resolves an address to an actor ID through the init actor's
    /// resolver state, loading that state first.
    pub open spec fn lookup_spec(self, addr: Address) -> Result<Option<u64>, ExecutionError> {
        if self.actor_at(INIT_ACTOR_ID) is Some && self.store.has_state(self.init_record().state) {
            resolve_spec(self.init_state(), self.store, addr)
        } else {
            Err(ExecutionError::StateInconsistent)
        }
    }

    /// Resolves `addr` to an ID: an ID address passes through, any other
    /// address is looked up in the resolver's map.
    pub fn lookup_id(&self, addr: &Address) -> (r: Result<Option<u64>, ExecutionError>)
        ensures
            r == self.lookup_spec(*addr),
    {
        let (st, _) = match State::load(self) {
            Ok(p) => p,
            Err(e) => {
                return Err(e);
            },
        };
        st.resolve_address(&self.store, addr)
    }

    /// What fetching an actor record by address returns: the record of
    /// the resolved ID, `None` for an unresolved or absent actor.
    pub open spec fn get_actor_spec(self, addr: Address) -> Result<
        Option<ActorState>,
        ExecutionError,
    > {
        if addr.is_id() {
            Ok(self.actor_at(addr.id()))
        } else {
            match self.lookup_spec(addr) {
                Ok(Some(id)) => Ok(self.actor_at(id)),
                Ok(None) => Ok(None),
                Err(e) => Err(e),
            }
        }
    }

    /// Fetches the record of actor `id` directly, without resolution.
    pub fn actor_by_id(&self, id: u64) -> (r: Option<ActorState>)
        ensures
            r == self.actor_at(id),
    {
        let mut i: usize = 0;
        while i < self.actors.len()
            invariant
                0 <= i <= self.actor_seq().len(),
                forall|j: int| 0 <= j < i ==> (#[trigger] self.actor_seq()[j]).0 != id,
            decreases self.actor_seq().len() - i,
        {
            if self.actors[i].0 == id {
                proof {
                    crate::assoc::lemma_find_skip(self.actor_seq(), id, i as int);
                    assert(self.actor_seq().skip(i as int)[0] == self.actor_seq()[i as int]);
                }
                return Some(self.actors[i].1);
            }
            i = i + 1;
        }
        proof {
            crate::assoc::lemma_find_skip(self.actor_seq(), id, self.actor_seq().len() as int);
            assert(self.actor_seq().skip(self.actor_seq().len() as int) =~= Seq::<
                (u64, ActorState),
            >::empty());
        }
        None
    }

    /// Fetches the record of the actor `addr` resolves to.
    pub fn get_actor(&self, addr: &Address) -> (r: Result<Option<ActorState>, ExecutionError>)
        ensures
            r == self.get_actor_spec(*addr),
    {
        let id = match addr.payload() {
            Payload::ID(id) => *id,
            _ => {
                match self.lookup_id(addr) {
                    Ok(Some(id)) => id,
                    Ok(None) => {
                        return Ok(None);
                    },
                    Err(e) => {
                        return Err(e);
                    },
                }
            },
        };
        Ok(self.actor_by_id(id))
    }

    /// Replaces the record of an existing actor. Directory records come
    /// into being only through `create_actor` (or genesis), so setting a
    /// record for an actor that does not exist fails with
    /// `ActorNotFound` and changes nothing.
    pub fn set_actor(&mut self, addr: &Address, actor: ActorState) -> (r: Result<
        (),
        ExecutionError,
    >)
        requires
            addr.is_id(),
        ensures
            old(self).actor_at(addr.id()) is Some ==> r is Ok && final(self).actor_at(addr.id())
                == Some(actor) && (forall|j: u64|
                j != addr.id() ==> #[trigger] final(self).actor_at(j) == old(self).actor_at(j))
                && final(self).store == old(self).store && ((old(self).wf() && (addr.id()
                == INIT_ACTOR_ID ==> actor.state == old(self).init_record().state))
                ==> final(self).wf()),
            old(self).actor_at(addr.id()) is None ==> r == Err::<(), ExecutionError>(
                ExecutionError::ActorNotFound,
            ) && *final(self) == *old(self),
    {
        let id = match addr.payload() {
            Payload::ID(id) => *id,
            _ => {
                return Err(ExecutionError::ActorNotFound);
            },
        };
        let exists = self.actor_exists(id);
        if !exists {
            return Err(ExecutionError::ActorNotFound);
        }
        proof {
            lemma_find_some_key_present(self.actor_seq(), id);
        }
        self.actors.insert(0, (id, actor));
        proof {
            assert(self.actor_seq() =~= old(self).actor_seq().insert(0, (id, actor)));
            assert forall|j: u64| true implies #[trigger] find_val(self.actor_seq(), j) == (
            if j == id {
                Some(actor)
            } else {
                find_val(old(self).actor_seq(), j)
            }) by {
                lemma_find_insert_front(old(self).actor_seq(), (id, actor), j);
            }
            if old(self).wf() && (id == INIT_ACTOR_ID ==> actor.state == old(
                self,
            ).init_record().state) {
                assert(self.actor_at(INIT_ACTOR_ID) is Some);
                assert(self.init_record().state == old(self).init_record().state);
                assert(self.init_state() == old(self).init_state());
                let k = choose|k: int|
                    0 <= k < old(self).actor_seq().len() && (#[trigger] old(
                        self,
                    ).actor_seq()[k]).0 == id;
                assert(old(self).actor_seq()[k].0 < old(self).init_state().next_id);
                assert forall|j: int| 0 <= j < self.actor_seq().len() implies (
                #[trigger] self.actor_seq()[j]).0 < self.init_state().next_id by {
                    if j > 0 {
                        assert(self.actor_seq()[j] == old(self).actor_seq()[j - 1]);
                    }
                }
            }
        }
        Ok(())
    }

    /// Whether actor `id` has a record in the directory.
    pub fn actor_exists(&self, id: u64) -> (r: bool)
        ensures
            r == (self.actor_at(id) is Some),
    {
        let mut i: usize = 0;
        while i < self.actors.len()
            invariant
                0 <= i <= self.actor_seq().len(),
                forall|j: int| 0 <= j < i ==> (#[trigger] self.actor_seq()[j]).0 != id,
            decreases self.actor_seq().len() - i,
        {
            if self.actors[i].0 == id {
                proof {
                    crate::assoc::lemma_find_skip(self.actor_seq(), id, i as int);
                    assert(self.actor_seq().skip(i as int)[0] == self.actor_seq()[i as int]);
                }
                return true;
            }
            i = i + 1;
        }
        proof {
            crate::assoc::lemma_find_skip(self.actor_seq(), id, self.actor_seq().len() as int);
            assert(self.actor_seq().skip(self.actor_seq().len() as int) =~= Seq::<
                (u64, ActorState),
            >::empty());
        }
        false
    }

    /// Creates a new actor record under a freshly allocated ID bound to
    /// `addr`, persisting the updated resolver state back into the init
    /// actor's record.
    pub fn create_actor(&mut self, addr: &Address, act: ActorState) -> (r: Result<
        u64,
        ExecutionError,
    >)
        requires
            old(self).wf(),
            !addr.is_id(),
            old(self).next_id_spec() < u64::MAX,
            old(self).store.can_alloc(2),
        ensures
            r matches Ok(id) && {
                &&& id == old(self).next_id_spec()
                &&& old(self).actor_at(id) is None
                &&& final(self).wf()
                &&& final(self).next_id_spec() == old(self).next_id_spec() + 1
                &&& final(self).actor_at(id) == Some(act)
                &&& (forall|j: u64|
                    j != id && j != INIT_ACTOR_ID ==> #[trigger] final(self).actor_at(j) == old(
                        self,
                    ).actor_at(j))
                &&& final(self).init_record().code == old(self).init_record().code
                &&& final(self).init_record().balance == old(self).init_record().balance
                &&& final(self).init_record().sequence == old(self).init_record().sequence
                &&& map_get(final(self).resolver_map(), addr.key_bytes()) == Some(id)
                &&& (forall|probe: Seq<u8>|
                    probe != addr.key_bytes() ==> #[trigger] map_get(
                        final(self).resolver_map(),
                        probe,
                    ) == map_get(old(self).resolver_map(), probe))
                &&& final(self).init_state().network_name == old(self).init_state().network_name
                &&& final(self).store.next_cid_spec() == old(self).store.next_cid_spec() + 2
            },
    {
        let (mut st, mut init_rec) = match State::load(self) {
            Ok(p) => p,
            Err(e) => {
                return Err(e);
            },
        };
        let ghost pre = *self;
        let id = match st.map_address_to_new_id(&mut self.store, addr) {
            Ok(id) => id,
            Err(e) => {
                return Err(e);
            },
        };
        proof {
            crate::address::lemma_key_bytes_non_id(*addr);
            if pre.actor_at(id) is Some {
                lemma_find_some_key_present(pre.actor_seq(), id);
                assert(false);
            }
        }
        let new_state_cid = self.store.put_state(st);
        init_rec.state = new_state_cid;
        self.actors.insert(0, (INIT_ACTOR_ID, init_rec));
        self.actors.insert(0, (id, act));
        proof {
            let mid = pre.actor_seq().insert(0, (INIT_ACTOR_ID, init_rec));
            assert(self.actor_seq() =~= mid.insert(0, (id, act)));
            assert forall|j: u64| true implies #[trigger] find_val(self.actor_seq(), j) == (
            if j == id {
                Some(act)
            } else if j == INIT_ACTOR_ID {
                Some(init_rec)
            } else {
                find_val(pre.actor_seq(), j)
            }) by {
                lemma_find_insert_front(mid, (id, act), j);
                lemma_find_insert_front(pre.actor_seq(), (INIT_ACTOR_ID, init_rec), j);
            }
            assert forall|j: int| 0 <= j < self.actor_seq().len() implies (
            #[trigger] self.actor_seq()[j]).0 < self.init_state().next_id by {
                if j == 0 {
                } else if j == 1 {
                } else {
                    assert(self.actor_seq()[j] == pre.actor_seq()[j - 2]);
                }
            }
            assert forall|j: int| 0 <= j < self.resolver_map().len() implies (
            #[trigger] self.resolver_map()[j]).1 < self.init_state().next_id by {
                assert(self.resolver_map() == pre.resolver_map().insert(
                    0,
                    (addr.key_bytes(), id),
                ));
                if j == 0 {
                    assert(self.resolver_map()[0] == (addr.key_bytes(), id));
                } else {
                    assert(self.resolver_map()[j] == pre.resolver_map()[j - 1]);
                }
            }
            assert forall|j: int| 0 <= j < self.resolver_map().len() implies (
            #[trigger] self.resolver_map()[j]).0.len() >= 1 && self.resolver_map()[j].0[0]
                != 0u8 by {
                assert(self.resolver_map() == pre.resolver_map().insert(
                    0,
                    (addr.key_bytes(), id),
                ));
                if j == 0 {
                    assert(self.resolver_map()[0] == (addr.key_bytes(), id));
                } else {
                    assert(self.resolver_map()[j] == pre.resolver_map()[j - 1]);
                }
            }
        }
        Ok(id)
    }
}

} // verus!
