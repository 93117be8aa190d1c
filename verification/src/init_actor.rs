//! The init actor's state: the persistent mapping from serialized
//! non-canonical addresses to stable numeric actor IDs, and the
//! monotonic ID allocator. The state is loaded from the reserved init
//! actor's record and persisted back through the content-addressed
//! store; every mutation of the map flushes a new root.

use vstd::prelude::*;

use crate::address::{Address, Payload};
use crate::error::ExecutionError;
use crate::state_tree::{ActorState, StateTree};
use crate::store::{map_get, AddressMap, StateV, Store, HAMT_BIT_WIDTH};

verus! {

/// The reserved init actor's numeric ID.
pub const INIT_ACTOR_ID: u64 = 1;

/// The first ID the allocator may hand out: everything below is reserved
/// for singleton actors.
pub const FIRST_NON_SINGLETON_ADDR: u64 = 100;

/// The init actor's state object.
#[derive(Debug)]
pub struct State {
    /// Root identifier of the persistent address map.
    pub address_map: u64,
    /// The next actor ID to allocate; never decreases.
    pub next_id: u64,
    /// Immutable network metadata.
    pub network_name: String,
}

impl View for State {
    type V = StateV;

    open spec fn view(&self) -> StateV {
        StateV {
            address_map: self.address_map,
            next_id: self.next_id,
            network_name: self.network_name@,
        }
    }
}

/// What resolution returns: an ID address passes through untouched,
/// independent of the map; any other address is looked up by its
/// serialized bytes; a missing map root is fatal state corruption.
pub open spec fn resolve_spec(st: StateV, store: Store, addr: Address) -> Result<
    Option<u64>,
    ExecutionError,
> {
    if addr.is_id() {
        Ok(Some(addr.id()))
    } else if store.has_map(st.address_map) {
        Ok(map_get(store.map_view(st.address_map), addr.key_bytes()))
    } else {
        Err(ExecutionError::StateInconsistent)
    }
}

/// How one allocation changes the resolver: `id` is the old `next_id`,
/// the allocator advances by one, the new map root binds `key` to `id`
/// and leaves every other key's lookup unchanged, and the store keeps
/// every object it already held.
pub open spec fn map_transition(
    pre: StateV,
    pre_store: Store,
    post: StateV,
    post_store: Store,
    key: Seq<u8>,
    id: u64,
) -> bool {
    &&& pre_store.has_map(pre.address_map)
    &&& id == pre.next_id
    &&& post.next_id == pre.next_id + 1
    &&& post.network_name == pre.network_name
    &&& post_store.has_map(post.address_map)
    &&& post_store.map_view(post.address_map) == pre_store.map_view(pre.address_map).insert(
        0,
        (key, id),
    )
    &&& map_get(post_store.map_view(post.address_map), key) == Some(id)
    &&& (forall|probe: Seq<u8>|
        probe != key ==> #[trigger] map_get(post_store.map_view(post.address_map), probe)
            == map_get(pre_store.map_view(pre.address_map), probe))
    &&& (forall|cid: u64|
        pre_store.has_map(cid) ==> #[trigger] post_store.has_map(cid) && post_store.map_view(cid)
            == pre_store.map_view(cid))
    &&& (forall|cid: u64| #[trigger] post_store.state_slot(cid) == pre_store.state_slot(cid))
}

/// Every ID the map stores is below `bound`.
pub open spec fn mapped_below(m: Seq<(Seq<u8>, u64)>, bound: u64) -> bool {
    forall|j: int| 0 <= j < m.len() ==> (#[trigger] m[j]).1 < bound
}

impl State {
    /// Initializes an empty mapping with the allocator at the first
    /// non-reserved ID. Persists only the empty map; the caller commits
    /// the state object itself.
    pub fn new(store: &mut Store, network_name: String) -> (r: Result<State, ExecutionError>)
        requires
            old(store).wf(),
            old(store).can_alloc(1),
        ensures
            final(store).wf(),
            final(store).next_cid_spec() == old(store).next_cid_spec() + 1,
            r matches Ok(st) && {
                &&& final(store).has_map(st.address_map)
                &&& final(store).map_view(st.address_map) == Seq::<(Seq<u8>, u64)>::empty()
                &&& st.next_id == FIRST_NON_SINGLETON_ADDR
                &&& st.network_name@ == network_name@
            },
            forall|cid: u64|
                old(store).has_map(cid) ==> #[trigger] final(store).has_map(cid)
                    && final(store).map_view(cid) == old(store).map_view(cid),
            forall|cid: u64| #[trigger] final(store).state_slot(cid) == old(store).state_slot(cid),
    {
        let empty_map = AddressMap::empty(HAMT_BIT_WIDTH);
        let root = store.put_map(empty_map);
        Ok(State { address_map: root, next_id: FIRST_NON_SINGLETON_ADDR, network_name })
    }

    /// Loads the init actor state: fetches the reserved init actor's
    /// record, then its state object from the backing store. Either one
    /// missing is fatal (chain-state corruption), not retryable.
    pub fn load(tree: &StateTree) -> (r: Result<(State, ActorState), ExecutionError>)
        ensures
            match tree.actor_at(INIT_ACTOR_ID) {
                Some(rec) => if tree.store.has_state(rec.state) {
                    r matches Ok(p) && p.0@ == tree.store.state_view(rec.state) && p.1 == rec
                } else {
                    r == Err::<(State, ActorState), ExecutionError>(
                        ExecutionError::StateInconsistent,
                    )
                },
                None => r == Err::<(State, ActorState), ExecutionError>(
                    ExecutionError::StateInconsistent,
                ),
            },
    {
        let init_act = match tree.actor_by_id(INIT_ACTOR_ID) {
            Some(a) => a,
            None => {
                return Err(ExecutionError::StateInconsistent);
            },
        };
        let state = match tree.store.get_state(init_act.state) {
            Some(st) => st.duplicate(),
            None => {
                return Err(ExecutionError::StateInconsistent);
            },
        };
        Ok((state, init_act))
    }

    /// A distinct state object with the same contents.
    pub fn duplicate(&self) -> (r: State)
        ensures
            r@ == self@,
    {
        State {
            address_map: self.address_map,
            next_id: self.next_id,
            network_name: self.network_name.clone(),
        }
    }

    /// Resolves an address to an ID address, if possible. An ID address
    /// is returned as-is, so mapped ID addresses (which only appear as
    /// values, never keys) and singleton actor addresses (not in the
    /// map) pass through unchanged. A non-ID address is looked up by its
    /// serialized bytes: `Some` on a hit, `None` on a miss. Errors only
    /// when the map root is missing from the store.
    pub fn resolve_address(&self, store: &Store, addr: &Address) -> (r: Result<
        Option<u64>,
        ExecutionError,
    >)
        ensures
            r == resolve_spec(self@, *store, *addr),
    {
        if let Payload::ID(id) = addr.payload() {
            return Ok(Some(*id));
        }
        let key = addr.to_bytes();
        match store.get_map(self.address_map) {
            Some(map) => Ok(map.get(&key)),
            None => Err(ExecutionError::StateInconsistent),
        }
    }

    /// Allocates a new ID and binds the argument address to it in a new
    /// map root. Not idempotent: a second call for the same address
    /// allocates a second ID, so callers must check `resolve_address`
    /// first. The caller persists the updated state object back into the
    /// init actor's record.
    pub fn map_address_to_new_id(&mut self, store: &mut Store, addr: &Address) -> (r: Result<
        u64,
        ExecutionError,
    >)
        requires
            old(self).next_id < u64::MAX,
            old(store).wf(),
            old(store).can_alloc(1),
        ensures
            final(store).wf(),
            old(store).has_map(old(self).address_map) ==> (r matches Ok(id) && map_transition(
                old(self)@,
                *old(store),
                final(self)@,
                *final(store),
                addr.key_bytes(),
                id,
            ) && final(store).next_cid_spec() == old(store).next_cid_spec() + 1
                && final(self).address_map == old(store).next_cid_spec()),
            !old(store).has_map(old(self).address_map) ==> r == Err::<u64, ExecutionError>(
                ExecutionError::StateInconsistent,
            ) && *final(self) == *old(self) && *final(store) == *old(store),
    {
        let mut map = match store.get_map(self.address_map) {
            Some(m) => m.duplicate(),
            None => {
                return Err(ExecutionError::StateInconsistent);
            },
        };
        let id = self.next_id;
        self.next_id = self.next_id + 1;
        map.set(addr.to_bytes(), id);
        self.address_map = store.put_map(map);
        Ok(id)
    }
}

/// An ID-type address resolves to itself whatever the map holds.
pub proof fn lemma_resolve_id_passthrough(st: StateV, store: Store, addr: Address)
    requires
        addr.is_id(),
    ensures
        resolve_spec(st, store, addr) == Ok::<Option<u64>, ExecutionError>(Some(addr.id())),
{
}

/// A non-ID address that is not in the map resolves to `None`.
pub proof fn lemma_resolve_unmapped(st: StateV, store: Store, addr: Address)
    requires
        !addr.is_id(),
        store.has_map(st.address_map),
        map_get(store.map_view(st.address_map), addr.key_bytes()) is None,
    ensures
        resolve_spec(st, store, addr) == Ok::<Option<u64>, ExecutionError>(None),
{
}

/// After an address is bound by an allocation, it resolves to exactly
/// the ID that the allocation returned.
pub proof fn lemma_resolve_after_map(
    pre: StateV,
    pre_store: Store,
    post: StateV,
    post_store: Store,
    addr: Address,
    id: u64,
)
    requires
        !addr.is_id(),
        map_transition(pre, pre_store, post, post_store, addr.key_bytes(), id),
    ensures
        resolve_spec(post, post_store, addr) == Ok::<Option<u64>, ExecutionError>(Some(id)),
{
}

/// A freshly allocated ID is strictly greater than every ID the map
/// held before the allocation, so it is distinct from every previously
/// allocated one.
pub proof fn lemma_new_id_exceeds_mapped(
    pre: StateV,
    pre_store: Store,
    post: StateV,
    post_store: Store,
    key: Seq<u8>,
    id: u64,
)
    requires
        map_transition(pre, pre_store, post, post_store, key, id),
        mapped_below(pre_store.map_view(pre.address_map), pre.next_id),
    ensures
        forall|j: int|
            0 <= j < pre_store.map_view(pre.address_map).len() ==> (
            #[trigger] pre_store.map_view(pre.address_map)[j]).1 < id,
        mapped_below(post_store.map_view(post.address_map), post.next_id),
{
    let pre_m = pre_store.map_view(pre.address_map);
    let post_m = post_store.map_view(post.address_map);
    assert forall|j: int| 0 <= j < post_m.len() implies (#[trigger] post_m[j]).1 < post.next_id by {
        assert(post_m == pre_m.insert(0, (key, id)));
        if j == 0 {
            assert(post_m[0] == (key, id));
        } else {
            assert(post_m[j] == pre_m[j - 1]);
        }
    }
}

/// Two allocations in a row yield two distinct IDs, whether or not they
/// bind the same address: the allocator is not idempotent by design.
pub proof fn lemma_alloc_twice_distinct(
    s0: StateV,
    st0: Store,
    s1: StateV,
    st1: Store,
    s2: StateV,
    st2: Store,
    key1: Seq<u8>,
    key2: Seq<u8>,
    id1: u64,
    id2: u64,
)
    requires
        map_transition(s0, st0, s1, st1, key1, id1),
        map_transition(s1, st1, s2, st2, key2, id2),
    ensures
        id2 == id1 + 1,
        id1 != id2,
{
}

} // verus!
