use fvm::address::Address;
use fvm::init_actor::{State, FIRST_NON_SINGLETON_ADDR, INIT_ACTOR_ID};
use fvm::state_tree::StateTree;
use fvm::store::Store;

fn secp(tag: u8) -> Address {
    Address::new_secp256k1(vec![tag; 20])
}

#[test]
fn new_state_starts_empty_at_first_non_singleton() {
    let mut store = Store::new();
    let st = State::new(&mut store, "calibnet".to_string()).unwrap();
    assert_eq!(st.next_id, FIRST_NON_SINGLETON_ADDR);
    assert_eq!(st.network_name, "calibnet");
    assert_eq!(st.resolve_address(&store, &secp(1)).unwrap(), None);
}

#[test]
fn id_addresses_pass_through_unchanged() {
    // ID-type addresses resolve to themselves whatever the map holds.
    let mut store = Store::new();
    let mut st = State::new(&mut store, "net".to_string()).unwrap();
    assert_eq!(
        st.resolve_address(&store, &Address::new_id(7)).unwrap(),
        Some(7)
    );
    st.map_address_to_new_id(&mut store, &secp(1)).unwrap();
    assert_eq!(
        st.resolve_address(&store, &Address::new_id(7)).unwrap(),
        Some(7)
    );
    // even an ID in the reserved singleton range passes through
    assert_eq!(
        st.resolve_address(&store, &Address::new_id(INIT_ACTOR_ID))
            .unwrap(),
        Some(INIT_ACTOR_ID)
    );
}

#[test]
fn mapping_makes_an_address_resolve_to_its_new_id() {
    let mut store = Store::new();
    let mut st = State::new(&mut store, "net".to_string()).unwrap();
    let a = secp(5);
    assert_eq!(st.resolve_address(&store, &a).unwrap(), None);
    let id = st.map_address_to_new_id(&mut store, &a).unwrap();
    assert_eq!(id, FIRST_NON_SINGLETON_ADDR);
    assert_eq!(st.resolve_address(&store, &a).unwrap(), Some(id));
    assert_eq!(st.next_id, FIRST_NON_SINGLETON_ADDR + 1);
    // an unrelated address is still unmapped
    assert_eq!(st.resolve_address(&store, &secp(6)).unwrap(), None);
}

#[test]
fn each_allocation_exceeds_every_earlier_id() {
    let mut store = Store::new();
    let mut st = State::new(&mut store, "net".to_string()).unwrap();
    let id1 = st.map_address_to_new_id(&mut store, &secp(1)).unwrap();
    let id2 = st.map_address_to_new_id(&mut store, &secp(2)).unwrap();
    let id3 = st.map_address_to_new_id(&mut store, &secp(3)).unwrap();
    assert!(id2 > id1);
    assert!(id3 > id2);
}

#[test]
fn mapping_twice_allocates_two_distinct_ids() {
    // The allocator is not idempotent by design: callers must check
    // resolve_address first.
    let mut store = Store::new();
    let mut st = State::new(&mut store, "net".to_string()).unwrap();
    let a = secp(9);
    let id1 = st.map_address_to_new_id(&mut store, &a).unwrap();
    let id2 = st.map_address_to_new_id(&mut store, &a).unwrap();
    assert_ne!(id1, id2);
    assert_eq!(id2, id1 + 1);
    // the later binding shadows the earlier one
    assert_eq!(st.resolve_address(&store, &a).unwrap(), Some(id2));
}

#[test]
fn old_map_roots_stay_readable_after_mutation() {
    // Copy-on-write: a mutation flushes a new root; the state value
    // still holding the old root sees the old contents.
    let mut store = Store::new();
    let st0 = State::new(&mut store, "net".to_string()).unwrap();
    let mut st1 = st0.duplicate();
    let a = secp(3);
    let id = st1.map_address_to_new_id(&mut store, &a).unwrap();
    assert_eq!(st1.resolve_address(&store, &a).unwrap(), Some(id));
    assert_eq!(st0.resolve_address(&store, &a).unwrap(), None);
}

#[test]
fn missing_map_root_is_fatal_state_corruption() {
    let mut store = Store::new();
    let st = State::new(&mut store, "net".to_string()).unwrap();
    // a store that never held the map root: resolution of a non-ID
    // address cannot proceed
    let empty_store = Store::new();
    assert_eq!(
        st.resolve_address(&empty_store, &secp(1)),
        Err(fvm::error::ExecutionError::StateInconsistent)
    );
    // an ID address still passes through: it never touches the map
    let addr = fvm::address::Address::new_id(4);
    assert_eq!(st.resolve_address(&empty_store, &addr), Ok(Some(4)));
}

#[test]
fn load_reads_back_the_persisted_genesis_state() {
    let tree = StateTree::new("mainnet".to_string()).unwrap();
    let (st, init_rec) = State::load(&tree).unwrap();
    assert_eq!(st.next_id, FIRST_NON_SINGLETON_ADDR);
    assert_eq!(st.network_name, "mainnet");
    assert_eq!(init_rec.balance, 0);
    assert_eq!(
        tree.lookup_id(&secp(1)).unwrap(),
        None,
        "genesis resolver must be empty"
    );
}

#[test]
fn create_actor_binds_address_and_installs_record() {
    let mut tree = StateTree::new("net".to_string()).unwrap();
    let a = secp(8);
    let rec = fvm::state_tree::ActorState {
        code: 11,
        state: 0,
        sequence: 0,
        balance: 5,
    };
    let id = tree.create_actor(&a, rec).unwrap();
    assert_eq!(id, FIRST_NON_SINGLETON_ADDR);
    assert_eq!(tree.lookup_id(&a).unwrap(), Some(id));
    assert_eq!(tree.actor_by_id(id), Some(rec));
    let (st, _) = State::load(&tree).unwrap();
    assert_eq!(st.next_id, FIRST_NON_SINGLETON_ADDR + 1);
}
