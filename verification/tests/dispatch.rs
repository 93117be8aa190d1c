use fvm::account_actor::{ACCOUNT_ACTOR_CODE_ID, METHOD_CONSTRUCTOR, SYSTEM_ACTOR_ID};
use fvm::address::Address;
use fvm::call_manager::{CallManager, FrameOutcome, InvokeResult, Kernel};
use fvm::encoding::RawBytes;
use fvm::error::ExecutionError;
use fvm::init_actor::{State, FIRST_NON_SINGLETON_ADDR};
use fvm::state_tree::{ActorState, Machine, StateTree};

fn genesis(from: u64, gas_limit: i64) -> CallManager {
    let tree = StateTree::new("testnet".to_string()).unwrap();
    CallManager::new(Machine { state_tree: tree }, from, gas_limit)
}

fn secp(tag: u8) -> Address {
    Address::new_secp256k1(vec![tag; 20])
}

/// Runs a frame whose actor code does nothing: it returns its own
/// parameter block.
fn run_echo(k: Kernel) -> FrameOutcome {
    let params_id = k.params_id;
    k.finish_invoke(InvokeResult::Return(params_id))
}

#[test]
fn send_to_unresolved_key_address_auto_creates_account_actor() {
    // An unresolved key-style address with value v > 0: one account
    // actor is created, its constructor runs with the system actor as
    // sender and zero value, and the original value lands on the new
    // actor's balance.
    let mut cm = genesis(0, 1_000_000);
    let to = secp(7);
    let k = cm.send(&to, 5, RawBytes::new(vec![1, 2]), 42).unwrap();

    // the constructor frame comes first
    assert_eq!(k.from, SYSTEM_ACTOR_ID);
    assert_eq!(k.to, FIRST_NON_SINGLETON_ADDR);
    assert_eq!(k.method, METHOD_CONSTRUCTOR);
    assert_eq!(k.value, 0);
    // its parameter block holds the serialized original address
    assert_eq!(k.blocks[k.params_id as usize].data, to.to_bytes());

    // the constructor returns; the main frame is still owed
    let k2 = match run_echo(k) {
        FrameOutcome::Next(k2) => k2,
        FrameOutcome::Done(_, r) => panic!("expected the main frame, got {:?}", r),
    };
    assert_eq!(k2.to, FIRST_NON_SINGLETON_ADDR);
    assert_eq!(k2.from, 0);
    assert_eq!(k2.method, 5);
    assert_eq!(k2.value, 42);

    let (cm, ret) = match run_echo(k2) {
        FrameOutcome::Done(cm, r) => (cm, r.unwrap()),
        FrameOutcome::Next(_) => panic!("expected completion"),
    };
    assert_eq!(ret.as_slice(), &vec![1u8, 2u8]);

    let (gas_used, machine) = cm.finish();
    assert_eq!(gas_used, 540, "exactly the actor-creation price was charged");
    let actor = machine
        .state_tree
        .actor_by_id(FIRST_NON_SINGLETON_ADDR)
        .unwrap();
    assert_eq!(actor.code, ACCOUNT_ACTOR_CODE_ID);
    assert_eq!(actor.balance, 42);
    // the address now resolves to the new ID
    assert_eq!(
        machine.state_tree.lookup_id(&to).unwrap(),
        Some(FIRST_NON_SINGLETON_ADDR)
    );
}

#[test]
fn send_to_nonexistent_id_address_fails_without_mutation() {
    let mut cm = genesis(0, 1_000_000);
    let r = cm.send(&Address::new_id(42), 1, RawBytes::empty(), 9);
    assert!(matches!(r, Err(ExecutionError::ActorNotFound)));
    assert_eq!(cm.gas_used(), 0);
    let (gas_used, machine) = cm.finish();
    assert_eq!(gas_used, 0);
    assert_eq!(machine.state_tree.actor_by_id(42), None);
    let (st, _) = State::load(&machine.state_tree).unwrap();
    assert_eq!(st.next_id, FIRST_NON_SINGLETON_ADDR, "no ID was allocated");
}

#[test]
fn send_to_non_key_unresolved_address_fails() {
    let mut cm = genesis(0, 1_000_000);
    let r = cm.send(&Address::new_actor(vec![1, 2, 3]), 1, RawBytes::empty(), 0);
    assert!(matches!(r, Err(ExecutionError::ActorNotFound)));
    assert_eq!(cm.gas_used(), 0);
}

#[test]
fn zero_key_address_is_rejected_before_creating_any_record() {
    // The reserved all-zero key address: creation is rejected with
    // IllegalArgument after the creation price was charged, and no
    // actor record comes into being.
    let mut cm = genesis(0, 1_000_000);
    let zero = Address::new_bls(vec![0u8; 48]);
    let r = cm.send(&zero, 1, RawBytes::empty(), 5);
    assert!(matches!(r, Err(ExecutionError::IllegalArgument)));
    assert_eq!(cm.gas_used(), 540, "the creation price was already charged");
    let (_, machine) = cm.finish();
    let (st, _) = State::load(&machine.state_tree).unwrap();
    assert_eq!(st.next_id, FIRST_NON_SINGLETON_ADDR, "no record was created");
    assert_eq!(
        machine.state_tree.actor_by_id(FIRST_NON_SINGLETON_ADDR),
        None
    );
}

#[test]
fn nonzero_bls_key_address_is_accepted() {
    let mut cm = genesis(0, 1_000_000);
    let mut key = vec![0u8; 48];
    key[47] = 1;
    let k = cm.send(&Address::new_bls(key), 1, RawBytes::empty(), 0).unwrap();
    assert_eq!(k.method, METHOD_CONSTRUCTOR);
}

#[test]
fn auto_creation_fails_with_out_of_gas_when_price_does_not_fit() {
    let mut cm = genesis(0, 100);
    let r = cm.send(&secp(1), 1, RawBytes::empty(), 0);
    assert!(matches!(r, Err(ExecutionError::OutOfGas)));
    assert_eq!(cm.gas_used(), 0, "a failed charge is atomic");
}

#[test]
fn frames_charge_gas_against_the_shared_budget() {
    let mut cm = genesis(0, 1_000_000);
    assert_eq!(cm.gas_available(), 1_000_000);
    let mut k = cm.send(&secp(1), 1, RawBytes::empty(), 0).unwrap();
    // the sandboxed code charges through the kernel's host call
    k.charge_gas(fvm::gas::GasCharge::new(100, 60)).unwrap();
    let (cm, _) = match run_echo(k) {
        FrameOutcome::Next(k2) => match run_echo(k2) {
            FrameOutcome::Done(cm, r) => (cm, r.unwrap()),
            FrameOutcome::Next(_) => panic!("expected completion"),
        },
        FrameOutcome::Done(_, r) => panic!("expected the main frame, got {:?}", r),
    };
    assert_eq!(cm.gas_used(), 540 + 160);
    assert_eq!(cm.gas_available(), 1_000_000 - 700);
}

#[test]
fn sandbox_fault_becomes_execution_fault() {
    let mut cm = genesis(0, 1_000_000);
    let k = cm.send(&secp(1), 1, RawBytes::empty(), 0).unwrap();
    match k.finish_invoke(InvokeResult::Fault) {
        FrameOutcome::Done(cm2, r) => {
            assert!(matches!(r, Err(ExecutionError::ExecutionFault)));
            // the call manager comes back usable, effects stand
            assert_eq!(cm2.gas_used(), 540);
        }
        FrameOutcome::Next(_) => panic!("a faulted constructor must abort the send"),
    }
}

#[test]
fn returning_an_unknown_block_handle_is_a_fault() {
    let mut cm = genesis(0, 1_000_000);
    let k = cm.send(&secp(1), 1, RawBytes::empty(), 0).unwrap();
    match k.finish_invoke(InvokeResult::Return(99)) {
        FrameOutcome::Done(_, r) => assert!(matches!(r, Err(ExecutionError::ExecutionFault))),
        FrameOutcome::Next(_) => panic!("expected a fault"),
    }
}

#[test]
fn explicit_sender_is_restored_after_the_frame() {
    let mut tree = StateTree::new("net".to_string()).unwrap();
    let b = tree
        .create_actor(
            &secp(2),
            ActorState { code: 9, state: 0, sequence: 0, balance: 0 },
        )
        .unwrap();
    let mut cm = CallManager::new(Machine { state_tree: tree }, 77, 1_000_000);
    let k = cm
        .send_explicit(3, b, 4, RawBytes::empty(), 0)
        .unwrap();
    assert_eq!(k.from, 3, "the frame runs with the overridden sender");
    let cm2 = match run_echo(k) {
        FrameOutcome::Done(cm2, r) => {
            r.unwrap();
            cm2
        }
        FrameOutcome::Next(_) => panic!("expected completion"),
    };
    // the next frame dispatched from the restored manager carries the
    // original sender again
    let mut cm2 = cm2;
    let k2 = cm2.send_resolved(b, 4, RawBytes::empty(), 0).unwrap();
    assert_eq!(k2.from, 77);
}

#[test]
fn nested_send_hands_the_context_down_and_back() {
    // Actor A's invocation makes a nested send to actor B; B's frame
    // completes, A's frame resumes with the returned context, and both
    // effects are visible after the whole call completes.
    let mut tree = StateTree::new("net".to_string()).unwrap();
    let a_id = tree
        .create_actor(
            &secp(1),
            ActorState { code: 7, state: 0, sequence: 0, balance: 0 },
        )
        .unwrap();
    let b_id = tree
        .create_actor(
            &secp(2),
            ActorState { code: 8, state: 0, sequence: 0, balance: 0 },
        )
        .unwrap();
    let mut cm = CallManager::new(Machine { state_tree: tree }, 0, 1_000_000);

    // top-level send to A with value 10
    let mut k_a = cm
        .send(&Address::new_id(a_id), 2, RawBytes::new(vec![0xaa]), 10)
        .unwrap();
    assert_eq!(k_a.to, a_id);

    // A's code: nested send of value 3 to B
    let k_b = k_a
        .send(&Address::new_id(b_id), 6, RawBytes::new(vec![0xbb]), 3)
        .unwrap();
    // the effective sender changes only for explicitly elevated
    // internal sends, so the nested frame still carries it
    assert_eq!(k_b.from, 0);
    assert_eq!(k_b.to, b_id);

    // B's code echoes its parameters; its frame returns the context
    let (cm_b, ret_b) = match run_echo(k_b) {
        FrameOutcome::Done(cm_b, r) => (cm_b, r.unwrap()),
        FrameOutcome::Next(_) => panic!("expected completion of B"),
    };
    assert_eq!(ret_b.as_slice(), &vec![0xbbu8]);

    // A resumes with the returned context and completes
    k_a.restore(cm_b);
    let (cm, ret_a) = match run_echo(k_a) {
        FrameOutcome::Done(cm, r) => (cm, r.unwrap()),
        FrameOutcome::Next(_) => panic!("expected completion of A"),
    };
    assert_eq!(ret_a.as_slice(), &vec![0xaau8]);

    // both transfers are visible in the final machine
    let (_, machine) = cm.finish();
    assert_eq!(machine.state_tree.actor_by_id(a_id).unwrap().balance, 10);
    assert_eq!(machine.state_tree.actor_by_id(b_id).unwrap().balance, 3);

    // a later send to A sees A's mutated balance grow further
    let mut cm = CallManager::new(machine, 0, 1_000_000);
    let k = cm.send(&Address::new_id(a_id), 2, RawBytes::empty(), 5).unwrap();
    let (cm, _) = match run_echo(k) {
        FrameOutcome::Done(cm, r) => (cm, r.unwrap()),
        FrameOutcome::Next(_) => panic!("expected completion"),
    };
    let (_, machine) = cm.finish();
    assert_eq!(machine.state_tree.actor_by_id(a_id).unwrap().balance, 15);
}

#[test]
fn value_transfer_is_eager_even_if_the_invocation_faults() {
    let mut tree = StateTree::new("net".to_string()).unwrap();
    let a_id = tree
        .create_actor(
            &secp(1),
            ActorState { code: 7, state: 0, sequence: 0, balance: 1 },
        )
        .unwrap();
    let mut cm = CallManager::new(Machine { state_tree: tree }, 0, 1_000_000);
    let k = cm.send(&Address::new_id(a_id), 2, RawBytes::empty(), 6).unwrap();
    let (cm, r) = match k.finish_invoke(InvokeResult::Fault) {
        FrameOutcome::Done(cm, r) => (cm, r),
        FrameOutcome::Next(_) => panic!("expected a fault"),
    };
    assert!(matches!(r, Err(ExecutionError::ExecutionFault)));
    let (_, machine) = cm.finish();
    assert_eq!(
        machine.state_tree.actor_by_id(a_id).unwrap().balance,
        7,
        "the balance was credited before the invocation and is not rolled back"
    );
}
