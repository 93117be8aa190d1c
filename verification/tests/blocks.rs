use fvm::address::{Address, Payload, Protocol};
use fvm::call_manager::{CallManager, FrameOutcome, InvokeResult};
use fvm::encoding::{RawBytes, DAG_CBOR};
use fvm::error::ExecutionError;
use fvm::sdk;
use fvm::state_tree::{ActorState, Machine, StateTree};

fn frame() -> fvm::call_manager::Kernel {
    let mut tree = StateTree::new("net".to_string()).unwrap();
    let id = tree
        .create_actor(
            &Address::new_secp256k1(vec![1; 20]),
            ActorState { code: 7, state: 0, sequence: 0, balance: 0 },
        )
        .unwrap();
    let mut cm = CallManager::new(Machine { state_tree: tree }, 0, 1_000_000);
    cm.send(&Address::new_id(id), 2, RawBytes::new(vec![1, 2, 3]), 0)
        .unwrap()
}

#[test]
fn params_block_is_handle_zero() {
    let k = frame();
    assert_eq!(k.params_id, 0);
    let st = k.block_stat(0).unwrap();
    assert_eq!(st.codec, DAG_CBOR);
    assert_eq!(st.size, 3);
}

#[test]
fn block_create_stat_read_roundtrip() {
    let mut k = frame();
    let h = k.block_create(DAG_CBOR, RawBytes::new(vec![9, 8, 7, 6])).unwrap();
    assert_eq!(h, 1);
    let st = k.block_stat(h).unwrap();
    assert_eq!(st.size, 4);
    let bytes = k.block_read(h, 0, st.size).unwrap();
    assert_eq!(bytes, vec![9, 8, 7, 6]);
    // offset and length clipping
    assert_eq!(k.block_read(h, 2, 100).unwrap(), vec![7, 6]);
    assert_eq!(k.block_read(h, 1, 2).unwrap(), vec![8, 7]);
    assert_eq!(k.block_read(h, 4, 1).unwrap(), Vec::<u8>::new());
}

#[test]
fn unknown_handles_are_rejected() {
    let k = frame();
    assert!(matches!(k.block_stat(5), Err(ExecutionError::IllegalArgument)));
    assert!(matches!(
        k.block_read(5, 0, 1),
        Err(ExecutionError::IllegalArgument)
    ));
    assert!(matches!(
        k.block_read(0, 4, 1),
        Err(ExecutionError::IllegalArgument)
    ));
}

#[test]
fn sdk_read_block_returns_the_whole_block() {
    let mut k = frame();
    let h = k.block_create(DAG_CBOR, RawBytes::new(vec![5; 10])).unwrap();
    let rb = sdk::read_block(&k, h).unwrap();
    assert_eq!(rb.as_slice(), &vec![5u8; 10]);
    assert!(matches!(
        sdk::read_block(&k, 9),
        Err(ExecutionError::IllegalArgument)
    ));
}

#[test]
fn sdk_send_recombines_the_value_words() {
    let mut tree = StateTree::new("net".to_string()).unwrap();
    let id = tree
        .create_actor(
            &Address::new_secp256k1(vec![1; 20]),
            ActorState { code: 7, state: 0, sequence: 0, balance: 0 },
        )
        .unwrap();
    let other = tree
        .create_actor(
            &Address::new_secp256k1(vec![2; 20]),
            ActorState { code: 7, state: 0, sequence: 0, balance: 0 },
        )
        .unwrap();
    let mut cm = CallManager::new(Machine { state_tree: tree }, 0, 1_000_000);
    let mut k = cm.send(&Address::new_id(id), 2, RawBytes::empty(), 0).unwrap();
    // value 2^64 + 5, split into words
    let nested = sdk::send(&mut k, &Address::new_id(other), 3, RawBytes::empty(), 1, 5).unwrap();
    assert_eq!(nested.value, (1u128 << 64) + 5);
    let (cm2, _) = match nested.finish_invoke(InvokeResult::Return(0)) {
        FrameOutcome::Done(cm2, r) => (cm2, r.unwrap()),
        FrameOutcome::Next(_) => panic!("expected completion"),
    };
    k.restore(cm2);
    let (cm, _) = match k.finish_invoke(InvokeResult::Return(0)) {
        FrameOutcome::Done(cm, r) => (cm, r.unwrap()),
        FrameOutcome::Next(_) => panic!("expected completion"),
    };
    let (_, machine) = cm.finish();
    assert_eq!(
        machine.state_tree.actor_by_id(other).unwrap().balance,
        (1u128 << 64) + 5
    );
}

#[test]
fn address_serialization_tags_each_protocol() {
    assert_eq!(Address::new_id(258).to_bytes(), {
        let mut v = vec![0u8];
        v.extend_from_slice(&[0, 0, 0, 0, 0, 0, 1, 2]);
        v
    });
    assert_eq!(
        Address::new_secp256k1(vec![7, 8]).to_bytes(),
        vec![1, 7, 8]
    );
    assert_eq!(Address::new_actor(vec![9]).to_bytes(), vec![2, 9]);
    assert_eq!(Address::new_bls(vec![4]).to_bytes(), vec![3, 4]);
}

#[test]
fn protocols_and_zero_key_detection() {
    assert_eq!(Address::new_id(1).protocol(), Protocol::ID);
    assert_eq!(
        Address::new_secp256k1(vec![1]).protocol(),
        Protocol::Secp256k1
    );
    assert_eq!(Address::new_actor(vec![1]).protocol(), Protocol::Actor);
    assert_eq!(Address::new_bls(vec![1]).protocol(), Protocol::BLS);

    assert!(Address::new_bls(vec![0u8; 48]).is_bls_zero_address());
    assert!(!Address::new_bls(vec![0u8; 47]).is_bls_zero_address());
    let mut almost = vec![0u8; 48];
    almost[0] = 1;
    assert!(!Address::new_bls(almost).is_bls_zero_address());
    assert!(!Address::new_secp256k1(vec![0u8; 48]).is_bls_zero_address());

    match Address::new_id(5).payload() {
        Payload::ID(id) => assert_eq!(*id, 5),
        _ => panic!("expected an ID payload"),
    }
}
