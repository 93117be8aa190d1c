//! Addresses. An address is either a canonical numeric-ID address, which
//! every lookup passes through untouched, or a non-canonical address (a
//! cryptographic key or an actor address) that must be resolved to an ID
//! through the init actor's persistent map. Addresses are immutable
//! values; the serialized form `key_bytes` is the identity under which a
//! non-ID address is stored as a map key.

use vstd::prelude::*;

verus! {

/// Length in bytes of an aggregate-signature public key payload.
pub const BLS_PUB_LEN: usize = 48;

/// The address classes.
#[derive(Clone, Copy, Debug, PartialEq, Eq, Structural)]
pub enum Protocol {
    ID,
    Secp256k1,
    Actor,
    BLS,
}

/// The payload carried by an address: a numeric actor ID, or the raw key
/// material of a non-canonical address.
#[derive(Debug)]
pub enum Payload {
    ID(u64),
    Secp256k1(Vec<u8>),
    Actor(Vec<u8>),
    BLS(Vec<u8>),
}

#[derive(Debug)]
pub struct Address {
    pub payload: Payload,
}

/// Big-endian bytes of a 64-bit integer.
pub open spec fn u64_be(i: u64) -> Seq<u8> {
    seq![
        (((i >> 56) & 0xff) as u8),
        (((i >> 48) & 0xff) as u8),
        (((i >> 40) & 0xff) as u8),
        (((i >> 32) & 0xff) as u8),
        (((i >> 24) & 0xff) as u8),
        (((i >> 16) & 0xff) as u8),
        (((i >> 8) & 0xff) as u8),
        ((i & 0xff) as u8),
    ]
}

proof fn lemma_byte_mask(x: u64)
    ensures
        x & 0xff < 256,
{
    assert(x & 0xff < 256) by (bit_vector);
}

impl Address {
    pub open spec fn is_id(self) -> bool {
        self.payload is ID
    }

    /// The numeric ID carried by an ID address (meaningful under `is_id`).
    pub open spec fn id(self) -> u64 {
        match self.payload {
            Payload::ID(i) => i,
            _ => 0,
        }
    }

    pub open spec fn protocol_spec(self) -> Protocol {
        match self.payload {
            Payload::ID(_) => Protocol::ID,
            Payload::Secp256k1(_) => Protocol::Secp256k1,
            Payload::Actor(_) => Protocol::Actor,
            Payload::BLS(_) => Protocol::BLS,
        }
    }

    /// Whether this is a key-style address, for which a missing mapping
    /// triggers account-actor auto-creation.
    pub open spec fn is_key(self) -> bool {
        self.protocol_spec() == Protocol::Secp256k1 || self.protocol_spec() == Protocol::BLS
    }

    /// The serialized form: one protocol tag byte, then the payload.
    pub open spec fn key_bytes(self) -> Seq<u8> {
        match self.payload {
            Payload::ID(i) => seq![0u8] + u64_be(i),
            Payload::Secp256k1(v) => seq![1u8] + v@,
            Payload::Actor(v) => seq![2u8] + v@,
            Payload::BLS(v) => seq![3u8] + v@,
        }
    }

    /// The reserved null key address: an all-zero aggregate-signature key.
    pub open spec fn is_bls_zero(self) -> bool {
        match self.payload {
            Payload::BLS(v) => v@.len() == BLS_PUB_LEN && (forall|i: int|
                0 <= i < v@.len() ==> v@[i] == 0u8),
            _ => false,
        }
    }

    pub fn new_id(id: u64) -> (r: Address)
        ensures
            r.payload == Payload::ID(id),
    {
        Address { payload: Payload::ID(id) }
    }

    pub fn new_secp256k1(key: Vec<u8>) -> (r: Address)
        ensures
            r.payload == Payload::Secp256k1(key),
    {
        Address { payload: Payload::Secp256k1(key) }
    }

    pub fn new_actor(data: Vec<u8>) -> (r: Address)
        ensures
            r.payload == Payload::Actor(data),
    {
        Address { payload: Payload::Actor(data) }
    }

    pub fn new_bls(key: Vec<u8>) -> (r: Address)
        ensures
            r.payload == Payload::BLS(key),
    {
        Address { payload: Payload::BLS(key) }
    }

    pub fn payload(&self) -> (r: &Payload)
        ensures
            *r == self.payload,
    {
        &self.payload
    }

    pub fn protocol(&self) -> (r: Protocol)
        ensures
            r == self.protocol_spec(),
    {
        match &self.payload {
            Payload::ID(_) => Protocol::ID,
            Payload::Secp256k1(_) => Protocol::Secp256k1,
            Payload::Actor(_) => Protocol::Actor,
            Payload::BLS(_) => Protocol::BLS,
        }
    }

    /// The serialized address, as stored for map keys and constructor
    /// parameters.
    pub fn to_bytes(&self) -> (r: Vec<u8>)
        ensures
            r@ == self.key_bytes(),
    {
        let mut out: Vec<u8> = Vec::new();
        match &self.payload {
            Payload::ID(i) => {
                let i: u64 = *i;
                out.push(0u8);
                proof {
                    lemma_byte_mask(i >> 56);
                    lemma_byte_mask(i >> 48);
                    lemma_byte_mask(i >> 40);
                    lemma_byte_mask(i >> 32);
                    lemma_byte_mask(i >> 24);
                    lemma_byte_mask(i >> 16);
                    lemma_byte_mask(i >> 8);
                    lemma_byte_mask(i);
                }
                out.push(((i >> 56) & 0xff) as u8);
                out.push(((i >> 48) & 0xff) as u8);
                out.push(((i >> 40) & 0xff) as u8);
                out.push(((i >> 32) & 0xff) as u8);
                out.push(((i >> 24) & 0xff) as u8);
                out.push(((i >> 16) & 0xff) as u8);
                out.push(((i >> 8) & 0xff) as u8);
                out.push((i & 0xff) as u8);
                assert(out@ =~= self.key_bytes());
            },
            Payload::Secp256k1(v) => {
                out.push(1u8);
                out = push_all(out, v);
                assert(out@ =~= self.key_bytes());
            },
            Payload::Actor(v) => {
                out.push(2u8);
                out = push_all(out, v);
                assert(out@ =~= self.key_bytes());
            },
            Payload::BLS(v) => {
                out.push(3u8);
                out = push_all(out, v);
                assert(out@ =~= self.key_bytes());
            },
        }
        out
    }

    pub fn is_bls_zero_address(&self) -> (r: bool)
        ensures
            r == self.is_bls_zero(),
    {
        match &self.payload {
            Payload::BLS(v) => {
                if v.len() != BLS_PUB_LEN {
                    return false;
                }
                let mut i: usize = 0;
                while i < v.len()
                    invariant
                        0 <= i <= v@.len(),
                        v@.len() == BLS_PUB_LEN,
                        self.payload matches Payload::BLS(w) && w == *v,
                        forall|j: int| 0 <= j < i ==> v@[j] == 0u8,
                    decreases v@.len() - i,
                {
                    if v[i] != 0u8 {
                        assert(v@[i as int] != 0u8);
                        return false;
                    }
                    i = i + 1;
                }
                true
            },
            _ => false,
        }
    }
}

/// A non-ID address serializes with a nonzero protocol tag, so it can
/// never collide with the serialized form of an ID address.
pub proof fn lemma_key_bytes_non_id(addr: Address)
    requires
        !addr.is_id(),
    ensures
        addr.key_bytes().len() >= 1,
        addr.key_bytes()[0] != 0u8,
{
    match addr.payload {
        Payload::ID(_) => {},
        Payload::Secp256k1(v) => {
            assert(addr.key_bytes()[0] == 1u8);
        },
        Payload::Actor(v) => {
            assert(addr.key_bytes()[0] == 2u8);
        },
        Payload::BLS(v) => {
            assert(addr.key_bytes()[0] == 3u8);
        },
    }
}

/// Appends every byte of `src` to `dst`.
fn push_all(dst: Vec<u8>, src: &Vec<u8>) -> (r: Vec<u8>)
    ensures
        r@ == dst@ + src@,
{
    let mut out = dst;
    assert(out@ =~= dst@ + src@.take(0));
    let mut i: usize = 0;
    while i < src.len()
        invariant
            0 <= i <= src@.len(),
            out@ == dst@ + src@.take(i as int),
        decreases src@.len() - i,
    {
        out.push(src[i]);
        assert(out@ =~= dst@ + src@.take(i + 1));
        i = i + 1;
    }
    assert(src@.take(src@.len() as int) =~= src@);
    out
}

} // verus!
