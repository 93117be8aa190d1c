//! The backing store, modeled as a content-addressed object store: each
//! `put` yields a fresh identifier for the stored object, and objects are
//! never overwritten. The persistent address map is an immutable-root,
//! copy-on-write structure: a mutation builds a new map and flushing it
//! yields a new root identifier, while every old root stays readable.

use vstd::prelude::*;

use crate::assoc::{find_val, lemma_find_insert_front, lemma_find_some_key_present};
use crate::init_actor::State;

verus! {

/// The branching factor exponent of the persistent hashed-trie map,
/// fixed for a protocol version.
pub const HAMT_BIT_WIDTH: u32 = 5;

/// One persistent map object: serialized address bytes to actor ID.
/// Entries are kept most-recent-first; a lookup takes the first match.
#[derive(Debug)]
pub struct AddressMap {
    bit_width: u32,
    entries: Vec<(Vec<u8>, u64)>,
}

impl View for AddressMap {
    type V = Seq<(Seq<u8>, u64)>;

    closed spec fn view(&self) -> Seq<(Seq<u8>, u64)> {
        self.entries@.map_values(|e: (Vec<u8>, u64)| (e.0@, e.1))
    }
}

/// The value `key` is mapped to, if any.
pub open spec fn map_get(m: Seq<(Seq<u8>, u64)>, key: Seq<u8>) -> Option<u64> {
    find_val(m, key)
}

/// Exact byte-string comparison.
fn bytes_eq(a: &Vec<u8>, b: &Vec<u8>) -> (r: bool)
    ensures
        r <==> a@ == b@,
{
    if a.len() != b.len() {
        return false;
    }
    let mut i: usize = 0;
    while i < a.len()
        invariant
            0 <= i <= a@.len(),
            a@.len() == b@.len(),
            forall|j: int| 0 <= j < i ==> a@[j] == b@[j],
        decreases a@.len() - i,
    {
        if a[i] != b[i] {
            assert(a@[i as int] != b@[i as int]);
            return false;
        }
        i = i + 1;
    }
    assert(a@ =~= b@);
    true
}

/// A fresh byte string with the same contents.
pub(crate) fn copy_bytes(src: &Vec<u8>) -> (r: Vec<u8>)
    ensures
        r@ == src@,
{
    let mut out: Vec<u8> = Vec::new();
    let mut i: usize = 0;
    while i < src.len()
        invariant
            0 <= i <= src@.len(),
            out@ == src@.take(i as int),
        decreases src@.len() - i,
    {
        out.push(src[i]);
        assert(out@ =~= src@.take(i + 1));
        i = i + 1;
    }
    assert(src@.take(src@.len() as int) =~= src@);
    out
}

impl AddressMap {
    pub closed spec fn bit_width_spec(self) -> u32 {
        self.bit_width
    }

    /// An empty map with the given branching factor.
    pub fn empty(bit_width: u32) -> (r: AddressMap)
        ensures
            r@ == Seq::<(Seq<u8>, u64)>::empty(),
            r.bit_width_spec() == bit_width,
    {
        let r = AddressMap { bit_width, entries: Vec::new() };
        assert(r@ =~= Seq::<(Seq<u8>, u64)>::empty());
        r
    }

    /// A distinct map object with the same contents, the copy that a
    /// mutation starts from.
    pub fn duplicate(&self) -> (r: AddressMap)
        ensures
            r@ == self@,
            r.bit_width_spec() == self.bit_width_spec(),
    {
        let mut entries: Vec<(Vec<u8>, u64)> = Vec::new();
        let mut i: usize = 0;
        while i < self.entries.len()
            invariant
                0 <= i <= self.entries@.len(),
                entries@.len() == i,
                forall|j: int|
                    0 <= j < i ==> (#[trigger] entries@[j]).0@ == self.entries@[j].0@
                        && entries@[j].1 == self.entries@[j].1,
            decreases self.entries@.len() - i,
        {
            let key = copy_bytes(&self.entries[i].0);
            let value = self.entries[i].1;
            entries.push((key, value));
            i = i + 1;
        }
        let r = AddressMap { bit_width: self.bit_width, entries };
        assert(r@ =~= self@);
        r
    }

    /// First-match lookup of a serialized address.
    pub fn get(&self, key: &Vec<u8>) -> (r: Option<u64>)
        ensures
            r == map_get(self@, key@),
    {
        let mut i: usize = 0;
        while i < self.entries.len()
            invariant
                0 <= i <= self.entries@.len(),
                forall|j: int| 0 <= j < i ==> (#[trigger] self@[j]).0 != key@,
                self@.len() == self.entries@.len(),
                forall|j: int|
                    0 <= j < self.entries@.len() ==> #[trigger] self@[j] == (
                    self.entries@[j].0@,
                    self.entries@[j].1,
                ),
            decreases self.entries@.len() - i,
        {
            if bytes_eq(&self.entries[i].0, key) {
                proof {
                    crate::assoc::lemma_find_skip(self@, key@, i as int);
                    assert(self@.skip(i as int)[0] == self@[i as int]);
                }
                return Some(self.entries[i].1);
            }
            i = i + 1;
        }
        proof {
            crate::assoc::lemma_find_skip(self@, key@, self@.len() as int);
            assert(self@.skip(self@.len() as int) =~= Seq::<(Seq<u8>, u64)>::empty());
        }
        None
    }

    /// Binds `key` to `value`, shadowing any earlier binding. Every other
    /// key's lookup is untouched.
    pub fn set(&mut self, key: Vec<u8>, value: u64)
        ensures
            final(self)@ == old(self)@.insert(0, (key@, value)),
            final(self).bit_width_spec() == old(self).bit_width_spec(),
            map_get(final(self)@, key@) == Some::<u64>(value),
            forall|probe: Seq<u8>|
                probe != key@ ==> #[trigger] map_get(final(self)@, probe) == map_get(
                    old(self)@,
                    probe,
                ),
    {
        let ghost old_view = self@;
        let ghost key_view = key@;
        self.entries.insert(0, (key, value));
        assert(self@ =~= old_view.insert(0, (key_view, value)));
        proof {
            assert forall|probe: Seq<u8>| true implies #[trigger] map_get(self@, probe) == (
            if probe == key_view {
                Some(value)
            } else {
                map_get(old_view, probe)
            }) by {
                lemma_find_insert_front(old_view, (key_view, value), probe);
            }
        }
    }
}

/// A ghost image of the init actor's persisted state object.
pub struct StateV {
    pub address_map: u64,
    pub next_id: u64,
    pub network_name: Seq<char>,
}

/// The content-addressed backing store. `next_cid` is the identifier the
/// next `put` hands out; everything already stored keeps its identifier
/// forever.
#[derive(Debug)]
pub struct Store {
    maps: Vec<(u64, AddressMap)>,
    states: Vec<(u64, State)>,
    next_cid: u64,
}

impl Store {
    /// The identifier the next `put` will return.
    pub closed spec fn next_cid_spec(self) -> int {
        self.next_cid as int
    }

    /// Whether `n` more objects can still be stored.
    pub open spec fn can_alloc(self, n: int) -> bool {
        self.next_cid_spec() + n <= u64::MAX
    }

    pub closed spec fn map_slot(self, cid: u64) -> Option<AddressMap> {
        find_val(self.maps@, cid)
    }

    pub open spec fn has_map(self, cid: u64) -> bool {
        self.map_slot(cid) is Some
    }

    /// The contents of the map object stored under `cid`.
    pub open spec fn map_view(self, cid: u64) -> Seq<(Seq<u8>, u64)> {
        self.map_slot(cid).unwrap()@
    }

    pub closed spec fn state_slot(self, cid: u64) -> Option<State> {
        find_val(self.states@, cid)
    }

    pub open spec fn has_state(self, cid: u64) -> bool {
        self.state_slot(cid) is Some
    }

    /// The init-state object stored under `cid`.
    pub open spec fn state_view(self, cid: u64) -> StateV {
        self.state_slot(cid).unwrap()@
    }

    /// Every identifier handed out so far is below `next_cid`.
    pub closed spec fn wf(self) -> bool {
        (forall|j: int|
            0 <= j < self.maps@.len() ==> (#[trigger] self.maps@[j]).0 < self.next_cid)
            && (forall|j: int|
            0 <= j < self.states@.len() ==> (#[trigger] self.states@[j]).0 < self.next_cid)
    }

    pub fn new() -> (r: Store)
        ensures
            r.wf(),
            r.next_cid_spec() == 0,
            forall|cid: u64| !(#[trigger] r.has_map(cid)),
            forall|cid: u64| !(#[trigger] r.has_state(cid)),
    {
        Store { maps: Vec::new(), states: Vec::new(), next_cid: 0 }
    }

    /// Reads the map object under `cid`.
    pub fn get_map(&self, cid: u64) -> (r: Option<&AddressMap>)
        ensures
            self.has_map(cid) ==> (r matches Some(m) && m@ == self.map_view(cid)
                && m.bit_width_spec() == self.map_slot(cid).unwrap().bit_width_spec()),
            !self.has_map(cid) ==> r is None,
    {
        let mut i: usize = 0;
        while i < self.maps.len()
            invariant
                0 <= i <= self.maps@.len(),
                forall|j: int| 0 <= j < i ==> (#[trigger] self.maps@[j]).0 != cid,
            decreases self.maps@.len() - i,
        {
            if self.maps[i].0 == cid {
                proof {
                    crate::assoc::lemma_find_skip(self.maps@, cid, i as int);
                    assert(self.maps@.skip(i as int)[0] == self.maps@[i as int]);
                }
                return Some(&self.maps[i].1);
            }
            i = i + 1;
        }
        proof {
            crate::assoc::lemma_find_skip(self.maps@, cid, self.maps@.len() as int);
            assert(self.maps@.skip(self.maps@.len() as int) =~= Seq::<(u64, AddressMap)>::empty());
        }
        None
    }

    /// Stores (flushes) a map object, returning its fresh identifier. No
    /// stored object changes: old roots stay readable under their old
    /// identifiers.
    pub fn put_map(&mut self, m: AddressMap) -> (r: u64)
        requires
            old(self).wf(),
            old(self).can_alloc(1),
        ensures
            final(self).wf(),
            r == old(self).next_cid_spec(),
            final(self).next_cid_spec() == old(self).next_cid_spec() + 1,
            !old(self).has_map(r),
            !old(self).has_state(r),
            final(self).has_map(r),
            final(self).map_view(r) == m@,
            forall|cid: u64|
                cid != r ==> #[trigger] final(self).map_slot(cid) == old(self).map_slot(cid),
            forall|cid: u64| #[trigger] final(self).state_slot(cid) == old(self).state_slot(cid),
    {
        let cid = self.next_cid;
        proof {
            if self.map_slot(cid) is Some {
                lemma_find_some_key_present(self.maps@, cid);
            }
            if self.state_slot(cid) is Some {
                lemma_find_some_key_present(self.states@, cid);
            }
        }
        self.maps.insert(0, (cid, m));
        self.next_cid = self.next_cid + 1;
        proof {
            assert forall|probe: u64| true implies #[trigger] find_val(self.maps@, probe) == (
            if probe == cid {
                Some(m)
            } else {
                find_val(old(self).maps@, probe)
            }) by {
                assert(self.maps@ =~= old(self).maps@.insert(0, (cid, m)));
                lemma_find_insert_front(old(self).maps@, (cid, m), probe);
            }
        }
        cid
    }

    /// Reads the init-state object under `cid`.
    pub fn get_state(&self, cid: u64) -> (r: Option<&State>)
        ensures
            self.has_state(cid) ==> (r matches Some(st) && st@ == self.state_view(cid)),
            !self.has_state(cid) ==> r is None,
    {
        let mut i: usize = 0;
        while i < self.states.len()
            invariant
                0 <= i <= self.states@.len(),
                forall|j: int| 0 <= j < i ==> (#[trigger] self.states@[j]).0 != cid,
            decreases self.states@.len() - i,
        {
            if self.states[i].0 == cid {
                proof {
                    crate::assoc::lemma_find_skip(self.states@, cid, i as int);
                    assert(self.states@.skip(i as int)[0] == self.states@[i as int]);
                }
                return Some(&self.states[i].1);
            }
            i = i + 1;
        }
        proof {
            crate::assoc::lemma_find_skip(self.states@, cid, self.states@.len() as int);
            assert(self.states@.skip(self.states@.len() as int) =~= Seq::<(u64, State)>::empty());
        }
        None
    }

    /// Stores an init-state object, returning its fresh identifier.
    pub fn put_state(&mut self, st: State) -> (r: u64)
        requires
            old(self).wf(),
            old(self).can_alloc(1),
        ensures
            final(self).wf(),
            r == old(self).next_cid_spec(),
            final(self).next_cid_spec() == old(self).next_cid_spec() + 1,
            !old(self).has_state(r),
            !old(self).has_map(r),
            final(self).has_state(r),
            final(self).state_view(r) == st@,
            forall|cid: u64|
                cid != r ==> #[trigger] final(self).state_slot(cid) == old(self).state_slot(cid),
            forall|cid: u64| #[trigger] final(self).map_slot(cid) == old(self).map_slot(cid),
    {
        let cid = self.next_cid;
        proof {
            if self.map_slot(cid) is Some {
                lemma_find_some_key_present(self.maps@, cid);
            }
            if self.state_slot(cid) is Some {
                lemma_find_some_key_present(self.states@, cid);
            }
        }
        self.states.insert(0, (cid, st));
        self.next_cid = self.next_cid + 1;
        proof {
            assert forall|probe: u64| true implies #[trigger] find_val(self.states@, probe) == (
            if probe == cid {
                Some(st)
            } else {
                find_val(old(self).states@, probe)
            }) by {
                assert(self.states@ =~= old(self).states@.insert(0, (cid, st)));
                lemma_find_insert_front(old(self).states@, (cid, st), probe);
            }
        }
        cid
    }
}

} // verus!
