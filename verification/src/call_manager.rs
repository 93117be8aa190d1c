//! The call manager: the orchestrator of one top-level message's entire
//! call tree. It owns the execution context (the machine), drives gas
//! charging, resolves recipients, auto-creates account actors, and hands
//! each call frame to the sandboxed execution engine.
//!
//! Ownership handoff: dispatching a frame moves the inner state out of
//! the call manager into a fresh [`Kernel`], leaving the call manager
//! poisoned (`is_live()` false); every operation requires the live
//! state, so touching a poisoned handle is a contract violation, not a
//! recoverable error. The driver runs the sandboxed code against the
//! kernel (nested sends recurse through [`Kernel::send`]) and completes
//! the frame with [`Kernel::finish_invoke`], which hands a live call
//! manager back.

use vstd::prelude::*;

use crate::account_actor::{zero_state, zero_state_spec, METHOD_CONSTRUCTOR, SYSTEM_ACTOR_ID};
use crate::address::{Address, Protocol};
use crate::encoding::{RawBytes, DAG_CBOR};
use crate::error::ExecutionError;
use crate::gas::{
    price_on_create_actor, GasCharge, GasTracker, CREATE_ACTOR_COMPUTE_GAS,
    CREATE_ACTOR_STORAGE_GAS,
};
use crate::init_actor::INIT_ACTOR_ID;
use crate::state_tree::{ActorState, Machine, StateTree};
use crate::store::map_get;

verus! {

/// The state a live call manager owns: the machine (execution context),
/// the gas tracker, and the current effective sender.
pub struct InnerCallManager {
    /// The execution context this call tree owns.
    pub machine: Machine,
    /// The gas meter shared by every frame of the tree.
    pub gas_tracker: GasTracker,
    /// The current effective sender's actor ID.
    pub from: u64,
}

/// A handle on one call tree's state. Exactly one live, non-transferred
/// handle exists per tree: while a frame runs, the state has moved into
/// that frame's kernel and this handle is poisoned.
pub struct CallManager {
    inner: Option<InnerCallManager>,
}

/// A nested send that must run once a constructor frame returns: the
/// original message, aimed at the freshly created actor.
pub struct PendingSend {
    pub to: u64,
    pub method: u64,
    pub params: RawBytes,
    pub value: u128,
}

/// One entry of a frame's block registry.
pub struct Block {
    pub codec: u64,
    pub data: Vec<u8>,
}

/// Size and codec of a registered block.
#[derive(Clone, Copy, Debug, PartialEq, Eq, Structural)]
pub struct BlockStat {
    pub codec: u64,
    pub size: usize,
}

/// The host-call surface bound to one frame: it owns the call manager
/// for the duration of the frame and registers the blocks through which
/// parameters and results cross the sandbox boundary.
pub struct Kernel {
    /// The call tree's state, owned while this frame runs.
    pub cm: CallManager,
    /// The frame's sender.
    pub from: u64,
    /// The frame's receiver (always resolved).
    pub to: u64,
    /// The method number to invoke.
    pub method: u64,
    /// The value carried by the message (already credited).
    pub value: u128,
    /// Handle of the block holding the frame's parameters.
    pub params_id: u32,
    /// The sender to restore on the enclosing call manager when this
    /// frame completes.
    pub prev_from: u64,
    /// A send still owed once this (constructor) frame returns.
    pub after: Option<PendingSend>,
    /// The frame's block registry.
    pub blocks: Vec<Block>,
}

/// What the sandboxed invocation of a frame produced: the handle of a
/// return block, or an instantiation or invocation fault.
pub enum InvokeResult {
    Return(u32),
    Fault,
}

/// A completed frame hands back either the restored call manager with
/// the frame's result, or the next frame still owed (the main send that
/// follows a constructor).
pub enum FrameOutcome {
    Done(CallManager, Result<RawBytes, ExecutionError>),
    Next(Kernel),
}

/// The registered blocks, as codec/content pairs.
pub open spec fn blocks_view(blocks: Seq<Block>) -> Seq<(u64, Seq<u8>)> {
    blocks.map_values(|b: Block| (b.codec, b.data@))
}

/// Why a send to the already-resolved actor `to` would fail: the actor
/// must exist, and crediting `value` must not overflow its balance.
pub open spec fn resolved_err(tree: StateTree, to: u64, value: u128) -> Option<ExecutionError> {
    match tree.actor_at(to) {
        None => Some(ExecutionError::ActorNotFound),
        Some(act) => if act.balance + value > u128::MAX {
            Some(ExecutionError::IllegalArgument)
        } else {
            None
        },
    }
}

/// The value transfer applied eagerly before invocation: actor `to`'s
/// balance grows by `value`; no other record and nothing in the store
/// changes.
pub open spec fn credited(pre: StateTree, post: StateTree, to: u64, value: u128) -> bool {
    &&& post.store == pre.store
    &&& pre.actor_at(to) matches Some(b) && post.actor_at(to) == Some(
        ActorState { balance: (b.balance + value) as u128, ..b },
    )
    &&& (forall|j: u64| j != to ==> #[trigger] post.actor_at(j) == pre.actor_at(j))
}

/// A dispatched frame: the kernel owns a live call manager whose
/// machine shows the eager value transfer, whose sender is the frame's
/// sender, and whose gas tracker is handed through unchanged; the
/// frame's parameters stand in block 0 of its registry.
pub open spec fn frame_ok(
    tracker: GasTracker,
    tree0: StateTree,
    frame_from: u64,
    prev_from: u64,
    to: u64,
    method: u64,
    value: u128,
    params: Seq<u8>,
    after: Option<PendingSend>,
    k: Kernel,
) -> bool {
    &&& k.cm.is_live()
    &&& k.cm.inner_view().gas_tracker == tracker
    &&& k.cm.inner_view().from == frame_from
    &&& credited(tree0, k.cm.inner_view().machine.state_tree, to, value)
    &&& k.cm.inner_view().machine.state_tree.wf()
    &&& k.from == frame_from
    &&& k.to == to
    &&& k.method == method
    &&& k.value == value
    &&& k.prev_from == prev_from
    &&& k.after == after
    &&& k.params_id == 0
    &&& blocks_view(k.blocks@) == seq![(DAG_CBOR, params)]
}

/// An account actor auto-created for the serialized address `key`:
/// `id` is the ID that was allocated and bound to `key`, the new record
/// is the blank account record, and every other record and mapping is
/// untouched (the init actor's record only moves its state root).
pub open spec fn created(tree0: StateTree, tree1: StateTree, key: Seq<u8>, id: u64) -> bool {
    &&& id == tree0.next_id_spec()
    &&& tree0.actor_at(id) is None
    &&& tree1.wf()
    &&& tree1.next_id_spec() == tree0.next_id_spec() + 1
    &&& tree1.actor_at(id) == Some(zero_state_spec())
    &&& (forall|j: u64|
        j != id && j != INIT_ACTOR_ID ==> #[trigger] tree1.actor_at(j) == tree0.actor_at(j))
    &&& tree1.init_record().code == tree0.init_record().code
    &&& tree1.init_record().balance == tree0.init_record().balance
    &&& map_get(tree1.resolver_map(), key) == Some(id)
    &&& (forall|probe: Seq<u8>|
        probe != key ==> #[trigger] map_get(tree1.resolver_map(), probe) == map_get(
            tree0.resolver_map(),
            probe,
        ))
}

/// Which error a `send` from the state `pre` to `to` with `value` is
/// bound to produce, if any; `None` means the send is owed a frame.
pub open spec fn send_outcome(pre: InnerCallManager, to: Address, value: u128) -> Option<
    ExecutionError,
> {
    let tree0 = pre.machine.state_tree;
    match tree0.lookup_spec(to) {
        Ok(Some(id)) => resolved_err(tree0, id, value),
        Ok(None) => if to.is_key() {
            if pre.gas_tracker.used() + create_charge_total() > pre.gas_tracker.limit() {
                Some(ExecutionError::OutOfGas)
            } else if to.is_bls_zero() {
                Some(ExecutionError::IllegalArgument)
            } else {
                None
            }
        } else {
            Some(ExecutionError::ActorNotFound)
        },
        Err(e) => Some(e),
    }
}

/// The fixed price of creating an actor.
pub open spec fn create_charge_total() -> int {
    CREATE_ACTOR_COMPUTE_GAS + CREATE_ACTOR_STORAGE_GAS
}

/// What a successful `send` dispatched: either the frame for the
/// resolved recipient, or — after auto-creation — the constructor frame
/// of the fresh account actor, with the original message still owed.
pub open spec fn send_ok(
    pre: InnerCallManager,
    to: Address,
    method: u64,
    params: RawBytes,
    value: u128,
    k: Kernel,
) -> bool {
    let tree0 = pre.machine.state_tree;
    match tree0.lookup_spec(to) {
        Ok(Some(id)) => {
            &&& frame_ok(
                pre.gas_tracker,
                tree0,
                pre.from,
                pre.from,
                id,
                method,
                value,
                params@,
                None,
                k,
            )
        },
        Ok(None) => {
            let id = tree0.next_id_spec();
            &&& to.is_key()
            &&& !to.is_bls_zero()
            &&& created(tree0, k.cm.inner_view().machine.state_tree, to.key_bytes(), id)
            &&& k.cm.is_live()
            &&& k.cm.inner_view().gas_tracker.limit() == pre.gas_tracker.limit()
            &&& k.cm.inner_view().gas_tracker.used() == pre.gas_tracker.used()
                + create_charge_total()
            &&& k.cm.inner_view().gas_tracker.wf()
            &&& k.cm.inner_view().from == SYSTEM_ACTOR_ID
            &&& k.from == SYSTEM_ACTOR_ID
            &&& k.to == id
            &&& k.method == METHOD_CONSTRUCTOR
            &&& k.value == 0
            &&& k.prev_from == pre.from
            &&& k.after == Some(PendingSend { to: id, method, params, value })
            &&& k.params_id == 0
            &&& blocks_view(k.blocks@) == seq![(DAG_CBOR, to.key_bytes())]
        },
        Err(_) => false,
    }
}

/// How a failed `send` leaves the state: nothing changes, except that
/// the rejected auto-creation of the reserved zero key address has
/// already charged the creation price.
pub open spec fn send_err_state(
    pre: InnerCallManager,
    post: InnerCallManager,
    to: Address,
) -> bool {
    &&& post.machine == pre.machine
    &&& post.from == pre.from
    &&& post.gas_tracker.limit() == pre.gas_tracker.limit()
    &&& post.gas_tracker.wf()
    &&& if send_outcome(pre, to, 0) == Some(ExecutionError::IllegalArgument)
        && !(pre.machine.state_tree.lookup_spec(to) matches Ok(Some(_))) {
        post.gas_tracker.used() == pre.gas_tracker.used() + create_charge_total()
    } else {
        post.gas_tracker.used() == pre.gas_tracker.used()
    }
}

impl CallManager {
    /// Whether this handle still owns the call tree's state. A handle
    /// whose state has moved into a kernel is poisoned until the frame
    /// completes.
    pub closed spec fn is_live(self) -> bool {
        self.inner is Some
    }

    /// The owned state (meaningful under `is_live`).
    pub closed spec fn inner_view(self) -> InnerCallManager {
        self.inner.unwrap()
    }

    /// A live handle whose gas tracker and machine are consistent.
    pub open spec fn wf(self) -> bool {
        &&& self.is_live()
        &&& self.inner_view().gas_tracker.wf()
        &&& self.inner_view().machine.state_tree.wf()
    }

    fn take_inner(&mut self) -> (r: InnerCallManager)
        requires
            old(self).is_live(),
        ensures
            r == old(self).inner_view(),
            !final(self).is_live(),
    {
        let inner = self.inner.take();
        match inner {
            Some(i) => i,
            None => vstd::pervasive::unreached(),
        }
    }

    fn put_inner(&mut self, inner: InnerCallManager)
        ensures
            final(self).is_live(),
            final(self).inner_view() == inner,
    {
        self.inner = Some(inner);
    }

    fn inner_ref(&self) -> (r: &InnerCallManager)
        requires
            self.is_live(),
        ensures
            *r == self.inner_view(),
    {
        match &self.inner {
            Some(i) => i,
            None => vstd::pervasive::unreached(),
        }
    }

    /// Constructs the call manager for one top-level message, taking
    /// ownership of the machine.
    pub fn new(machine: Machine, from: u64, gas_limit: i64) -> (r: CallManager)
        requires
            machine.state_tree.wf(),
            gas_limit >= 0,
        ensures
            r.wf(),
            r.inner_view().machine == machine,
            r.inner_view().from == from,
            r.inner_view().gas_tracker.limit() == gas_limit,
            r.inner_view().gas_tracker.used() == 0,
    {
        CallManager {
            inner: Some(
                InnerCallManager { from, machine, gas_tracker: GasTracker::new(gas_limit, 0) },
            ),
        }
    }

    /// Charges gas against the tree's budget; fails atomically with
    /// `OutOfGas` when the charge does not fit.
    pub fn charge_gas(&mut self, charge: GasCharge) -> (r: Result<(), ExecutionError>)
        requires
            old(self).wf(),
            charge.wf(),
        ensures
            final(self).wf(),
            final(self).inner_view().machine == old(self).inner_view().machine,
            final(self).inner_view().from == old(self).inner_view().from,
            final(self).inner_view().gas_tracker.limit() == old(self).inner_view().gas_tracker.limit(),
            r is Ok <==> old(self).inner_view().gas_tracker.fits(charge),
            r is Ok ==> final(self).inner_view().gas_tracker.used() == old(self).inner_view().gas_tracker.used() + charge.total(),
            r is Err ==> r == Err::<(), ExecutionError>(ExecutionError::OutOfGas) && final(self).inner_view().gas_tracker.used() == old(self).inner_view().gas_tracker.used(),
    {
        let mut inner = self.take_inner();
        let res = inner.gas_tracker.charge_gas(charge);
        self.put_inner(inner);
        res
    }

    /// The budget still unspent.
    pub fn gas_available(&self) -> (r: i64)
        requires
            self.wf(),
        ensures
            r == self.inner_view().gas_tracker.limit() - self.inner_view().gas_tracker.used(),
    {
        self.inner_ref().gas_tracker.gas_available()
    }

    /// Cumulative gas used by the whole tree so far.
    pub fn gas_used(&self) -> (r: i64)
        requires
            self.is_live(),
        ensures
            r == self.inner_view().gas_tracker.used(),
    {
        self.inner_ref().gas_tracker.gas_used()
    }

    /// Finishes execution: consumes the call manager and yields the gas
    /// used (clamped at zero when reported) and the machine.
    pub fn finish(self) -> (r: (i64, Machine))
        requires
            self.wf(),
        ensures
            r.0 == self.inner_view().gas_tracker.used(),
            r.1 == self.inner_view().machine,
    {
        let mut this = self;
        let inner = this.take_inner();
        let used = inner.gas_tracker.gas_used();
        let used = if used < 0 {
            0
        } else {
            used
        };
        (used, inner.machine)
    }

    /// Dispatches one frame to the already-resolved recipient `to`:
    /// looks the actor up (failing with `ActorNotFound` if it has no
    /// record), credits `value` to it eagerly, and moves the state into
    /// a fresh kernel whose block 0 holds `params`. On success this
    /// handle is poisoned until the frame completes; on failure it stays
    /// live and, but for the sender override already recorded in
    /// `prev_from`, unchanged.
    fn send_with_frame(
        &mut self,
        frame_from: u64,
        to: u64,
        method: u64,
        params: RawBytes,
        value: u128,
        prev_from: u64,
        after: Option<PendingSend>,
    ) -> (r: Result<Kernel, ExecutionError>)
        requires
            old(self).wf(),
        ensures
            match resolved_err(old(self).inner_view().machine.state_tree, to, value) {
                None => r matches Ok(k) && frame_ok(
                    old(self).inner_view().gas_tracker,
                    old(self).inner_view().machine.state_tree,
                    frame_from,
                    prev_from,
                    to,
                    method,
                    value,
                    params@,
                    after,
                    k,
                ) && !final(self).is_live(),
                Some(e) => r == Err::<Kernel, ExecutionError>(e) && final(self).is_live() && final(self).wf() && final(self).inner_view().machine == old(self).inner_view().machine
                    && final(self).inner_view().gas_tracker == old(self).inner_view().gas_tracker
                    && final(self).inner_view().from == prev_from,
            },
    {
        let mut inner = self.take_inner();
        let to_addr = Address::new_id(to);
        let state = match inner.machine.state_tree.actor_by_id(to) {
            Some(s) => s,
            None => {
                inner.from = prev_from;
                self.put_inner(inner);
                return Err(ExecutionError::ActorNotFound);
            },
        };
        if value > 0 {
            if state.balance > u128::MAX - value {
                inner.from = prev_from;
                self.put_inner(inner);
                return Err(ExecutionError::IllegalArgument);
            }
            let updated = ActorState { balance: state.balance + value, ..state };
            match inner.machine.state_tree.set_actor(&to_addr, updated) {
                Ok(()) => {},
                Err(_) => {
                    // The record was just looked up, so it exists.
                    vstd::pervasive::unreached()
                },
            }
        }
        inner.from = frame_from;
        let mut blocks: Vec<Block> = Vec::new();
        blocks.push(Block { codec: DAG_CBOR, data: params.into_vec() });
        let k = Kernel {
            cm: CallManager { inner: Some(inner) },
            from: frame_from,
            to,
            method,
            value,
            params_id: 0,
            prev_from,
            after,
            blocks,
        };
        proof {
            assert(blocks_view(k.blocks@) =~= seq![(DAG_CBOR, params@)]);
        }
        Ok(k)
    }
}


impl CallManager {
    fn set_from(&mut self, from: u64)
        requires
            old(self).is_live(),
        ensures
            final(self).is_live(),
            final(self).inner_view().machine == old(self).inner_view().machine,
            final(self).inner_view().gas_tracker == old(self).inner_view().gas_tracker,
            final(self).inner_view().from == from,
    {
        let mut inner = self.take_inner();
        inner.from = from;
        self.put_inner(inner);
    }

    /// Auto-creates an account actor for the unresolved key-style
    /// address `addr`: charges the fixed creation price, rejects the
    /// reserved zero key address, creates the blank account record, and
    /// dispatches its constructor frame with the system actor as sender
    /// and zero value. The original message is recorded on the frame as
    /// still owed.
    fn create_account_actor(
        &mut self,
        addr: &Address,
        method: u64,
        params: RawBytes,
        value: u128,
    ) -> (r: Result<Kernel, ExecutionError>)
        requires
            old(self).wf(),
            !addr.is_id(),
            addr.is_key(),
            old(self).inner_view().machine.state_tree.next_id_spec() < u64::MAX,
            old(self).inner_view().machine.state_tree.store.can_alloc(2),
            old(self).inner_view().machine.state_tree.lookup_spec(*addr) == Ok::<
                Option<u64>,
                ExecutionError,
            >(None),
        ensures
            ({
                let pre = old(self).inner_view();
                let tree0 = pre.machine.state_tree;
                let id = tree0.next_id_spec();
                if pre.gas_tracker.used() + create_charge_total() > pre.gas_tracker.limit() {
                    r == Err::<Kernel, ExecutionError>(ExecutionError::OutOfGas) && final(self).is_live() && final(self).wf() && send_err_state(
                        pre,
                        final(self).inner_view(),
                        *addr,
                    )
                } else if addr.is_bls_zero() {
                    r == Err::<Kernel, ExecutionError>(ExecutionError::IllegalArgument) && final(self).is_live() && final(self).wf() && send_err_state(
                        pre,
                        final(self).inner_view(),
                        *addr,
                    )
                } else {
                    r matches Ok(k) && send_ok(pre, *addr, method, params, value, k) && !final(self).is_live()
                }
            }),
    {
        let price = price_on_create_actor();
        match self.charge_gas(price) {
            Ok(()) => {},
            Err(e) => {
                return Err(e);
            },
        }
        if addr.is_bls_zero_address() {
            return Err(ExecutionError::IllegalArgument);
        }
        let act = zero_state();
        let mut inner = self.take_inner();
        let prev = inner.from;
        let id = match inner.machine.state_tree.create_actor(addr, act) {
            Ok(id) => id,
            Err(_) => vstd::pervasive::unreached(),
        };
        let ctor_params = RawBytes::new(addr.to_bytes());
        self.put_inner(inner);
        let pending = PendingSend { to: id, method, params, value };
        match self.send_with_frame(
            SYSTEM_ACTOR_ID,
            id,
            METHOD_CONSTRUCTOR,
            ctor_params,
            0,
            prev,
            Some(pending),
        ) {
            Ok(k) => Ok(k),
            Err(_) => vstd::pervasive::unreached(),
        }
    }

    /// Sends a message: resolves `to`, auto-creating an account actor
    /// when an unresolved key-style address is targeted, and dispatches
    /// the frame. On success this handle is poisoned and the returned
    /// kernel carries the frame; on failure the handle stays live and
    /// only an already-charged creation price can have changed.
    pub fn send(&mut self, to: &Address, method: u64, params: RawBytes, value: u128) -> (r: Result<
        Kernel,
        ExecutionError,
    >)
        requires
            old(self).wf(),
            old(self).inner_view().machine.state_tree.next_id_spec() < u64::MAX,
            old(self).inner_view().machine.state_tree.store.can_alloc(2),
        ensures
            r is Ok <==> send_outcome(old(self).inner_view(), *to, value) is None,
            r matches Ok(k) ==> send_ok(old(self).inner_view(), *to, method, params, value, k)
                && !final(self).is_live(),
            r matches Err(e) ==> Some(e) == send_outcome(old(self).inner_view(), *to, value)
                && final(self).is_live() && final(self).wf() && send_err_state(
                old(self).inner_view(),
                final(self).inner_view(),
                *to,
            ),
    {
        let lookup = self.inner_ref().machine.state_tree.lookup_id(to);
        match lookup {
            Err(e) => Err(e),
            Ok(Some(id)) => {
                let f = self.inner_ref().from;
                self.send_with_frame(f, id, method, params, value, f, None)
            },
            Ok(None) => {
                match to.protocol() {
                    Protocol::Secp256k1 | Protocol::BLS => self.create_account_actor(
                        to,
                        method,
                        params,
                        value,
                    ),
                    _ => Err(ExecutionError::ActorNotFound),
                }
            },
        }
    }

    /// Sends with an already-resolved recipient ID, skipping address
    /// resolution and auto-creation.
    pub fn send_resolved(&mut self, to: u64, method: u64, params: RawBytes, value: u128) -> (r:
        Result<Kernel, ExecutionError>)
        requires
            old(self).wf(),
        ensures
            match resolved_err(old(self).inner_view().machine.state_tree, to, value) {
                None => r matches Ok(k) && frame_ok(
                    old(self).inner_view().gas_tracker,
                    old(self).inner_view().machine.state_tree,
                    old(self).inner_view().from,
                    old(self).inner_view().from,
                    to,
                    method,
                    value,
                    params@,
                    None,
                    k,
                ) && !final(self).is_live(),
                Some(e) => r == Err::<Kernel, ExecutionError>(e) && final(self).is_live() && final(self).wf() && *final(self) == *old(self),
            },
    {
        let f = self.inner_ref().from;
        let r = self.send_with_frame(f, to, method, params, value, f, None);
        proof {
            if r is Err {
                assert(final(self).inner_view() == old(self).inner_view());
            }
        }
        r
    }

    /// Sends with an explicit sender, used for privileged internal
    /// sends: the effective sender is overridden for the duration of
    /// the frame and restored when the frame completes (or at once on
    /// failure).
    pub fn send_explicit(
        &mut self,
        from: u64,
        to: u64,
        method: u64,
        params: RawBytes,
        value: u128,
    ) -> (r: Result<Kernel, ExecutionError>)
        requires
            old(self).wf(),
        ensures
            match resolved_err(old(self).inner_view().machine.state_tree, to, value) {
                None => r matches Ok(k) && frame_ok(
                    old(self).inner_view().gas_tracker,
                    old(self).inner_view().machine.state_tree,
                    from,
                    old(self).inner_view().from,
                    to,
                    method,
                    value,
                    params@,
                    None,
                    k,
                ) && !final(self).is_live(),
                Some(e) => r == Err::<Kernel, ExecutionError>(e) && final(self).is_live() && final(self).wf() && *final(self) == *old(self),
            },
    {
        let prev = self.inner_ref().from;
        let r = self.send_with_frame(from, to, method, params, value, prev, None);
        proof {
            if r is Err {
                assert(final(self).inner_view() == old(self).inner_view());
            }
        }
        r
    }
}

impl Kernel {
    /// Registers a block of `data` under a fresh handle.
    pub fn block_create(&mut self, codec: u64, data: RawBytes) -> (r: Result<u32, ExecutionError>)
        requires
            old(self).blocks@.len() < 0xffff_ffff,
        ensures
            r matches Ok(h) && h == old(self).blocks@.len() && blocks_view(final(self).blocks@)
                == blocks_view(old(self).blocks@).push((codec, data@)),
            final(self).cm == old(self).cm,
            final(self).from == old(self).from,
            final(self).to == old(self).to,
            final(self).method == old(self).method,
            final(self).value == old(self).value,
            final(self).params_id == old(self).params_id,
            final(self).prev_from == old(self).prev_from,
            final(self).after == old(self).after,
    {
        let h = self.blocks.len() as u32;
        self.blocks.push(Block { codec, data: data.into_vec() });
        proof {
            assert(blocks_view(self.blocks@) =~= blocks_view(old(self).blocks@).push(
                (codec, data@),
            ));
        }
        Ok(h)
    }

    /// Size and codec of the block behind `id`; `IllegalArgument` for a
    /// handle that was never handed out.
    pub fn block_stat(&self, id: u32) -> (r: Result<BlockStat, ExecutionError>)
        ensures
            (id as int) < self.blocks@.len() ==> (r matches Ok(st) && st.codec == blocks_view(
                self.blocks@,
            )[id as int].0 && st.size == blocks_view(self.blocks@)[id as int].1.len()),
            (id as int) >= self.blocks@.len() ==> r == Err::<BlockStat, ExecutionError>(
                ExecutionError::IllegalArgument,
            ),
    {
        if (id as usize) < self.blocks.len() {
            Ok(
                BlockStat {
                    codec: self.blocks[id as usize].codec,
                    size: self.blocks[id as usize].data.len(),
                },
            )
        } else {
            Err(ExecutionError::IllegalArgument)
        }
    }

    /// Reads up to `max_len` bytes of the block behind `id`, starting
    /// at `offset`.
    pub fn block_read(&self, id: u32, offset: usize, max_len: usize) -> (r: Result<
        Vec<u8>,
        ExecutionError,
    >)
        ensures
            ({
                let data = blocks_view(self.blocks@)[id as int].1;
                ((id as int) < self.blocks@.len() && offset <= data.len()) ==> (r matches Ok(out)
                    && out@ == data.subrange(
                    offset as int,
                    offset + (if max_len <= data.len() - offset {
                        max_len as int
                    } else {
                        data.len() - offset
                    }),
                ))
            }),
            ((id as int) >= self.blocks@.len() || offset > blocks_view(self.blocks@)[
                id as int
            ].1.len()) ==> r == Err::<Vec<u8>, ExecutionError>(ExecutionError::IllegalArgument),
    {
        if (id as usize) >= self.blocks.len() {
            return Err(ExecutionError::IllegalArgument);
        }
        let data = &self.blocks[id as usize].data;
        if offset > data.len() {
            return Err(ExecutionError::IllegalArgument);
        }
        let avail = data.len() - offset;
        let n = if max_len <= avail {
            max_len
        } else {
            avail
        };
        let mut out: Vec<u8> = Vec::new();
        let mut i: usize = 0;
        while i < n
            invariant
                0 <= i <= n,
                n <= data@.len() - offset,
                offset + n <= data@.len(),
                offset + n <= usize::MAX,
                out@.len() == i,
                data@ == blocks_view(self.blocks@)[id as int].1,
                (id as int) < self.blocks@.len(),
                forall|j: int| 0 <= j < i ==> out@[j] == data@[offset + j],
            decreases n - i,
        {
            out.push(data[offset + i]);
            i = i + 1;
        }
        proof {
            assert(out@ =~= blocks_view(self.blocks@)[id as int].1.subrange(
                offset as int,
                offset + n,
            ));
        }
        Ok(out)
    }

    /// Charges gas on behalf of the sandboxed code.
    pub fn charge_gas(&mut self, charge: GasCharge) -> (r: Result<(), ExecutionError>)
        requires
            old(self).cm.wf(),
            charge.wf(),
        ensures
            final(self).cm.wf(),
            final(self).cm.inner_view().machine == old(self).cm.inner_view().machine,
            final(self).cm.inner_view().from == old(self).cm.inner_view().from,
            final(self).cm.inner_view().gas_tracker.limit() == old(self).cm.inner_view().gas_tracker.limit(),
            r is Ok <==> old(self).cm.inner_view().gas_tracker.fits(charge),
            r is Ok ==> final(self).cm.inner_view().gas_tracker.used() == old(self).cm.inner_view().gas_tracker.used() + charge.total(),
            r is Err ==> r == Err::<(), ExecutionError>(ExecutionError::OutOfGas) && final(self).cm.inner_view().gas_tracker.used() == old(self).cm.inner_view().gas_tracker.used(),
            final(self).from == old(self).from,
            final(self).to == old(self).to,
            final(self).method == old(self).method,
            final(self).value == old(self).value,
            final(self).params_id == old(self).params_id,
            final(self).prev_from == old(self).prev_from,
            final(self).after == old(self).after,
            final(self).blocks == old(self).blocks,
    {
        self.cm.charge_gas(charge)
    }

    /// A nested send made from within this frame through a host call:
    /// the call tree's state moves on into the nested frame's kernel,
    /// leaving this frame's call manager poisoned until the nested
    /// frame completes and the state is handed back with `restore`.
    pub fn send(&mut self, to: &Address, method: u64, params: RawBytes, value: u128) -> (r: Result<
        Kernel,
        ExecutionError,
    >)
        requires
            old(self).cm.wf(),
            old(self).cm.inner_view().machine.state_tree.next_id_spec() < u64::MAX,
            old(self).cm.inner_view().machine.state_tree.store.can_alloc(2),
        ensures
            r is Ok <==> send_outcome(old(self).cm.inner_view(), *to, value) is None,
            r matches Ok(k) ==> send_ok(old(self).cm.inner_view(), *to, method, params, value, k)
                && !final(self).cm.is_live(),
            r matches Err(e) ==> Some(e) == send_outcome(old(self).cm.inner_view(), *to, value)
                && final(self).cm.is_live() && final(self).cm.wf() && send_err_state(
                old(self).cm.inner_view(),
                final(self).cm.inner_view(),
                *to,
            ),
            final(self).from == old(self).from,
            final(self).to == old(self).to,
            final(self).method == old(self).method,
            final(self).value == old(self).value,
            final(self).params_id == old(self).params_id,
            final(self).prev_from == old(self).prev_from,
            final(self).after == old(self).after,
            final(self).blocks == old(self).blocks,
    {
        self.cm.send(to, method, params, value)
    }

    /// Re-attaches a live call manager after a nested frame completed.
    pub fn restore(&mut self, cm: CallManager)
        requires
            !old(self).cm.is_live(),
            cm.is_live(),
        ensures
            final(self).cm == cm,
            final(self).from == old(self).from,
            final(self).to == old(self).to,
            final(self).method == old(self).method,
            final(self).value == old(self).value,
            final(self).params_id == old(self).params_id,
            final(self).prev_from == old(self).prev_from,
            final(self).after == old(self).after,
            final(self).blocks == old(self).blocks,
    {
        self.cm = cm;
    }

    /// Completes this frame with what the sandboxed invocation
    /// produced. The enclosing sender is restored; a fault, or a return
    /// handle that was never handed out, becomes `ExecutionFault`. When
    /// this was a constructor frame, the original message still owed is
    /// dispatched next (its constructor's return payload is discarded);
    /// otherwise the restored call manager comes back with the frame's
    /// return payload. Effects already applied (gas, transfers, created
    /// actors) stand whatever the outcome.
    pub fn finish_invoke(self, res: InvokeResult) -> (r: FrameOutcome)
        requires
            self.cm.wf(),
        ensures
            ({
                let cmv = self.cm.inner_view();
                let fault = (r matches FrameOutcome::Done(cm2, out) && cm2.wf()
                    && cm2.inner_view().machine == cmv.machine && cm2.inner_view().gas_tracker
                    == cmv.gas_tracker && cm2.inner_view().from == self.prev_from && out == Err::<
                    RawBytes,
                    ExecutionError,
                >(ExecutionError::ExecutionFault));
                match res {
                    InvokeResult::Fault => fault,
                    InvokeResult::Return(id) => if (id as int) >= self.blocks@.len() {
                        fault
                    } else {
                        match self.after {
                            None => r matches FrameOutcome::Done(cm2, out) && cm2.wf()
                                && cm2.inner_view().machine == cmv.machine
                                && cm2.inner_view().gas_tracker == cmv.gas_tracker
                                && cm2.inner_view().from == self.prev_from && (out matches Ok(rb)
                                && rb@ == blocks_view(self.blocks@)[id as int].1),
                            Some(p) => match resolved_err(cmv.machine.state_tree, p.to, p.value) {
                                None => r matches FrameOutcome::Next(k2) && frame_ok(
                                    cmv.gas_tracker,
                                    cmv.machine.state_tree,
                                    self.prev_from,
                                    self.prev_from,
                                    p.to,
                                    p.method,
                                    p.value,
                                    p.params@,
                                    None,
                                    k2,
                                ),
                                Some(e) => r matches FrameOutcome::Done(cm2, out) && cm2.wf()
                                    && cm2.inner_view().machine == cmv.machine
                                    && cm2.inner_view().gas_tracker == cmv.gas_tracker
                                    && cm2.inner_view().from == self.prev_from && out == Err::<
                                    RawBytes,
                                    ExecutionError,
                                >(e),
                            },
                        }
                    },
                }
            }),
    {
        let Kernel { cm, prev_from, after, blocks, .. } = self;
        let mut cm = cm;
        cm.set_from(prev_from);
        match res {
            InvokeResult::Fault => FrameOutcome::Done(cm, Err(ExecutionError::ExecutionFault)),
            InvokeResult::Return(id) => {
                if (id as usize) >= blocks.len() {
                    return FrameOutcome::Done(cm, Err(ExecutionError::ExecutionFault));
                }
                let ret = RawBytes::new(crate::store::copy_bytes(&blocks[id as usize].data));
                match after {
                    None => FrameOutcome::Done(cm, Ok(ret)),
                    Some(p) => {
                        match cm.send_with_frame(
                            prev_from,
                            p.to,
                            p.method,
                            p.params,
                            p.value,
                            prev_from,
                            None,
                        ) {
                            Ok(k2) => FrameOutcome::Next(k2),
                            Err(e) => FrameOutcome::Done(cm, Err(e)),
                        }
                    },
                }
            },
        }
    }
}


} // verus!
