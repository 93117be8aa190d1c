//! The guest-side view of the host-call surface: what sandboxed actor
//! code goes through to send a message and to read a result block. The
//! message value crosses the sandbox boundary as two 64-bit words.

use vstd::prelude::*;

use crate::address::Address;
use crate::call_manager::{blocks_view, send_err_state, send_ok, send_outcome, Kernel};
use crate::encoding::RawBytes;
use crate::error::ExecutionError;

verus! {

/// The 128-bit token amount carried by a high and a low 64-bit word.
pub open spec fn token_from_words(value_hi: u64, value_lo: u64) -> u128 {
    ((value_hi as u128) << 64) | (value_lo as u128)
}

/// Sends a message to another actor from within a running frame: the
/// host-call that sandboxed code reaches `Kernel::send` through. The
/// value words are recombined and the nested frame's kernel is handed
/// back to be run.
pub fn send(
    k: &mut Kernel,
    to: &Address,
    method: u64,
    params: RawBytes,
    value_hi: u64,
    value_lo: u64,
) -> (r: Result<Kernel, ExecutionError>)
    requires
        old(k).cm.wf(),
        old(k).cm.inner_view().machine.state_tree.next_id_spec() < u64::MAX,
        old(k).cm.inner_view().machine.state_tree.store.can_alloc(2),
    ensures
        r is Ok <==> send_outcome(
            old(k).cm.inner_view(),
            *to,
            token_from_words(value_hi, value_lo),
        ) is None,
        r matches Ok(nested) ==> send_ok(
            old(k).cm.inner_view(),
            *to,
            method,
            params,
            token_from_words(value_hi, value_lo),
            nested,
        ) && !final(k).cm.is_live(),
        r matches Err(e) ==> Some(e) == send_outcome(
            old(k).cm.inner_view(),
            *to,
            token_from_words(value_hi, value_lo),
        ) && final(k).cm.is_live() && final(k).cm.wf() && send_err_state(
            old(k).cm.inner_view(),
            final(k).cm.inner_view(),
            *to,
        ),
        final(k).from == old(k).from,
        final(k).to == old(k).to,
        final(k).method == old(k).method,
        final(k).value == old(k).value,
        final(k).params_id == old(k).params_id,
        final(k).prev_from == old(k).prev_from,
        final(k).after == old(k).after,
        final(k).blocks == old(k).blocks,
{
    let value: u128 = ((value_hi as u128) << 64) | (value_lo as u128);
    k.send(to, method, params, value)
}

/// Reads a whole result block back out of a frame: its size is taken
/// from `block_stat`, and reading that many bytes from offset zero is
/// proved to return the entire block.
pub fn read_block(k: &Kernel, id: u32) -> (r: Result<RawBytes, ExecutionError>)
    ensures
        (id as int) < k.blocks@.len() ==> (r matches Ok(out) && out@ == blocks_view(k.blocks@)[
            id as int
        ].1),
        (id as int) >= k.blocks@.len() ==> r == Err::<RawBytes, ExecutionError>(
            ExecutionError::IllegalArgument,
        ),
{
    let stat = match k.block_stat(id) {
        Ok(s) => s,
        Err(e) => {
            return Err(e);
        },
    };
    let bytes = match k.block_read(id, 0, stat.size) {
        Ok(b) => b,
        Err(e) => {
            return Err(e);
        },
    };
    proof {
        assert(bytes@ =~= blocks_view(k.blocks@)[id as int].1);
    }
    Ok(RawBytes::new(bytes))
}

} // verus!
