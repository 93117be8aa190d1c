//! The error kinds with which a call frame can abort. Every failure
//! propagates up through each enclosing frame; effects already applied
//! (gas charges, balance transfers, resolver entries) are not rolled back.

use vstd::prelude::*;

verus! {

/// Why a `send` (or one of its sub-steps) failed.
#[derive(Clone, Copy, Debug, PartialEq, Eq, Structural)]
pub enum ExecutionError {
    /// The recipient (or an explicitly named actor) does not exist.
    ActorNotFound,
    /// A malformed request, such as creating the reserved zero key address.
    IllegalArgument,
    /// A gas charge would exceed the frame tree's gas limit.
    OutOfGas,
    /// The init actor's record or state object is missing: fatal corruption.
    StateInconsistent,
    /// Parameter or result encoding failed.
    SerializationError,
    /// Module instantiation or invocation failed inside the sandbox.
    ExecutionFault,
}

} // verus!
