//! Message-dispatch and call-stack core of an actor-model virtual machine.
//!
//! A single top-level transaction runs as a tree of nested, synchronous
//! inter-actor calls under a metered gas budget. The library owns the
//! dispatch protocol (`send` / `send_resolved` / `send_explicit`), the gas
//! tracker, and the init actor's persistent address-to-ID resolver. The
//! sandboxed execution engine that runs actor code is an external
//! collaborator: each call frame is handed to the driver as a kernel and
//! completed when the driver reports the invocation's outcome.

pub mod error;
pub mod gas;
pub mod assoc;
pub mod encoding;
pub mod address;
pub mod store;
pub mod init_actor;
pub mod state_tree;
pub mod account_actor;
pub mod call_manager;
pub mod sdk;
