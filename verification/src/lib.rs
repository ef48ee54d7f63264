//! A synchronous-to-asynchronous execution bridge for sandboxed WebAssembly
//! guests: a guest that makes blocking-looking import calls can be suspended
//! mid-call-stack, checkpointed, and resumed later, possibly in another
//! process.
//!
//! The crate holds the invariant-heavy core of that bridge, each piece with
//! its contract: the suspension state machine and the call bridge that
//! drives one guest entry point across many scheduler polls without ever
//! re-running a host import's side effect; the instance snapshot that
//! captures and restores globals and linear memory; the virtual
//! file-descriptor table with its reserved slots and water marks; the
//! serializable projection of that table and the rehydration decisions that
//! rebuild it, adopted sockets included; and the yield-hook policy that
//! turns unbounded waits into checkpoint opportunities. The embedder
//! supplies the execution engine, the live sockets, and the scheduler, and
//! hands their outcomes in as plain values.

pub mod asyncify;
pub mod bridge;
pub mod errno;
pub mod error;
pub mod hook;
pub mod net;
pub mod object_pool;
pub mod pollsub;
pub mod serial;
pub mod snapshot;
pub mod sockopt;
pub mod types;
pub mod vfs;
pub mod wasi_impls;
