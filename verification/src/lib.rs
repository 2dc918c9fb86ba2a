//! Core engine of a ptrace/seccomp process sandbox.
//!
//! The library holds the verified logic of the tracer: decoding of OS
//! wait statuses, the syscall filter policy and its classification
//! semantics, decoding of a trapped syscall from a register snapshot,
//! word-by-word reading of strings out of the traced child's memory,
//! the virtual-filesystem interception layer, and the sandbox tick
//! state machine. The surrounding process-control calls (fork, exec,
//! ptrace, waitpid, loading the filter into the kernel) are performed
//! by an unverified shell around this crate, which feeds their results
//! back into the state machines defined here.

pub mod filter;
pub mod posix;
pub mod ptrace;
pub mod reader;
pub mod sandbox;
pub mod syscalls;
pub mod vfs;

pub use posix::PosixResult;
pub use posix::WaitResult;
pub use sandbox::Event;
pub use sandbox::Sandbox;
