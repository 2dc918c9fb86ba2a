//! The virtual-filesystem interception layer.
//!
//! Filter-trapped filesystem syscalls are routed here. For path-taking
//! syscalls the layer names the child-memory address the path string
//! sits at; the caller reads it with [`crate::reader::StringRead`] and
//! hands the bytes back. Resolution failures degrade to observe-only:
//! the record always comes back unchanged so the event loop can always
//! resume the child, and today the open handler only observes. Mount
//! entries are the extension point where a complete policy would
//! decide allow, deny or rewrite.

use vstd::prelude::*;

use crate::ptrace::Address;
use crate::ptrace::Syscall;
use crate::syscalls::SyscallId;

verus! {

/// A mount: one policy unit backing part of the sandboxed filesystem
/// namespace. Placeholder until a mount policy is defined.
pub struct Filesystem {
    pub foo: i64,
}

/// The interception layer: a set of mounts and the dispatch over
/// trapped filesystem syscalls.
pub struct VFS {
    mountpoints: Vec<Filesystem>,
}

/// What the layer did with one trapped syscall.
#[derive(Debug)]
pub enum VfsDecision {
    /// No handler claimed the syscall; it passes through untouched.
    PassThrough,
    /// The open handler saw this path; the syscall is allowed to
    /// proceed as it stands.
    Observed(Vec<u8>),
}

impl VFS {
    /// The mounts held, as a sequence.
    pub closed spec fn mounts(self) -> Seq<Filesystem> {
        self.mountpoints@
    }

    /// An interception layer with no mounts.
    pub fn new() -> (v: VFS)
        ensures
            v.mounts() == Seq::<Filesystem>::empty(),
    {
        VFS { mountpoints: Vec::new() }
    }

    /// The child-memory address of the path argument the layer wants
    /// read, if this record carries one: the first argument of `open`.
    pub fn path_request(&self, call: &Syscall) -> (r: Option<Address>)
        ensures
            call.call == SyscallId::Open ==> r == Some(call.args@[0]),
            call.call != SyscallId::Open ==> r is None,
    {
        if call.call == SyscallId::Open {
            Some(call.args[0])
        } else {
            None
        }
    }

    /// Dispatches one trapped syscall. The record always comes back
    /// unchanged — interception never blocks the event loop — and the
    /// decision says what was done: the open handler observes the
    /// resolved path when one was read, and everything else, including
    /// an open whose path could not be resolved, passes through.
    pub fn handle_syscall(&self, call: Syscall, path: Option<Vec<u8>>) -> (r: (
        Syscall,
        VfsDecision,
    ))
        ensures
            r.0 == call,
            call.call == SyscallId::Open ==> (match path {
                Some(pb) => r.1 matches VfsDecision::Observed(ob) && ob@ == pb@,
                None => r.1 is PassThrough,
            }),
            call.call != SyscallId::Open ==> r.1 is PassThrough,
    {
        if call.call == SyscallId::Open {
            match path {
                Some(pb) => {
                    let d = self.do_open(pb);
                    (call, d)
                },
                None => (call, VfsDecision::PassThrough),
            }
        } else {
            (call, VfsDecision::PassThrough)
        }
    }

    /// The open handler: observe the path and let the syscall proceed.
    fn do_open(&self, path: Vec<u8>) -> (d: VfsDecision)
        ensures
            d matches VfsDecision::Observed(ob) && ob@ == path@,
    {
        VfsDecision::Observed(path)
    }
}

} // verus!
