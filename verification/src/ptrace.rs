//! Typed model of the process-trace control surface.
//!
//! The raw trace syscall itself is issued by the unverified shell
//! around this crate; what lives here is everything that can be wrong
//! in software: the request and trace-event numbering, the option bits
//! the engine needs, the register snapshot layout, and the decoding of
//! a trapped syscall out of a register snapshot.

use vstd::prelude::*;

use crate::syscalls::SyscallId;
use crate::syscalls::syscall_code;
use crate::syscalls::syscall_from_code;

verus! {

/// An address in the traced process's flat address space.
pub type Address = u64;

/// One machine word of the traced process.
pub type Word = u64;

/// The requests of the process-trace control call.
#[derive(Clone, Copy, Debug, PartialEq, Eq, Structural)]
pub enum Request {
    TraceMe,
    PeekText,
    PeekData,
    PeekUser,
    PokeText,
    PokeData,
    PokeUser,
    Continue,
    Kill,
    SingleStep,
    GetRegs,
    Attach,
    Detach,
    SetOptions,
}

/// The request number of each trace request.
pub open spec fn request_code(r: Request) -> u64 {
    match r {
        Request::TraceMe => 0,
        Request::PeekText => 1,
        Request::PeekData => 2,
        Request::PeekUser => 3,
        Request::PokeText => 4,
        Request::PokeData => 5,
        Request::PokeUser => 6,
        Request::Continue => 7,
        Request::Kill => 8,
        Request::SingleStep => 9,
        Request::GetRegs => 12,
        Request::Attach => 16,
        Request::Detach => 17,
        Request::SetOptions => 0x4200,
    }
}

impl Request {
    /// The raw number handed to the control call.
    pub fn code(&self) -> (c: u64)
        ensures
            c == request_code(*self),
    {
        match self {
            Request::TraceMe => 0,
            Request::PeekText => 1,
            Request::PeekData => 2,
            Request::PeekUser => 3,
            Request::PokeText => 4,
            Request::PokeData => 5,
            Request::PokeUser => 6,
            Request::Continue => 7,
            Request::Kill => 8,
            Request::SingleStep => 9,
            Request::GetRegs => 12,
            Request::Attach => 16,
            Request::Detach => 17,
            Request::SetOptions => 0x4200,
        }
    }
}

/// The trace-stop sub-events a stop can report when the matching
/// option bit was set.
#[derive(Clone, Copy, Debug, PartialEq, Eq, Structural)]
pub enum Event {
    Fork,
    VFork,
    Clone,
    Exec,
    VForkDone,
    Exit,
    Seccomp,
    Stop,
}

/// The sub-event number carried in the upper bytes of a stop status.
pub open spec fn event_code(e: Event) -> u32 {
    match e {
        Event::Fork => 1,
        Event::VFork => 2,
        Event::Clone => 3,
        Event::Exec => 4,
        Event::VForkDone => 5,
        Event::Exit => 6,
        Event::Seccomp => 7,
        Event::Stop => 128,
    }
}

/// The sub-event a raw number names, if any.
pub open spec fn event_from_code(c: u32) -> Option<Event> {
    if c == 1 {
        Some(Event::Fork)
    } else if c == 2 {
        Some(Event::VFork)
    } else if c == 3 {
        Some(Event::Clone)
    } else if c == 4 {
        Some(Event::Exec)
    } else if c == 5 {
        Some(Event::VForkDone)
    } else if c == 6 {
        Some(Event::Exit)
    } else if c == 7 {
        Some(Event::Seccomp)
    } else if c == 128 {
        Some(Event::Stop)
    } else {
        None
    }
}

impl Event {
    /// The sub-event's raw number.
    pub fn code(&self) -> (c: u32)
        ensures
            c == event_code(*self),
    {
        match self {
            Event::Fork => 1,
            Event::VFork => 2,
            Event::Clone => 3,
            Event::Exec => 4,
            Event::VForkDone => 5,
            Event::Exit => 6,
            Event::Seccomp => 7,
            Event::Stop => 128,
        }
    }

    /// Decodes a raw sub-event number; `None` names an unknown event.
    pub fn from_code(c: u32) -> (r: Option<Event>)
        ensures
            r == event_from_code(c),
    {
        match c {
            1 => Some(Event::Fork),
            2 => Some(Event::VFork),
            3 => Some(Event::Clone),
            4 => Some(Event::Exec),
            5 => Some(Event::VForkDone),
            6 => Some(Event::Exit),
            7 => Some(Event::Seccomp),
            128 => Some(Event::Stop),
            _ => None,
        }
    }
}

/// Law: trace-event decoding is the inverse of the numbering.
pub proof fn lemma_event_code_round_trip(e: Event)
    ensures
        event_from_code(event_code(e)) == Some(e),
{
}

/// Report syscall stops with a distinguishing bit in the stop signal.
pub const OPT_SYSGOOD: u32 = 1;

/// Report forks of the traced process as `Fork` stops.
pub const OPT_TRACE_FORK: u32 = 2;

/// Report vforks as `VFork` stops.
pub const OPT_TRACE_VFORK: u32 = 4;

/// Report clones as `Clone` stops.
pub const OPT_TRACE_CLONE: u32 = 8;

/// Report execs as `Exec` stops.
pub const OPT_TRACE_EXEC: u32 = 16;

/// Report vfork completions as `VForkDone` stops.
pub const OPT_TRACE_VFORK_DONE: u32 = 32;

/// Report process exit as an `Exit` stop, before it happens.
pub const OPT_TRACE_EXIT: u32 = 64;

/// Report filter traps as `Seccomp` stops.
pub const OPT_TRACE_SECCOMP: u32 = 128;

/// Kill the traced process when the tracer itself exits.
pub const OPT_EXIT_KILL: u32 = 1048576;

/// The option bits the engine sets on its child: exit, filter-trap,
/// exec and clone stops must be distinguishable, and the child must not
/// outlive its tracer.
pub fn engine_options() -> (o: u32)
    ensures
        o == OPT_TRACE_EXIT | OPT_EXIT_KILL | OPT_TRACE_SECCOMP | OPT_TRACE_EXEC
            | OPT_TRACE_CLONE,
{
    OPT_TRACE_EXIT | OPT_EXIT_KILL | OPT_TRACE_SECCOMP | OPT_TRACE_EXEC | OPT_TRACE_CLONE
}

/// Snapshot of the traced process's general-purpose registers at trap
/// time, in the x86-64 layout of the trace interface. Rebuilt on every
/// query: the child's state changes between traps, so a snapshot is
/// never cached across them.
#[derive(Clone, Copy, Debug)]
pub struct Registers {
    pub r15: Word,
    pub r14: Word,
    pub r13: Word,
    pub r12: Word,
    pub rbp: Word,
    pub rbx: Word,
    pub r11: Word,
    pub r10: Word,
    pub r9: Word,
    pub r8: Word,
    pub rax: Word,
    pub rcx: Word,
    pub rdx: Word,
    pub rsi: Word,
    pub rdi: Word,
    pub orig_rax: Word,
    pub rip: Word,
    pub cs: Word,
    pub eflags: Word,
    pub rsp: Word,
    pub ss: Word,
    pub fs_base: Word,
    pub gs_base: Word,
    pub ds: Word,
    pub es: Word,
    pub fs: Word,
    pub gs: Word,
}

/// The all-zero register snapshot.
pub open spec fn zero_registers() -> Registers {
    Registers {
        r15: 0,
        r14: 0,
        r13: 0,
        r12: 0,
        rbp: 0,
        rbx: 0,
        r11: 0,
        r10: 0,
        r9: 0,
        r8: 0,
        rax: 0,
        rcx: 0,
        rdx: 0,
        rsi: 0,
        rdi: 0,
        orig_rax: 0,
        rip: 0,
        cs: 0,
        eflags: 0,
        rsp: 0,
        ss: 0,
        fs_base: 0,
        gs_base: 0,
        ds: 0,
        es: 0,
        fs: 0,
        gs: 0,
    }
}

impl Registers {
    /// A snapshot with every register zero, for building test states
    /// and buffers the control call fills in.
    pub fn zeroed() -> (r: Registers)
        ensures
            r == zero_registers(),
    {
        Registers {
            r15: 0,
            r14: 0,
            r13: 0,
            r12: 0,
            rbp: 0,
            rbx: 0,
            r11: 0,
            r10: 0,
            r9: 0,
            r8: 0,
            rax: 0,
            rcx: 0,
            rdx: 0,
            rsi: 0,
            rdi: 0,
            orig_rax: 0,
            rip: 0,
            cs: 0,
            eflags: 0,
            rsp: 0,
            ss: 0,
            fs_base: 0,
            gs_base: 0,
            ds: 0,
            es: 0,
            fs: 0,
            gs: 0,
        }
    }
}

/// Decoding a syscall record can fail: the trapped number may not be a
/// known syscall, which the caller treats as fatal.
#[derive(Clone, Copy, Debug, PartialEq, Eq, Structural)]
pub enum TraceError {
    /// The "original syscall" register held a number outside the known
    /// table.
    UnknownSyscall(u64),
}

/// A trapped syscall, decoded from a register snapshot: who trapped,
/// which syscall, and its six raw argument words. The return value is
/// zero at trap time; it only becomes meaningful on syscall-exit stops,
/// which this engine does not request.
#[derive(Clone, Copy, Debug, PartialEq, Eq)]
pub struct Syscall {
    pub pid: i32,
    pub call: SyscallId,
    pub args: [Word; 6],
    pub return_val: Word,
}

impl Syscall {
    /// Decodes the trapped syscall out of a register snapshot: the
    /// syscall number from the "original syscall" register, and the six
    /// arguments in the x86-64 syscall argument order.
    pub fn from_regs(pid: i32, regs: &Registers) -> (r: Result<Syscall, TraceError>)
        ensures
            syscall_from_code(regs.orig_rax) is Some ==> (r matches Ok(rec) && rec.pid == pid
                && Some(rec.call) == syscall_from_code(regs.orig_rax) && rec.args@ =~= seq![
                regs.rdi,
                regs.rsi,
                regs.rdx,
                regs.r10,
                regs.r8,
                regs.r9,
            ] && rec.return_val == 0),
            syscall_from_code(regs.orig_rax) is None ==> r == Result::<Syscall, TraceError>::Err(
                TraceError::UnknownSyscall(regs.orig_rax),
            ),
    {
        match SyscallId::from_code(regs.orig_rax) {
            Some(call) => Ok(
                Syscall {
                    pid,
                    call,
                    args: [regs.rdi, regs.rsi, regs.rdx, regs.r10, regs.r8, regs.r9],
                    return_val: 0,
                },
            ),
            None => Err(TraceError::UnknownSyscall(regs.orig_rax)),
        }
    }

    /// The decoded record carries the number the registers held.
    pub fn code(&self) -> (c: u64)
        ensures
            c == syscall_code(self.call),
    {
        self.call.code()
    }
}

} // verus!
