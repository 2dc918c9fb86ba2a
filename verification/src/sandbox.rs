//! The sandbox orchestrator: the tick state machine.
//!
//! A sandbox owns the child's identity, its lifecycle phase and the
//! virtual filesystem. The surrounding shell forks the child, attaches
//! to it and blocks in the wait call; each wait result is handed to
//! [`Sandbox::tick`], which classifies it and answers with the one
//! action to perform — resume the child, inspect a trapped syscall, or
//! release the child — together with the lifecycle events the host is
//! owed. Event delivery is a returned value, not a stored callback, so
//! the host consumes events without reentering the sandbox.
//!
//! The whole classification is written once as the specification
//! functions [`spec_tick_result`] and [`spec_tick_next`]; `tick`'s
//! contract says it computes exactly those.

use vstd::prelude::*;

use crate::posix::WaitResult;
use crate::posix::spec_is_signaled;
use crate::posix::spec_is_stopped;
use crate::posix::spec_stop_signal;
use crate::posix::spec_term_signal;
use crate::ptrace;
use crate::ptrace::Registers;
use crate::ptrace::Syscall;
use crate::ptrace::TraceError;
use crate::ptrace::event_from_code;
use crate::syscalls::syscall_from_code;
use crate::vfs::VFS;

verus! {

/// The stop signal a trace stop carries when it reports a sub-event.
pub const TRAP_SIGNAL: u32 = 5;

/// A lifecycle event delivered to the host. Delivery is synchronous:
/// the host consumes the events of a tick before the next action runs.
#[derive(Clone, Copy, Debug, PartialEq, Eq, Structural)]
pub enum Event {
    /// The child was released from tracing.
    Released,
    /// The child announced its exit.
    Exited,
}

/// Where a sandbox stands in its lifecycle.
#[derive(Clone, Copy, Debug, PartialEq, Eq, Structural)]
pub enum Phase {
    /// No child was spawned yet.
    Unstarted,
    /// A child is attached and being traced.
    Running,
    /// The child is gone — released after its exit, or lost to a
    /// fatal condition. No further tick is valid.
    Terminated,
}

/// Why a tick failed. All but `NotRunning` are fatal to the instance:
/// the tick loop is aborted and the sandbox is terminated.
#[derive(Clone, Copy, Debug, PartialEq, Eq, Structural)]
pub enum SandboxError {
    /// `tick` was called without a running child.
    NotRunning,
    /// A trace stop carried a sub-event number outside the known
    /// table.
    UnknownEvent(u32),
    /// A trapped syscall's number was outside the known table.
    UnknownSyscall(u64),
    /// The child was killed by a real signal while traced.
    ChildSignaled(u32),
    /// The child exited raw, without the exit sub-event a well-formed
    /// trace setup reports first.
    ChildExited,
}

/// The one action the shell performs after a tick.
#[derive(Clone, Copy, Debug, PartialEq, Eq, Structural)]
pub enum TickAction {
    /// Resume the child, injecting the given signal (zero for none).
    Resume { pid: i32, signal: u32 },
    /// A filter trap: snapshot the registers, decode the syscall,
    /// route it through the virtual filesystem, then resume with no
    /// signal.
    InspectSyscall { pid: i32 },
    /// Detach from the child with the given signal.
    Release { pid: i32, signal: u32 },
}

/// What one tick decided: the action to perform and the lifecycle
/// events owed to the host, in delivery order.
#[derive(Debug)]
pub struct TickStep {
    pub action: TickAction,
    pub events: Vec<Event>,
}

/// The sandbox: child identity, lifecycle phase, interception layer.
pub struct Sandbox {
    /// The traced child, valid once spawned.
    pub pid: i32,
    /// Mirror of the phase: true exactly while `Running`.
    pub running: bool,
    /// The virtual filesystem mediating trapped syscalls.
    pub vfs: VFS,
    /// Where the sandbox stands in its lifecycle.
    pub phase: Phase,
}

/// The sub-event number carried in the upper bytes of a trace stop's
/// status word.
pub open spec fn sub_event_code(status: u32) -> u32 {
    ((status >> 8) & !TRAP_SIGNAL) >> 8
}

/// What a tick decides on a wait result: the action and the events
/// owed, or the error that ends the tick loop.
pub open spec fn spec_tick_result(s: Sandbox, r: WaitResult) -> Result<
    (TickAction, Seq<Event>),
    SandboxError,
> {
    if !(s.phase is Running) {
        Err(SandboxError::NotRunning)
    } else if spec_is_stopped(r.status) {
        if spec_stop_signal(r.status) == TRAP_SIGNAL {
            match event_from_code(sub_event_code(r.status)) {
                Option::None => Err(SandboxError::UnknownEvent(sub_event_code(r.status))),
                Option::Some(ev) => match ev {
                    ptrace::Event::Seccomp => Ok(
                        (TickAction::InspectSyscall { pid: r.pid }, Seq::empty()),
                    ),
                    ptrace::Event::Exit => Ok(
                        (
                            TickAction::Release { pid: s.pid, signal: 0 },
                            seq![Event::Exited, Event::Released],
                        ),
                    ),
                    _ => Ok((TickAction::Resume { pid: r.pid, signal: 0 }, Seq::empty())),
                },
            }
        } else {
            Ok(
                (
                    TickAction::Resume { pid: s.pid, signal: spec_stop_signal(r.status) },
                    Seq::empty(),
                ),
            )
        }
    } else if spec_is_signaled(r.status) {
        Err(SandboxError::ChildSignaled(spec_term_signal(r.status)))
    } else {
        Err(SandboxError::ChildExited)
    }
}

/// The sandbox a tick leaves behind: unchanged on an ordinary action,
/// terminated when the child was released or the tick was fatal.
pub open spec fn spec_tick_next(s: Sandbox, r: WaitResult) -> Sandbox {
    match spec_tick_result(s, r) {
        Ok(pair) => if pair.0 is Release {
            Sandbox { running: false, phase: Phase::Terminated, ..s }
        } else {
            s
        },
        Err(e) => if e is NotRunning {
            s
        } else {
            Sandbox { running: false, phase: Phase::Terminated, ..s }
        },
    }
}

impl Sandbox {
    /// The running flag mirrors the phase.
    pub open spec fn wf(self) -> bool {
        self.running == (self.phase is Running)
    }

    /// A sandbox with no child yet.
    pub fn new() -> (s: Sandbox)
        ensures
            s.wf(),
            s.pid == -1,
            !s.running,
            s.phase is Unstarted,
            s.vfs.mounts() == Seq::<crate::vfs::Filesystem>::empty(),
    {
        Sandbox { pid: -1, running: false, vfs: VFS::new(), phase: Phase::Unstarted }
    }

    /// Whether a child is attached and ticks are valid.
    pub fn is_running(&self) -> (b: bool)
        ensures
            b == self.running,
    {
        self.running
    }

    /// Records the spawned child: the shell forked, the child declared
    /// itself traced and will exec under the filter, and the parent
    /// attached, synchronized past the self-stop, set the trace
    /// options and resumed it.
    pub fn begin_trace(&mut self, pid: i32)
        requires
            old(self).phase is Unstarted,
            pid >= 0,
        ensures
            final(self).wf(),
            final(self).pid == pid,
            final(self).running,
            final(self).phase is Running,
            final(self).vfs == old(self).vfs,
    {
        self.pid = pid;
        self.running = true;
        self.phase = Phase::Running;
    }

    /// Advances the trace by one classified wait result.
    ///
    /// Exactly one of:
    /// - the child stopped on the trap signal: the sub-event decides —
    ///   a filter trap asks for syscall inspection, the exit sub-event
    ///   releases the child and owes the host `Exited` then `Released`
    ///   (the only path to `Terminated` by choice), any other known
    ///   sub-event resumes with no signal, and an unknown one is
    ///   fatal;
    /// - the child stopped on a real signal: it is resumed with that
    ///   same signal, preserving what it would have received untraced;
    /// - the child died of a signal or exited raw: fatal — a
    ///   well-formed trace setup announces the exit sub-event first;
    /// - the sandbox is not running: the tick fails cleanly and
    ///   changes nothing, so no further wait is attempted.
    pub fn tick(&mut self, res: &WaitResult) -> (r: Result<TickStep, SandboxError>)
        requires
            old(self).wf(),
        ensures
            final(self).wf(),
            *final(self) == spec_tick_next(*old(self), *res),
            (r matches Ok(step) ==> spec_tick_result(*old(self), *res) matches Ok(pair)
                && step.action == pair.0 && step.events@ == pair.1),
            (r matches Err(e) ==> spec_tick_result(*old(self), *res) == Result::<
                (TickAction, Seq<Event>),
                SandboxError,
            >::Err(e)),
    {
        if !self.running {
            return Err(SandboxError::NotRunning);
        }
        if res.is_stopped() {
            if res.stop_signal() == TRAP_SIGNAL {
                let sub = ((res.status >> 8) & !TRAP_SIGNAL) >> 8;
                match ptrace::Event::from_code(sub) {
                    Option::None => {
                        self.running = false;
                        self.phase = Phase::Terminated;
                        Err(SandboxError::UnknownEvent(sub))
                    },
                    Option::Some(ev) => match ev {
                        ptrace::Event::Seccomp => Ok(
                            TickStep {
                                action: TickAction::InspectSyscall { pid: res.pid },
                                events: Vec::new(),
                            },
                        ),
                        ptrace::Event::Exit => {
                            self.running = false;
                            self.phase = Phase::Terminated;
                            let mut events: Vec<Event> = Vec::new();
                            events.push(Event::Exited);
                            events.push(Event::Released);
                            proof {
                                assert(events@ =~= seq![Event::Exited, Event::Released]);
                            }
                            Ok(
                                TickStep {
                                    action: TickAction::Release { pid: self.pid, signal: 0 },
                                    events,
                                },
                            )
                        },
                        _ => Ok(
                            TickStep {
                                action: TickAction::Resume { pid: res.pid, signal: 0 },
                                events: Vec::new(),
                            },
                        ),
                    },
                }
            } else {
                Ok(
                    TickStep {
                        action: TickAction::Resume { pid: self.pid, signal: res.stop_signal() },
                        events: Vec::new(),
                    },
                )
            }
        } else if res.is_signaled() {
            self.running = false;
            self.phase = Phase::Terminated;
            Err(SandboxError::ChildSignaled(res.term_signal()))
        } else {
            self.running = false;
            self.phase = Phase::Terminated;
            Err(SandboxError::ChildExited)
        }
    }

    /// Decodes the trapped syscall out of a register snapshot taken at
    /// a filter trap; an unknown syscall number is fatal protocol
    /// damage, handed up as the matching error.
    pub fn handle_seccomp(&self, pid: i32, regs: &Registers) -> (r: Result<Syscall, SandboxError>)
        ensures
            syscall_from_code(regs.orig_rax) is Some ==> (r matches Ok(rec) && rec.pid == pid
                && Some(rec.call) == syscall_from_code(regs.orig_rax) && rec.args@ =~= seq![
                regs.rdi,
                regs.rsi,
                regs.rdx,
                regs.r10,
                regs.r8,
                regs.r9,
            ] && rec.return_val == 0),
            syscall_from_code(regs.orig_rax) is None ==> r == Result::<Syscall, SandboxError>::Err(
                SandboxError::UnknownSyscall(regs.orig_rax),
            ),
    {
        match Syscall::from_regs(pid, regs) {
            Ok(rec) => Ok(rec),
            Err(TraceError::UnknownSyscall(code)) => Err(SandboxError::UnknownSyscall(code)),
        }
    }
}

/// Law: the exit sub-event is the one orderly end of a trace. On it,
/// the tick owes the host exactly `Exited` then `Released`, asks the
/// shell to release the child, terminates the sandbox, and every later
/// tick fails cleanly without touching it.
pub proof fn lemma_exit_sequence(s: Sandbox, r: WaitResult)
    requires
        s.wf(),
        s.phase is Running,
        spec_is_stopped(r.status),
        spec_stop_signal(r.status) == TRAP_SIGNAL,
        event_from_code(sub_event_code(r.status)) == Some(ptrace::Event::Exit),
    ensures
        spec_tick_result(s, r) matches Ok(pair) && pair.0 == (TickAction::Release {
            pid: s.pid,
            signal: 0,
        }) && pair.1 == seq![Event::Exited, Event::Released],
        !spec_tick_next(s, r).running,
        spec_tick_next(s, r).phase is Terminated,
        forall|r2: WaitResult|
            spec_tick_result(spec_tick_next(s, r), r2) == Result::<
                (TickAction, Seq<Event>),
                SandboxError,
            >::Err(SandboxError::NotRunning),
{
}

/// Law: a child killed by a real signal while traced is a fatal
/// condition, never a silent resume: the tick reports the terminating
/// signal and the tick loop is aborted.
pub proof fn lemma_signal_fatal(s: Sandbox, r: WaitResult)
    requires
        s.wf(),
        s.phase is Running,
        !spec_is_stopped(r.status),
        spec_is_signaled(r.status),
    ensures
        spec_tick_result(s, r) == Result::<(TickAction, Seq<Event>), SandboxError>::Err(
            SandboxError::ChildSignaled(spec_term_signal(r.status)),
        ),
        !spec_tick_next(s, r).running,
{
}

/// Law: ticking a sandbox that is not running — terminated or never
/// started — fails cleanly and changes nothing, whatever the wait
/// result says; the shell therefore never blocks in a wait for it.
pub proof fn lemma_tick_idempotent_after_end(s: Sandbox, r: WaitResult)
    requires
        !(s.phase is Running),
    ensures
        spec_tick_result(s, r) == Result::<(TickAction, Seq<Event>), SandboxError>::Err(
            SandboxError::NotRunning,
        ),
        spec_tick_next(s, r) == s,
{
}

} // verus!
