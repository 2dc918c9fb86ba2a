use codius_sandbox_core::posix::WaitResult;
use codius_sandbox_core::ptrace::Registers;
use codius_sandbox_core::sandbox::Event;
use codius_sandbox_core::sandbox::Sandbox;
use codius_sandbox_core::sandbox::SandboxError;
use codius_sandbox_core::sandbox::TickAction;
use codius_sandbox_core::syscalls::SyscallId;

/// A stop on a plain signal.
fn stop_status(signal: u32) -> u32 {
    0x7f | (signal << 8)
}

/// A trace stop reporting the given sub-event.
fn event_status(event: u32) -> u32 {
    0x7f | (5 << 8) | (event << 16)
}

fn running_sandbox(pid: i32) -> Sandbox {
    let mut sbox = Sandbox::new();
    sbox.begin_trace(pid);
    sbox
}

#[test]
fn new_sandbox_is_unstarted() {
    let sbox = Sandbox::new();
    assert!(!sbox.is_running());
    assert_eq!(sbox.pid, -1);
}

#[test]
fn begin_trace_marks_running() {
    let sbox = running_sandbox(42);
    assert!(sbox.is_running());
    assert_eq!(sbox.pid, 42);
}

#[test]
fn tick_before_spawn_is_refused() {
    let mut sbox = Sandbox::new();
    let res = WaitResult { pid: 1, status: stop_status(5) };
    assert_eq!(sbox.tick(&res).unwrap_err(), SandboxError::NotRunning);
}

#[test]
fn exit_event_releases_and_terminates() {
    // The exit sub-event: exactly one Exited then one Released, the
    // child is released with no signal, and the sandbox stops running.
    let mut sbox = running_sandbox(42);
    let res = WaitResult { pid: 42, status: event_status(6) };
    let step = sbox.tick(&res).unwrap();
    assert_eq!(step.action, TickAction::Release { pid: 42, signal: 0 });
    assert_eq!(step.events, vec![Event::Exited, Event::Released]);
    assert!(!sbox.is_running());
}

#[test]
fn tick_after_termination_fails_cleanly() {
    let mut sbox = running_sandbox(42);
    let exit = WaitResult { pid: 42, status: event_status(6) };
    sbox.tick(&exit).unwrap();
    // No further tick is accepted, and the sandbox is left untouched.
    let later = WaitResult { pid: 42, status: stop_status(5) };
    assert_eq!(sbox.tick(&later).unwrap_err(), SandboxError::NotRunning);
    assert_eq!(sbox.tick(&later).unwrap_err(), SandboxError::NotRunning);
    assert!(!sbox.is_running());
    assert_eq!(sbox.pid, 42);
}

#[test]
fn seccomp_event_asks_for_inspection() {
    let mut sbox = running_sandbox(42);
    let res = WaitResult { pid: 43, status: event_status(7) };
    let step = sbox.tick(&res).unwrap();
    assert_eq!(step.action, TickAction::InspectSyscall { pid: 43 });
    assert!(step.events.is_empty());
    assert!(sbox.is_running());
}

#[test]
fn other_trace_events_resume_silently() {
    let mut sbox = running_sandbox(42);
    for event in [1u32, 2, 3, 4, 5, 128] {
        let res = WaitResult { pid: 42, status: event_status(event) };
        let step = sbox.tick(&res).unwrap();
        assert_eq!(step.action, TickAction::Resume { pid: 42, signal: 0 });
        assert!(step.events.is_empty());
        assert!(sbox.is_running());
    }
}

#[test]
fn unknown_trace_event_is_fatal() {
    let mut sbox = running_sandbox(42);
    let res = WaitResult { pid: 42, status: event_status(99) };
    assert_eq!(sbox.tick(&res).unwrap_err(), SandboxError::UnknownEvent(99));
    assert!(!sbox.is_running());
}

#[test]
fn foreign_stop_signal_is_forwarded() {
    // A stop on signal 10: the child is resumed with that signal, so
    // signals it would have received untraced are preserved.
    let mut sbox = running_sandbox(42);
    let res = WaitResult { pid: 42, status: stop_status(10) };
    let step = sbox.tick(&res).unwrap();
    assert_eq!(step.action, TickAction::Resume { pid: 42, signal: 10 });
    assert!(sbox.is_running());
}

#[test]
fn child_killed_by_signal_is_fatal() {
    // An uncaught real signal is a fatal condition, not a resume.
    let mut sbox = running_sandbox(42);
    let res = WaitResult { pid: 42, status: 0x0009 };
    assert_eq!(sbox.tick(&res).unwrap_err(), SandboxError::ChildSignaled(9));
    assert!(!sbox.is_running());
}

#[test]
fn raw_exit_is_fatal() {
    // A raw exit without the exit sub-event first means the trace
    // setup is broken.
    let mut sbox = running_sandbox(42);
    let res = WaitResult { pid: 42, status: 0x0000 };
    assert_eq!(sbox.tick(&res).unwrap_err(), SandboxError::ChildExited);
    assert!(!sbox.is_running());
}

#[test]
fn true_run_simulation() {
    // The wait results a run of /bin/true produces, in order: the
    // exec sub-event, then the exit sub-event. One Exited, one
    // Released, not running, no further tick.
    let mut sbox = running_sandbox(77);
    let exec = WaitResult { pid: 77, status: event_status(4) };
    let step = sbox.tick(&exec).unwrap();
    assert_eq!(step.action, TickAction::Resume { pid: 77, signal: 0 });

    let exit = WaitResult { pid: 77, status: event_status(6) };
    let step = sbox.tick(&exit).unwrap();
    assert_eq!(step.events, vec![Event::Exited, Event::Released]);
    assert!(!sbox.is_running());

    let later = WaitResult { pid: 77, status: 0 };
    assert_eq!(sbox.tick(&later).unwrap_err(), SandboxError::NotRunning);
}

#[test]
fn handle_seccomp_decodes_the_syscall() {
    let sbox = running_sandbox(42);
    let mut regs = Registers::zeroed();
    regs.orig_rax = 2;
    regs.rdi = 0x1000;
    regs.rsi = 1;
    regs.rdx = 2;
    regs.r10 = 3;
    regs.r8 = 4;
    regs.r9 = 5;
    let rec = sbox.handle_seccomp(42, &regs).unwrap();
    assert_eq!(rec.pid, 42);
    assert_eq!(rec.call, SyscallId::Open);
    assert_eq!(rec.args, [0x1000, 1, 2, 3, 4, 5]);
    assert_eq!(rec.return_val, 0);
}

#[test]
fn handle_seccomp_rejects_unknown_numbers() {
    let sbox = running_sandbox(42);
    let mut regs = Registers::zeroed();
    regs.orig_rax = 9999;
    assert_eq!(sbox.handle_seccomp(42, &regs).unwrap_err(), SandboxError::UnknownSyscall(9999));
}
