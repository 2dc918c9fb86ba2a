use codius_sandbox_core::filter::Action;
use codius_sandbox_core::filter::CmpOp;
use codius_sandbox_core::filter::FD_RESERVED;
use codius_sandbox_core::filter::Policy;
use codius_sandbox_core::filter::default_policy;
use codius_sandbox_core::syscalls::SyscallId;

fn args6(a0: u64) -> [u64; 6] {
    [a0, 0, 0, 0, 0, 0]
}

#[test]
fn trace_trap_is_the_first_rule() {
    let p = default_policy();
    assert_eq!(p.rules.len(), 76);
    let first = &p.rules[0];
    assert_eq!(first.syscall, SyscallId::Ptrace);
    assert_eq!(first.action, Action::Trap);
    assert!(first.cmp.is_none());
}

#[test]
fn ptrace_always_traps() {
    let p = default_policy();
    assert_eq!(p.classify(SyscallId::Ptrace, &args6(0)), Action::Trap);
    assert_eq!(p.classify(SyscallId::Ptrace, &[7, 7, 7, 7, 7, 7]), Action::Trap);
}

#[test]
fn descriptor_threshold_splits_read() {
    let p = default_policy();
    assert_eq!(p.classify(SyscallId::Read, &args6(3)), Action::Trap);
    assert_eq!(p.classify(SyscallId::Read, &args6(5000)), Action::Allow);
}

#[test]
fn descriptor_threshold_boundary() {
    let p = default_policy();
    assert_eq!(FD_RESERVED, 4098);
    assert_eq!(p.classify(SyscallId::Write, &args6(4097)), Action::Trap);
    assert_eq!(p.classify(SyscallId::Write, &args6(4098)), Action::Allow);
    assert_eq!(p.classify(SyscallId::Ioctl, &args6(0)), Action::Trap);
    assert_eq!(p.classify(SyscallId::Getdents64, &args6(10000)), Action::Allow);
}

#[test]
fn path_class_always_traps() {
    let p = default_policy();
    assert_eq!(p.classify(SyscallId::Open, &args6(0)), Action::Trap);
    assert_eq!(p.classify(SyscallId::Open, &args6(99999)), Action::Trap);
    assert_eq!(p.classify(SyscallId::Chdir, &args6(1)), Action::Trap);
    assert_eq!(p.classify(SyscallId::Openat, &args6(5000)), Action::Trap);
    assert_eq!(p.classify(SyscallId::Getcwd, &args6(0)), Action::Trap);
}

#[test]
fn exec_class_is_allowed() {
    let p = default_policy();
    assert_eq!(p.classify(SyscallId::Execve, &args6(0)), Action::Allow);
    assert_eq!(p.classify(SyscallId::Clone, &args6(0)), Action::Allow);
}

#[test]
fn allow_list_is_allowed() {
    let p = default_policy();
    assert_eq!(p.classify(SyscallId::Getpid, &args6(0)), Action::Allow);
    assert_eq!(p.classify(SyscallId::Futex, &args6(1)), Action::Allow);
    assert_eq!(p.classify(SyscallId::ExitGroup, &args6(0)), Action::Allow);
    assert_eq!(p.classify(SyscallId::Mmap, &args6(0)), Action::Allow);
}

#[test]
fn empty_table_kills_everything() {
    let p = Policy::empty();
    assert_eq!(p.classify(SyscallId::Read, &args6(3)), Action::Kill);
    assert_eq!(p.classify(SyscallId::Getpid, &args6(0)), Action::Kill);
}

#[test]
fn classification_is_deterministic() {
    // Same table, same syscall, same arguments: same decision.
    let p = default_policy();
    let q = default_policy();
    for fd in [0u64, 3, 4097, 4098, 5000] {
        assert_eq!(
            p.classify(SyscallId::Read, &args6(fd)),
            q.classify(SyscallId::Read, &args6(fd))
        );
        assert_eq!(
            p.classify(SyscallId::Read, &args6(fd)),
            p.classify(SyscallId::Read, &args6(fd))
        );
    }
}

#[test]
fn descriptor_rules_carry_the_threshold() {
    let p = default_policy();
    let mut saw_lt: bool = false;
    let mut saw_ge: bool = false;
    for r in &p.rules {
        if r.syscall == SyscallId::Read {
            let c = r.cmp.as_ref().expect("descriptor rules compare their first argument");
            assert_eq!(c.arg, 0);
            assert_eq!(c.value, FD_RESERVED);
            match c.op {
                CmpOp::Lt => {
                    assert_eq!(r.action, Action::Trap);
                    saw_lt = true;
                }
                CmpOp::Ge => {
                    assert_eq!(r.action, Action::Allow);
                    saw_ge = true;
                }
            }
        }
    }
    assert!(saw_lt && saw_ge);
}

#[test]
fn syscall_codes_match_the_table() {
    assert_eq!(SyscallId::Read.code(), 0);
    assert_eq!(SyscallId::Open.code(), 2);
    assert_eq!(SyscallId::Ptrace.code(), 101);
    assert_eq!(SyscallId::Openat.code(), 257);
    assert_eq!(SyscallId::Pipe2.code(), 293);
}

#[test]
fn syscall_decoding_round_trips() {
    assert_eq!(SyscallId::from_code(2), Some(SyscallId::Open));
    assert_eq!(SyscallId::from_code(257), Some(SyscallId::Openat));
    assert_eq!(SyscallId::from_code(101), Some(SyscallId::Ptrace));
    assert_eq!(SyscallId::from_code(12345), None);
    assert_eq!(SyscallId::from_code(15), None);
    for s in [SyscallId::Read, SyscallId::Execve, SyscallId::SetThreadArea] {
        assert_eq!(SyscallId::from_code(s.code()), Some(s));
    }
}
