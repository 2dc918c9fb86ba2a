//! The syscall filter policy.
//!
//! The policy is an ordered rule table with a default action of `Kill`:
//! the first rule that matches a syscall and its arguments decides, and
//! a syscall no rule matches is killed. `default_policy` builds the
//! table the sandbox loads into the child before exec:
//!
//! - the very first rule traps the process-trace syscall itself, so the
//!   child can never issue trace calls unobserved, whatever rules follow;
//! - exec and clone are allowed outright (their lifecycle is reported
//!   through trace stops instead);
//! - path-taking filesystem syscalls are always trapped to the tracer,
//!   so the virtual filesystem can mediate path resolution;
//! - descriptor-taking filesystem syscalls are split on the first
//!   argument: descriptors below [`FD_RESERVED`] are managed by the
//!   sandbox and trap to the tracer, higher ones are allowed directly;
//! - a fixed allow-list of syscalls deemed safe without argument
//!   inspection is allowed outright.
//!
//! The intended meaning of the table is written once, as
//! [`policy_decision`]; `default_policy` proves that every rule it
//! pushes agrees with that meaning, and the lemmas below turn that into
//! statements about whole classifications.

use vstd::prelude::*;

use crate::syscalls::SyscallId;

verus! {

/// What the filter does with a syscall.
#[derive(Clone, Copy, Debug, PartialEq, Eq, Structural)]
pub enum Action {
    /// Let the syscall run, uninspected.
    Allow,
    /// Kill the process.
    Kill,
    /// Stop the process and hand the syscall to the tracer.
    Trap,
}

/// Comparison operators a rule may apply to an argument.
#[derive(Clone, Copy, Debug, PartialEq, Eq, Structural)]
pub enum CmpOp {
    /// The argument is at least the given value.
    Ge,
    /// The argument is below the given value.
    Lt,
}

/// A comparison of one raw syscall argument against a constant.
#[derive(Clone, Copy, Debug)]
pub struct ArgCmp {
    /// Index of the argument compared, counted from zero.
    pub arg: usize,
    /// The comparison applied.
    pub op: CmpOp,
    /// The constant compared against.
    pub value: u64,
}

/// One filter rule: a syscall, an optional argument comparison, and the
/// action taken when both fit.
#[derive(Clone, Copy, Debug)]
pub struct Rule {
    pub syscall: SyscallId,
    pub cmp: Option<ArgCmp>,
    pub action: Action,
}

/// An ordered rule table; the first matching rule wins and a syscall no
/// rule matches is killed.
pub struct Policy {
    pub rules: Vec<Rule>,
}

/// Descriptors below this bound are pre-opened and managed by the
/// sandbox itself; the filter traps them to the tracer for mediation,
/// while descriptors the program opened on its own are let through.
/// The virtual filesystem's own bookkeeping uses the same bound.
pub const FD_RESERVED: u64 = 4098;

/// Whether one argument comparison holds of an argument vector.
pub open spec fn cmp_holds(c: ArgCmp, args: Seq<u64>) -> bool {
    &&& c.arg < args.len()
    &&& match c.op {
        CmpOp::Ge => args[c.arg as int] >= c.value,
        CmpOp::Lt => args[c.arg as int] < c.value,
    }
}

/// Whether a rule matches a syscall with the given arguments.
pub open spec fn rule_matches(r: Rule, s: SyscallId, args: Seq<u64>) -> bool {
    &&& r.syscall == s
    &&& match r.cmp {
        Option::None => true,
        Option::Some(c) => cmp_holds(c, args),
    }
}

/// First-match classification, walking the table from index `i`.
pub open spec fn classify_from(rules: Seq<Rule>, i: int, s: SyscallId, args: Seq<u64>) -> Action
    decreases rules.len() - i,
{
    if i < 0 || i >= rules.len() {
        Action::Kill
    } else if rule_matches(rules[i], s, args) {
        rules[i].action
    } else {
        classify_from(rules, i + 1, s, args)
    }
}

/// What a rule table decides for a syscall: the first matching rule's
/// action, or `Kill` when none matches.
pub open spec fn classify_rules(rules: Seq<Rule>, s: SyscallId, args: Seq<u64>) -> Action {
    classify_from(rules, 0, s, args)
}

/// The syscalls whose lifecycle the tracer follows through trace stops
/// rather than through the filter.
pub open spec fn is_exec_class(s: SyscallId) -> bool {
    s == SyscallId::Execve || s == SyscallId::Clone
}

/// The path-taking filesystem syscalls, always mediated by the tracer.
pub open spec fn is_path_class(s: SyscallId) -> bool {
    ||| s == SyscallId::Chdir
    ||| s == SyscallId::Fchdir
    ||| s == SyscallId::Open
    ||| s == SyscallId::Access
    ||| s == SyscallId::Openat
    ||| s == SyscallId::Stat
    ||| s == SyscallId::Lstat
    ||| s == SyscallId::Getcwd
    ||| s == SyscallId::Readlink
}

/// The descriptor-taking filesystem syscalls, split on their first
/// argument against [`FD_RESERVED`].
pub open spec fn is_fd_class(s: SyscallId) -> bool {
    ||| s == SyscallId::Read
    ||| s == SyscallId::Close
    ||| s == SyscallId::Ioctl
    ||| s == SyscallId::Fstat
    ||| s == SyscallId::Lseek
    ||| s == SyscallId::Write
    ||| s == SyscallId::Getdents
    ||| s == SyscallId::Getdents64
    ||| s == SyscallId::Readv
    ||| s == SyscallId::Writev
}

/// The intended policy, written directly: what the sandbox means the
/// filter to decide for each known syscall and argument vector.
pub open spec fn policy_decision(s: SyscallId, args: Seq<u64>) -> Action {
    if s == SyscallId::Ptrace {
        Action::Trap
    } else if is_exec_class(s) {
        Action::Allow
    } else if is_path_class(s) {
        Action::Trap
    } else if is_fd_class(s) {
        if 0 < args.len() && args[0] < FD_RESERVED {
            Action::Trap
        } else {
            Action::Allow
        }
    } else {
        Action::Allow
    }
}

/// An unconditional allow rule for one syscall.
pub open spec fn allow_rule(s: SyscallId) -> Rule {
    Rule { syscall: s, cmp: Option::None, action: Action::Allow }
}

/// An unconditional trap rule for one syscall.
pub open spec fn trap_rule(s: SyscallId) -> Rule {
    Rule { syscall: s, cmp: Option::None, action: Action::Trap }
}

/// The trap half of a descriptor split: first argument below the bound.
pub open spec fn fd_trap_rule(s: SyscallId) -> Rule {
    Rule {
        syscall: s,
        cmp: Option::Some(ArgCmp { arg: 0, op: CmpOp::Lt, value: FD_RESERVED }),
        action: Action::Trap,
    }
}

/// The allow half of a descriptor split: first argument at the bound or
/// above.
pub open spec fn fd_allow_rule(s: SyscallId) -> Rule {
    Rule {
        syscall: s,
        cmp: Option::Some(ArgCmp { arg: 0, op: CmpOp::Ge, value: FD_RESERVED }),
        action: Action::Allow,
    }
}

/// A rule is sound when, wherever it matches, its action is the one the
/// intended policy gives.
pub open spec fn rule_sound(r: Rule) -> bool {
    forall|s: SyscallId, args: Seq<u64>|
        rule_matches(r, s, args) ==> r.action == policy_decision(s, args)
}

/// A table is sound when every rule in it is.
pub open spec fn table_sound(rules: Seq<Rule>) -> bool {
    forall|i: int| 0 <= i < rules.len() ==> rule_sound(#[trigger] rules[i])
}

/// The table holds this exact rule somewhere.
pub open spec fn has_rule(rules: Seq<Rule>, r: Rule) -> bool {
    exists|i: int| 0 <= i < rules.len() && rules[i] == r
}

/// The syscalls outside every specially handled class: the allow-list.
pub open spec fn is_allow_class(s: SyscallId) -> bool {
    &&& s != SyscallId::Ptrace
    &&& !is_exec_class(s)
    &&& !is_path_class(s)
    &&& !is_fd_class(s)
}

/// An allow rule is present for both exec-class syscalls.
pub open spec fn exec_covered(rules: Seq<Rule>) -> bool {
    forall|s: SyscallId| #[trigger] is_exec_class(s) ==> has_rule(rules, allow_rule(s))
}

/// A trap rule is present for every path-class syscall.
pub open spec fn path_covered(rules: Seq<Rule>) -> bool {
    forall|s: SyscallId| #[trigger] is_path_class(s) ==> has_rule(rules, trap_rule(s))
}

/// An allow rule is present for every allow-list syscall.
pub open spec fn allow_covered(rules: Seq<Rule>) -> bool {
    forall|s: SyscallId| #[trigger] is_allow_class(s) ==> has_rule(rules, allow_rule(s))
}

/// Both halves of the descriptor split are present for every
/// descriptor-class syscall.
pub open spec fn fd_covered(rules: Seq<Rule>) -> bool {
    forall|s: SyscallId|
        #[trigger] is_fd_class(s) ==> has_rule(rules, fd_trap_rule(s)) && has_rule(
            rules,
            fd_allow_rule(s),
        )
}

/// Whether one comparison holds, on a six-word argument vector.
fn cmp_holds_exec(c: &ArgCmp, args: &[u64; 6]) -> (m: bool)
    ensures
        m == cmp_holds(*c, args@),
{
    if c.arg < 6 {
        let v = args[c.arg];
        match c.op {
            CmpOp::Ge => v >= c.value,
            CmpOp::Lt => v < c.value,
        }
    } else {
        false
    }
}

/// Whether one rule matches, on a six-word argument vector.
fn rule_matches_exec(r: &Rule, s: SyscallId, args: &[u64; 6]) -> (m: bool)
    ensures
        m == rule_matches(*r, s, args@),
{
    if r.syscall == s {
        match &r.cmp {
            Option::None => true,
            Option::Some(c) => cmp_holds_exec(c, args),
        }
    } else {
        false
    }
}

impl Policy {
    /// An empty table: everything falls to the default and is killed.
    pub fn empty() -> (p: Policy)
        ensures
            p.rules@.len() == 0,
    {
        Policy { rules: Vec::new() }
    }

    /// Appends a rule, keeping the table sound.
    pub fn push_rule(&mut self, r: Rule)
        requires
            rule_sound(r),
            table_sound(old(self).rules@),
        ensures
            final(self).rules@ == old(self).rules@.push(r),
            table_sound(final(self).rules@),
            has_rule(final(self).rules@, r),
            forall|r2: Rule| has_rule(old(self).rules@, r2) ==> has_rule(final(self).rules@, r2),
    {
        let ghost prior = self.rules@;
        self.rules.push(r);
        proof {
            assert forall|i: int| 0 <= i < self.rules@.len() implies rule_sound(
                #[trigger] self.rules@[i],
            ) by {
                if i < prior.len() {
                    assert(self.rules@[i] == prior[i]);
                } else {
                    assert(self.rules@[i] == r);
                }
            }
            assert(self.rules@[self.rules@.len() - 1] == r);
            assert forall|r2: Rule| has_rule(prior, r2) implies has_rule(self.rules@, r2) by {
                let i = choose|i: int| 0 <= i < prior.len() && prior[i] == r2;
                assert(self.rules@[i] == r2);
            }
        }
    }

    /// Classifies a syscall against the table: the first matching
    /// rule's action, or `Kill` when none matches.
    pub fn classify(&self, s: SyscallId, args: &[u64; 6]) -> (a: Action)
        ensures
            a == classify_rules(self.rules@, s, args@),
    {
        let n: usize = self.rules.len();
        let mut i: usize = 0;
        while i < n
            invariant
                i <= n,
                n == self.rules@.len(),
                classify_rules(self.rules@, s, args@) == classify_from(
                    self.rules@,
                    i as int,
                    s,
                    args@,
                ),
            decreases n - i,
        {
            if rule_matches_exec(&self.rules[i], s, args) {
                return self.rules[i].action;
            }
            i = i + 1;
        }
        Action::Kill
    }
}

/// Pushes the head of the table: the trap on the process-trace syscall
/// itself, then the exec-class allowances and the path-class traps.
fn push_base_rules(p: &mut Policy)
    requires
        old(p).rules@.len() == 0,
    ensures
        table_sound(final(p).rules@),
        final(p).rules@.len() == 12,
        final(p).rules@[0] == trap_rule(SyscallId::Ptrace),
        has_rule(final(p).rules@, trap_rule(SyscallId::Ptrace)),
        exec_covered(final(p).rules@),
        path_covered(final(p).rules@),
{
    p.push_rule(Rule { syscall: SyscallId::Ptrace, cmp: Option::None, action: Action::Trap });
    p.push_rule(Rule { syscall: SyscallId::Execve, cmp: Option::None, action: Action::Allow });
    p.push_rule(Rule { syscall: SyscallId::Clone, cmp: Option::None, action: Action::Allow });
    p.push_rule(Rule { syscall: SyscallId::Chdir, cmp: Option::None, action: Action::Trap });
    p.push_rule(Rule { syscall: SyscallId::Fchdir, cmp: Option::None, action: Action::Trap });
    p.push_rule(Rule { syscall: SyscallId::Open, cmp: Option::None, action: Action::Trap });
    p.push_rule(Rule { syscall: SyscallId::Access, cmp: Option::None, action: Action::Trap });
    p.push_rule(Rule { syscall: SyscallId::Openat, cmp: Option::None, action: Action::Trap });
    p.push_rule(Rule { syscall: SyscallId::Stat, cmp: Option::None, action: Action::Trap });
    p.push_rule(Rule { syscall: SyscallId::Lstat, cmp: Option::None, action: Action::Trap });
    p.push_rule(Rule { syscall: SyscallId::Getcwd, cmp: Option::None, action: Action::Trap });
    p.push_rule(Rule { syscall: SyscallId::Readlink, cmp: Option::None, action: Action::Trap });
    proof {
        assert forall|s: SyscallId| #[trigger] is_exec_class(s) implies has_rule(
            p.rules@,
            allow_rule(s),
        ) by {
            if s == SyscallId::Execve {
            } else {
                assert(s == SyscallId::Clone);
            }
        }
        assert forall|s: SyscallId| #[trigger] is_path_class(s) implies has_rule(
            p.rules@,
            trap_rule(s),
        ) by {
            if s == SyscallId::Chdir {
            } else if s == SyscallId::Fchdir {
            } else if s == SyscallId::Open {
            } else if s == SyscallId::Access {
            } else if s == SyscallId::Openat {
            } else if s == SyscallId::Stat {
            } else if s == SyscallId::Lstat {
            } else if s == SyscallId::Getcwd {
            } else {
                assert(s == SyscallId::Readlink);
            }
        }
    }
}

/// Pushes one descriptor split: trap below the bound, allow at or above.
fn push_fd_split(p: &mut Policy, s: SyscallId)
    requires
        table_sound(old(p).rules@),
        is_fd_class(s),
    ensures
        table_sound(final(p).rules@),
        final(p).rules@.len() == old(p).rules@.len() + 2,
        final(p).rules@[0] == old(p).rules@[0] || old(p).rules@.len() == 0,
        has_rule(final(p).rules@, fd_trap_rule(s)),
        has_rule(final(p).rules@, fd_allow_rule(s)),
        forall|r2: Rule| has_rule(old(p).rules@, r2) ==> has_rule(final(p).rules@, r2),
{
    p.push_rule(
        Rule {
            syscall: s,
            cmp: Option::Some(ArgCmp { arg: 0, op: CmpOp::Lt, value: FD_RESERVED }),
            action: Action::Trap,
        },
    );
    p.push_rule(
        Rule {
            syscall: s,
            cmp: Option::Some(ArgCmp { arg: 0, op: CmpOp::Ge, value: FD_RESERVED }),
            action: Action::Allow,
        },
    );
}

/// Pushes the descriptor splits for every descriptor-class syscall.
fn push_fd_rules(p: &mut Policy)
    requires
        table_sound(old(p).rules@),
    ensures
        table_sound(final(p).rules@),
        final(p).rules@.len() == old(p).rules@.len() + 20,
        final(p).rules@[0] == old(p).rules@[0] || old(p).rules@.len() == 0,
        fd_covered(final(p).rules@),
        forall|r2: Rule| has_rule(old(p).rules@, r2) ==> has_rule(final(p).rules@, r2),
{
    push_fd_split(p, SyscallId::Read);
    push_fd_split(p, SyscallId::Close);
    push_fd_split(p, SyscallId::Ioctl);
    push_fd_split(p, SyscallId::Fstat);
    push_fd_split(p, SyscallId::Lseek);
    push_fd_split(p, SyscallId::Write);
    push_fd_split(p, SyscallId::Getdents);
    push_fd_split(p, SyscallId::Getdents64);
    push_fd_split(p, SyscallId::Readv);
    push_fd_split(p, SyscallId::Writev);
    assert forall|s: SyscallId| #[trigger] is_fd_class(s) implies has_rule(
        p.rules@,
        fd_trap_rule(s),
    ) && has_rule(p.rules@, fd_allow_rule(s)) by {
        if s == SyscallId::Read {
        } else if s == SyscallId::Close {
        } else if s == SyscallId::Ioctl {
        } else if s == SyscallId::Fstat {
        } else if s == SyscallId::Lseek {
        } else if s == SyscallId::Write {
        } else if s == SyscallId::Getdents {
        } else if s == SyscallId::Getdents64 {
        } else if s == SyscallId::Readv {
        } else {
            assert(s == SyscallId::Writev);
        }
    }
}

/// The first half of the allow-list.
pub open spec fn in_allow_batch_a(s: SyscallId) -> bool {
    ||| s == SyscallId::Fsync
    ||| s == SyscallId::Fdatasync
    ||| s == SyscallId::Sync
    ||| s == SyscallId::Poll
    ||| s == SyscallId::Mmap
    ||| s == SyscallId::Mprotect
    ||| s == SyscallId::Munmap
    ||| s == SyscallId::Madvise
    ||| s == SyscallId::Brk
    ||| s == SyscallId::RtSigaction
    ||| s == SyscallId::RtSigprocmask
    ||| s == SyscallId::Select
    ||| s == SyscallId::SchedYield
    ||| s == SyscallId::Getpid
    ||| s == SyscallId::Accept
    ||| s == SyscallId::Listen
    ||| s == SyscallId::Exit
    ||| s == SyscallId::Gettimeofday
    ||| s == SyscallId::Tkill
    ||| s == SyscallId::EpollCreate
    ||| s == SyscallId::RestartSyscall
}

/// The second half of the allow-list.
pub open spec fn in_allow_batch_b(s: SyscallId) -> bool {
    ||| s == SyscallId::ClockGettime
    ||| s == SyscallId::ClockGetres
    ||| s == SyscallId::ClockNanosleep
    ||| s == SyscallId::Gettid
    ||| s == SyscallId::Nanosleep
    ||| s == SyscallId::ExitGroup
    ||| s == SyscallId::EpollWait
    ||| s == SyscallId::EpollCtl
    ||| s == SyscallId::Tgkill
    ||| s == SyscallId::Pselect6
    ||| s == SyscallId::Ppoll
    ||| s == SyscallId::ArchPrctl
    ||| s == SyscallId::Prctl
    ||| s == SyscallId::SetRobustList
    ||| s == SyscallId::GetRobustList
    ||| s == SyscallId::EpollPwait
    ||| s == SyscallId::Accept4
    ||| s == SyscallId::Eventfd2
    ||| s == SyscallId::EpollCreate1
    ||| s == SyscallId::Pipe2
    ||| s == SyscallId::Futex
    ||| s == SyscallId::SetTidAddress
    ||| s == SyscallId::SetThreadArea
}

/// Law: the two halves of the allow-list are exactly the syscalls
/// outside every specially handled class — nothing known is left
/// unclassified, and nothing specially handled is allowed by the list.
pub proof fn lemma_allow_partition(s: SyscallId)
    ensures
        is_allow_class(s) == (in_allow_batch_a(s) || in_allow_batch_b(s)),
{
}

/// Pushes one allow-list rule. The syscall must fall outside every
/// specially handled class, so that allowing it outright is what the
/// intended policy says.
fn push_allow(p: &mut Policy, s: SyscallId)
    requires
        table_sound(old(p).rules@),
        s != SyscallId::Ptrace,
        !is_exec_class(s),
        !is_path_class(s),
        !is_fd_class(s),
    ensures
        final(p).rules@ == old(p).rules@.push(allow_rule(s)),
        table_sound(final(p).rules@),
        has_rule(final(p).rules@, allow_rule(s)),
        forall|r2: Rule| has_rule(old(p).rules@, r2) ==> has_rule(final(p).rules@, r2),
{
    proof {
        assert forall|s2: SyscallId, args: Seq<u64>|
            rule_matches(allow_rule(s), s2, args) implies allow_rule(s).action == policy_decision(
            s2,
            args,
        ) by {
            assert(s2 == s);
        }
    }
    p.push_rule(Rule { syscall: s, cmp: Option::None, action: Action::Allow });
}

/// Pushes the first half of the allow-list: the syscalls deemed safe
/// with no argument inspection. The allow-list is the policy's trust
/// boundary.
fn push_allow_rules(p: &mut Policy)
    requires
        table_sound(old(p).rules@),
    ensures
        table_sound(final(p).rules@),
        final(p).rules@.len() == old(p).rules@.len() + 21,
        final(p).rules@[0] == old(p).rules@[0] || old(p).rules@.len() == 0,
        forall|s: SyscallId| #[trigger] in_allow_batch_a(s) ==> has_rule(
            final(p).rules@,
            allow_rule(s),
        ),
        forall|r2: Rule| has_rule(old(p).rules@, r2) ==> has_rule(final(p).rules@, r2),
{
    push_allow(p, SyscallId::Fsync);
    push_allow(p, SyscallId::Fdatasync);
    push_allow(p, SyscallId::Sync);
    push_allow(p, SyscallId::Poll);
    push_allow(p, SyscallId::Mmap);
    push_allow(p, SyscallId::Mprotect);
    push_allow(p, SyscallId::Munmap);
    push_allow(p, SyscallId::Madvise);
    push_allow(p, SyscallId::Brk);
    push_allow(p, SyscallId::RtSigaction);
    push_allow(p, SyscallId::RtSigprocmask);
    push_allow(p, SyscallId::Select);
    push_allow(p, SyscallId::SchedYield);
    push_allow(p, SyscallId::Getpid);
    push_allow(p, SyscallId::Accept);
    push_allow(p, SyscallId::Listen);
    push_allow(p, SyscallId::Exit);
    push_allow(p, SyscallId::Gettimeofday);
    push_allow(p, SyscallId::Tkill);
    push_allow(p, SyscallId::EpollCreate);
    push_allow(p, SyscallId::RestartSyscall);
    proof {
        assert forall|s: SyscallId| #[trigger] in_allow_batch_a(s) implies has_rule(
            p.rules@,
            allow_rule(s),
        ) by {
            if s == SyscallId::Fsync {
            } else if s == SyscallId::Fdatasync {
            } else if s == SyscallId::Sync {
            } else if s == SyscallId::Poll {
            } else if s == SyscallId::Mmap {
            } else if s == SyscallId::Mprotect {
            } else if s == SyscallId::Munmap {
            } else if s == SyscallId::Madvise {
            } else if s == SyscallId::Brk {
            } else if s == SyscallId::RtSigaction {
            } else if s == SyscallId::RtSigprocmask {
            } else if s == SyscallId::Select {
            } else if s == SyscallId::SchedYield {
            } else if s == SyscallId::Getpid {
            } else if s == SyscallId::Accept {
            } else if s == SyscallId::Listen {
            } else if s == SyscallId::Exit {
            } else if s == SyscallId::Gettimeofday {
            } else if s == SyscallId::Tkill {
            } else if s == SyscallId::EpollCreate {
            } else {
                assert(s == SyscallId::RestartSyscall);
            }
        }
    }
}

/// Pushes the second half of the allow-list.
fn push_more_allow_rules(p: &mut Policy)
    requires
        table_sound(old(p).rules@),
    ensures
        table_sound(final(p).rules@),
        final(p).rules@.len() == old(p).rules@.len() + 23,
        final(p).rules@[0] == old(p).rules@[0] || old(p).rules@.len() == 0,
        forall|s: SyscallId| #[trigger] in_allow_batch_b(s) ==> has_rule(
            final(p).rules@,
            allow_rule(s),
        ),
        forall|r2: Rule| has_rule(old(p).rules@, r2) ==> has_rule(final(p).rules@, r2),
{
    push_allow(p, SyscallId::ClockGettime);
    push_allow(p, SyscallId::ClockGetres);
    push_allow(p, SyscallId::ClockNanosleep);
    push_allow(p, SyscallId::Gettid);
    push_allow(p, SyscallId::Nanosleep);
    push_allow(p, SyscallId::ExitGroup);
    push_allow(p, SyscallId::EpollWait);
    push_allow(p, SyscallId::EpollCtl);
    push_allow(p, SyscallId::Tgkill);
    push_allow(p, SyscallId::Pselect6);
    push_allow(p, SyscallId::Ppoll);
    push_allow(p, SyscallId::ArchPrctl);
    push_allow(p, SyscallId::Prctl);
    push_allow(p, SyscallId::SetRobustList);
    push_allow(p, SyscallId::GetRobustList);
    push_allow(p, SyscallId::EpollPwait);
    push_allow(p, SyscallId::Accept4);
    push_allow(p, SyscallId::Eventfd2);
    push_allow(p, SyscallId::EpollCreate1);
    push_allow(p, SyscallId::Pipe2);
    push_allow(p, SyscallId::Futex);
    push_allow(p, SyscallId::SetTidAddress);
    push_allow(p, SyscallId::SetThreadArea);
    proof {
        assert forall|s: SyscallId| #[trigger] in_allow_batch_b(s) implies has_rule(
            p.rules@,
            allow_rule(s),
        ) by {
            if s == SyscallId::ClockGettime {
            } else if s == SyscallId::ClockGetres {
            } else if s == SyscallId::ClockNanosleep {
            } else if s == SyscallId::Gettid {
            } else if s == SyscallId::Nanosleep {
            } else if s == SyscallId::ExitGroup {
            } else if s == SyscallId::EpollWait {
            } else if s == SyscallId::EpollCtl {
            } else if s == SyscallId::Tgkill {
            } else if s == SyscallId::Pselect6 {
            } else if s == SyscallId::Ppoll {
            } else if s == SyscallId::ArchPrctl {
            } else if s == SyscallId::Prctl {
            } else if s == SyscallId::SetRobustList {
            } else if s == SyscallId::GetRobustList {
            } else if s == SyscallId::EpollPwait {
            } else if s == SyscallId::Accept4 {
            } else if s == SyscallId::Eventfd2 {
            } else if s == SyscallId::EpollCreate1 {
            } else if s == SyscallId::Pipe2 {
            } else if s == SyscallId::Futex {
            } else if s == SyscallId::SetTidAddress {
            } else {
                assert(s == SyscallId::SetThreadArea);
            }
        }
    }
}

/// Builds the filter table the sandbox loads into the child before
/// exec: default kill, the process-trace trap first, then the layered
/// allow and trap rules.
pub fn default_policy() -> (p: Policy)
    ensures
        table_sound(p.rules@),
        p.rules@.len() == 76,
        p.rules@[0] == trap_rule(SyscallId::Ptrace),
        has_rule(p.rules@, trap_rule(SyscallId::Ptrace)),
        exec_covered(p.rules@),
        path_covered(p.rules@),
        fd_covered(p.rules@),
        allow_covered(p.rules@),
{
    let mut p = Policy::empty();
    push_base_rules(&mut p);
    let ghost r1 = p.rules@;
    push_fd_rules(&mut p);
    let ghost r2 = p.rules@;
    push_allow_rules(&mut p);
    let ghost r3 = p.rules@;
    push_more_allow_rules(&mut p);
    proof {
        assert forall|s: SyscallId| #[trigger] is_exec_class(s) implies has_rule(
            p.rules@,
            allow_rule(s),
        ) by {
            assert(has_rule(r1, allow_rule(s)));
            assert(has_rule(r2, allow_rule(s)));
            assert(has_rule(r3, allow_rule(s)));
        }
        assert forall|s: SyscallId| #[trigger] is_path_class(s) implies has_rule(
            p.rules@,
            trap_rule(s),
        ) by {
            assert(has_rule(r1, trap_rule(s)));
            assert(has_rule(r2, trap_rule(s)));
            assert(has_rule(r3, trap_rule(s)));
        }
        assert forall|s: SyscallId| #[trigger] is_fd_class(s) implies has_rule(
            p.rules@,
            fd_trap_rule(s),
        ) && has_rule(p.rules@, fd_allow_rule(s)) by {
            assert(has_rule(r2, fd_trap_rule(s)) && has_rule(r2, fd_allow_rule(s)));
            assert(has_rule(r3, fd_trap_rule(s)) && has_rule(r3, fd_allow_rule(s)));
        }
        assert forall|s: SyscallId| #[trigger] is_allow_class(s) implies has_rule(
            p.rules@,
            allow_rule(s),
        ) by {
            lemma_allow_partition(s);
            if in_allow_batch_a(s) {
                assert(has_rule(r3, allow_rule(s)));
            }
        }
    }
    p
}

/// Law: a sound table that covers every class of the intended policy
/// classifies every known syscall exactly as the policy says — neither
/// more permissive nor less. The built [`default_policy`] table meets
/// every hypothesis.
pub proof fn lemma_policy_exact(rules: Seq<Rule>, s: SyscallId, args: Seq<u64>)
    requires
        table_sound(rules),
        has_rule(rules, trap_rule(SyscallId::Ptrace)),
        exec_covered(rules),
        path_covered(rules),
        fd_covered(rules),
        allow_covered(rules),
        args.len() >= 1,
    ensures
        classify_rules(rules, s, args) == policy_decision(s, args),
{
    if s == SyscallId::Ptrace {
        let i = choose|i: int| 0 <= i < rules.len() && rules[i] == trap_rule(SyscallId::Ptrace);
        assert(rule_matches(rules[i], s, args));
    } else if is_exec_class(s) || is_allow_class(s) {
        let i = choose|i: int| 0 <= i < rules.len() && rules[i] == allow_rule(s);
        assert(rule_matches(rules[i], s, args));
    } else if is_path_class(s) {
        let i = choose|i: int| 0 <= i < rules.len() && rules[i] == trap_rule(s);
        assert(rule_matches(rules[i], s, args));
    } else if args[0] < FD_RESERVED {
        assert(is_fd_class(s));
        let i = choose|i: int| 0 <= i < rules.len() && rules[i] == fd_trap_rule(s);
        assert(rule_matches(rules[i], s, args));
    } else {
        assert(is_fd_class(s));
        let i = choose|i: int| 0 <= i < rules.len() && rules[i] == fd_allow_rule(s);
        assert(rule_matches(rules[i], s, args));
    }
    lemma_classify_complete(rules, s, args);
}

/// Law: classification is a function of the table, the syscall and the
/// arguments alone — two classifications of equal inputs agree.
pub proof fn lemma_classify_deterministic(
    rules1: Seq<Rule>,
    rules2: Seq<Rule>,
    s1: SyscallId,
    s2: SyscallId,
    args1: Seq<u64>,
    args2: Seq<u64>,
)
    requires
        rules1 == rules2,
        s1 == s2,
        args1 == args2,
    ensures
        classify_rules(rules1, s1, args1) == classify_rules(rules2, s2, args2),
{
}

/// Law: the first rule of a table cannot be overridden. Whenever it
/// matches, the classification is its action, whatever rules follow.
pub proof fn lemma_first_rule_wins(rules: Seq<Rule>, s: SyscallId, args: Seq<u64>)
    requires
        rules.len() > 0,
        rule_matches(rules[0], s, args),
    ensures
        classify_rules(rules, s, args) == rules[0].action,
{
}

proof fn lemma_classify_sound_from(rules: Seq<Rule>, i: int, s: SyscallId, args: Seq<u64>)
    requires
        table_sound(rules),
        0 <= i,
    ensures
        classify_from(rules, i, s, args) == policy_decision(s, args) || classify_from(
            rules,
            i,
            s,
            args,
        ) == Action::Kill,
    decreases rules.len() - i,
{
    if i < rules.len() {
        if rule_matches(rules[i], s, args) {
            assert(rule_sound(rules[i]));
        } else {
            lemma_classify_sound_from(rules, i + 1, s, args);
        }
    }
}

/// Law: a sound table is never more permissive than the intended
/// policy. Every classification is either the policy's own decision or
/// the default `Kill` — a rule can fail to fire, but no rule can
/// reverse the policy.
pub proof fn lemma_classify_sound(rules: Seq<Rule>, s: SyscallId, args: Seq<u64>)
    requires
        table_sound(rules),
    ensures
        classify_rules(rules, s, args) == policy_decision(s, args) || classify_rules(
            rules,
            s,
            args,
        ) == Action::Kill,
{
    lemma_classify_sound_from(rules, 0, s, args);
}

proof fn lemma_classify_match_from(rules: Seq<Rule>, i: int, s: SyscallId, args: Seq<u64>)
    requires
        table_sound(rules),
        0 <= i,
        exists|j: int| i <= j < rules.len() && rule_matches(#[trigger] rules[j], s, args),
    ensures
        classify_from(rules, i, s, args) == policy_decision(s, args),
    decreases rules.len() - i,
{
    let j = choose|j: int| i <= j < rules.len() && rule_matches(#[trigger] rules[j], s, args);
    if rule_matches(rules[i], s, args) {
        assert(rule_sound(rules[i]));
    } else {
        assert(i + 1 <= j);
        lemma_classify_match_from(rules, i + 1, s, args);
    }
}

/// Law: when a sound table holds some rule that matches, the
/// classification is exactly the intended policy's decision.
pub proof fn lemma_classify_complete(rules: Seq<Rule>, s: SyscallId, args: Seq<u64>)
    requires
        table_sound(rules),
        exists|j: int| 0 <= j < rules.len() && rule_matches(#[trigger] rules[j], s, args),
    ensures
        classify_rules(rules, s, args) == policy_decision(s, args),
{
    lemma_classify_match_from(rules, 0, s, args);
}

/// Law: a sound table that holds the process-trace trap rule traps the
/// process-trace syscall on every argument vector — the containment
/// rule cannot be shadowed or lost.
pub proof fn lemma_ptrace_trapped(rules: Seq<Rule>, args: Seq<u64>)
    requires
        table_sound(rules),
        has_rule(rules, trap_rule(SyscallId::Ptrace)),
    ensures
        classify_rules(rules, SyscallId::Ptrace, args) == Action::Trap,
{
    let i = choose|i: int| 0 <= i < rules.len() && rules[i] == trap_rule(SyscallId::Ptrace);
    assert(rule_matches(rules[i], SyscallId::Ptrace, args));
    lemma_classify_complete(rules, SyscallId::Ptrace, args);
}

/// Law: in a sound table that carries both halves of the descriptor
/// split, every descriptor-class syscall is classified by the
/// threshold alone — trapped below [`FD_RESERVED`], allowed at or
/// above it.
pub proof fn lemma_fd_threshold(rules: Seq<Rule>, s: SyscallId, args: Seq<u64>)
    requires
        table_sound(rules),
        fd_covered(rules),
        is_fd_class(s),
        args.len() >= 1,
    ensures
        classify_rules(rules, s, args) == (if args[0] < FD_RESERVED {
            Action::Trap
        } else {
            Action::Allow
        }),
{
    if args[0] < FD_RESERVED {
        let i = choose|i: int| 0 <= i < rules.len() && rules[i] == fd_trap_rule(s);
        assert(rule_matches(rules[i], s, args));
    } else {
        let i = choose|i: int| 0 <= i < rules.len() && rules[i] == fd_allow_rule(s);
        assert(rule_matches(rules[i], s, args));
    }
    lemma_classify_complete(rules, s, args);
}

} // verus!
