//! The known syscalls: the ones the filter policy names.
//!
//! A trapped syscall arrives as a raw number in the "original syscall"
//! register; decoding is fallible, and an unknown number is a
//! first-class error for the caller to treat as fatal. The numbers are
//! the x86-64 syscall numbers, the architecture the register layout in
//! [`crate::ptrace::Registers`] is for.

use vstd::prelude::*;

verus! {

/// A syscall the filter policy knows by name.
#[derive(Clone, Copy, PartialEq, Eq, Structural, Debug, Hash)]
pub enum SyscallId {
    Read,
    Write,
    Open,
    Close,
    Stat,
    Fstat,
    Lstat,
    Poll,
    Lseek,
    Mmap,
    Mprotect,
    Munmap,
    Brk,
    RtSigaction,
    RtSigprocmask,
    Ioctl,
    Readv,
    Writev,
    Access,
    Select,
    SchedYield,
    Madvise,
    Nanosleep,
    Getpid,
    Accept,
    Listen,
    Clone,
    Execve,
    Exit,
    Fsync,
    Fdatasync,
    Getdents,
    Getcwd,
    Chdir,
    Fchdir,
    Readlink,
    Gettimeofday,
    Ptrace,
    Prctl,
    ArchPrctl,
    Sync,
    Gettid,
    Tkill,
    Futex,
    SetThreadArea,
    EpollCreate,
    Getdents64,
    SetTidAddress,
    RestartSyscall,
    ClockGettime,
    ClockGetres,
    ClockNanosleep,
    ExitGroup,
    EpollWait,
    EpollCtl,
    Tgkill,
    Openat,
    Pselect6,
    Ppoll,
    SetRobustList,
    GetRobustList,
    EpollPwait,
    Accept4,
    Eventfd2,
    EpollCreate1,
    Pipe2,
}

/// The x86-64 number of each known syscall.
pub open spec fn syscall_code(s: SyscallId) -> u64 {
    match s {
        SyscallId::Read => 0,
        SyscallId::Write => 1,
        SyscallId::Open => 2,
        SyscallId::Close => 3,
        SyscallId::Stat => 4,
        SyscallId::Fstat => 5,
        SyscallId::Lstat => 6,
        SyscallId::Poll => 7,
        SyscallId::Lseek => 8,
        SyscallId::Mmap => 9,
        SyscallId::Mprotect => 10,
        SyscallId::Munmap => 11,
        SyscallId::Brk => 12,
        SyscallId::RtSigaction => 13,
        SyscallId::RtSigprocmask => 14,
        SyscallId::Ioctl => 16,
        SyscallId::Readv => 19,
        SyscallId::Writev => 20,
        SyscallId::Access => 21,
        SyscallId::Select => 23,
        SyscallId::SchedYield => 24,
        SyscallId::Madvise => 28,
        SyscallId::Nanosleep => 35,
        SyscallId::Getpid => 39,
        SyscallId::Accept => 43,
        SyscallId::Listen => 50,
        SyscallId::Clone => 56,
        SyscallId::Execve => 59,
        SyscallId::Exit => 60,
        SyscallId::Fsync => 74,
        SyscallId::Fdatasync => 75,
        SyscallId::Getdents => 78,
        SyscallId::Getcwd => 79,
        SyscallId::Chdir => 80,
        SyscallId::Fchdir => 81,
        SyscallId::Readlink => 89,
        SyscallId::Gettimeofday => 96,
        SyscallId::Ptrace => 101,
        SyscallId::Prctl => 157,
        SyscallId::ArchPrctl => 158,
        SyscallId::Sync => 162,
        SyscallId::Gettid => 186,
        SyscallId::Tkill => 200,
        SyscallId::Futex => 202,
        SyscallId::SetThreadArea => 205,
        SyscallId::EpollCreate => 213,
        SyscallId::Getdents64 => 217,
        SyscallId::SetTidAddress => 218,
        SyscallId::RestartSyscall => 219,
        SyscallId::ClockGettime => 228,
        SyscallId::ClockGetres => 229,
        SyscallId::ClockNanosleep => 230,
        SyscallId::ExitGroup => 231,
        SyscallId::EpollWait => 232,
        SyscallId::EpollCtl => 233,
        SyscallId::Tgkill => 234,
        SyscallId::Openat => 257,
        SyscallId::Pselect6 => 270,
        SyscallId::Ppoll => 271,
        SyscallId::SetRobustList => 273,
        SyscallId::GetRobustList => 274,
        SyscallId::EpollPwait => 281,
        SyscallId::Accept4 => 288,
        SyscallId::Eventfd2 => 290,
        SyscallId::EpollCreate1 => 291,
        SyscallId::Pipe2 => 293,
    }
}

/// The known syscall a raw number names, if any.
pub open spec fn syscall_from_code(c: u64) -> Option<SyscallId> {
    if c == 0 {
        Some(SyscallId::Read)
    } else if c == 1 {
        Some(SyscallId::Write)
    } else if c == 2 {
        Some(SyscallId::Open)
    } else if c == 3 {
        Some(SyscallId::Close)
    } else if c == 4 {
        Some(SyscallId::Stat)
    } else if c == 5 {
        Some(SyscallId::Fstat)
    } else if c == 6 {
        Some(SyscallId::Lstat)
    } else if c == 7 {
        Some(SyscallId::Poll)
    } else if c == 8 {
        Some(SyscallId::Lseek)
    } else if c == 9 {
        Some(SyscallId::Mmap)
    } else if c == 10 {
        Some(SyscallId::Mprotect)
    } else if c == 11 {
        Some(SyscallId::Munmap)
    } else if c == 12 {
        Some(SyscallId::Brk)
    } else if c == 13 {
        Some(SyscallId::RtSigaction)
    } else if c == 14 {
        Some(SyscallId::RtSigprocmask)
    } else if c == 16 {
        Some(SyscallId::Ioctl)
    } else if c == 19 {
        Some(SyscallId::Readv)
    } else if c == 20 {
        Some(SyscallId::Writev)
    } else if c == 21 {
        Some(SyscallId::Access)
    } else if c == 23 {
        Some(SyscallId::Select)
    } else if c == 24 {
        Some(SyscallId::SchedYield)
    } else if c == 28 {
        Some(SyscallId::Madvise)
    } else if c == 35 {
        Some(SyscallId::Nanosleep)
    } else if c == 39 {
        Some(SyscallId::Getpid)
    } else if c == 43 {
        Some(SyscallId::Accept)
    } else if c == 50 {
        Some(SyscallId::Listen)
    } else if c == 56 {
        Some(SyscallId::Clone)
    } else if c == 59 {
        Some(SyscallId::Execve)
    } else if c == 60 {
        Some(SyscallId::Exit)
    } else if c == 74 {
        Some(SyscallId::Fsync)
    } else if c == 75 {
        Some(SyscallId::Fdatasync)
    } else if c == 78 {
        Some(SyscallId::Getdents)
    } else if c == 79 {
        Some(SyscallId::Getcwd)
    } else if c == 80 {
        Some(SyscallId::Chdir)
    } else if c == 81 {
        Some(SyscallId::Fchdir)
    } else if c == 89 {
        Some(SyscallId::Readlink)
    } else if c == 96 {
        Some(SyscallId::Gettimeofday)
    } else if c == 101 {
        Some(SyscallId::Ptrace)
    } else if c == 157 {
        Some(SyscallId::Prctl)
    } else if c == 158 {
        Some(SyscallId::ArchPrctl)
    } else if c == 162 {
        Some(SyscallId::Sync)
    } else if c == 186 {
        Some(SyscallId::Gettid)
    } else if c == 200 {
        Some(SyscallId::Tkill)
    } else if c == 202 {
        Some(SyscallId::Futex)
    } else if c == 205 {
        Some(SyscallId::SetThreadArea)
    } else if c == 213 {
        Some(SyscallId::EpollCreate)
    } else if c == 217 {
        Some(SyscallId::Getdents64)
    } else if c == 218 {
        Some(SyscallId::SetTidAddress)
    } else if c == 219 {
        Some(SyscallId::RestartSyscall)
    } else if c == 228 {
        Some(SyscallId::ClockGettime)
    } else if c == 229 {
        Some(SyscallId::ClockGetres)
    } else if c == 230 {
        Some(SyscallId::ClockNanosleep)
    } else if c == 231 {
        Some(SyscallId::ExitGroup)
    } else if c == 232 {
        Some(SyscallId::EpollWait)
    } else if c == 233 {
        Some(SyscallId::EpollCtl)
    } else if c == 234 {
        Some(SyscallId::Tgkill)
    } else if c == 257 {
        Some(SyscallId::Openat)
    } else if c == 270 {
        Some(SyscallId::Pselect6)
    } else if c == 271 {
        Some(SyscallId::Ppoll)
    } else if c == 273 {
        Some(SyscallId::SetRobustList)
    } else if c == 274 {
        Some(SyscallId::GetRobustList)
    } else if c == 281 {
        Some(SyscallId::EpollPwait)
    } else if c == 288 {
        Some(SyscallId::Accept4)
    } else if c == 290 {
        Some(SyscallId::Eventfd2)
    } else if c == 291 {
        Some(SyscallId::EpollCreate1)
    } else if c == 293 {
        Some(SyscallId::Pipe2)
    } else {
        None
    }
}

impl SyscallId {
    /// The syscall's x86-64 number.
    pub fn code(&self) -> (c: u64)
        ensures
            c == syscall_code(*self),
    {
        match self {
            SyscallId::Read => 0,
            SyscallId::Write => 1,
            SyscallId::Open => 2,
            SyscallId::Close => 3,
            SyscallId::Stat => 4,
            SyscallId::Fstat => 5,
            SyscallId::Lstat => 6,
            SyscallId::Poll => 7,
            SyscallId::Lseek => 8,
            SyscallId::Mmap => 9,
            SyscallId::Mprotect => 10,
            SyscallId::Munmap => 11,
            SyscallId::Brk => 12,
            SyscallId::RtSigaction => 13,
            SyscallId::RtSigprocmask => 14,
            SyscallId::Ioctl => 16,
            SyscallId::Readv => 19,
            SyscallId::Writev => 20,
            SyscallId::Access => 21,
            SyscallId::Select => 23,
            SyscallId::SchedYield => 24,
            SyscallId::Madvise => 28,
            SyscallId::Nanosleep => 35,
            SyscallId::Getpid => 39,
            SyscallId::Accept => 43,
            SyscallId::Listen => 50,
            SyscallId::Clone => 56,
            SyscallId::Execve => 59,
            SyscallId::Exit => 60,
            SyscallId::Fsync => 74,
            SyscallId::Fdatasync => 75,
            SyscallId::Getdents => 78,
            SyscallId::Getcwd => 79,
            SyscallId::Chdir => 80,
            SyscallId::Fchdir => 81,
            SyscallId::Readlink => 89,
            SyscallId::Gettimeofday => 96,
            SyscallId::Ptrace => 101,
            SyscallId::Prctl => 157,
            SyscallId::ArchPrctl => 158,
            SyscallId::Sync => 162,
            SyscallId::Gettid => 186,
            SyscallId::Tkill => 200,
            SyscallId::Futex => 202,
            SyscallId::SetThreadArea => 205,
            SyscallId::EpollCreate => 213,
            SyscallId::Getdents64 => 217,
            SyscallId::SetTidAddress => 218,
            SyscallId::RestartSyscall => 219,
            SyscallId::ClockGettime => 228,
            SyscallId::ClockGetres => 229,
            SyscallId::ClockNanosleep => 230,
            SyscallId::ExitGroup => 231,
            SyscallId::EpollWait => 232,
            SyscallId::EpollCtl => 233,
            SyscallId::Tgkill => 234,
            SyscallId::Openat => 257,
            SyscallId::Pselect6 => 270,
            SyscallId::Ppoll => 271,
            SyscallId::SetRobustList => 273,
            SyscallId::GetRobustList => 274,
            SyscallId::EpollPwait => 281,
            SyscallId::Accept4 => 288,
            SyscallId::Eventfd2 => 290,
            SyscallId::EpollCreate1 => 291,
            SyscallId::Pipe2 => 293,
        }
    }

    /// Decodes a raw syscall number; `None` names an unknown syscall.
    pub fn from_code(c: u64) -> (r: Option<SyscallId>)
        ensures
            r == syscall_from_code(c),
    {
        match c {
            0 => Some(SyscallId::Read),
            1 => Some(SyscallId::Write),
            2 => Some(SyscallId::Open),
            3 => Some(SyscallId::Close),
            4 => Some(SyscallId::Stat),
            5 => Some(SyscallId::Fstat),
            6 => Some(SyscallId::Lstat),
            7 => Some(SyscallId::Poll),
            8 => Some(SyscallId::Lseek),
            9 => Some(SyscallId::Mmap),
            10 => Some(SyscallId::Mprotect),
            11 => Some(SyscallId::Munmap),
            12 => Some(SyscallId::Brk),
            13 => Some(SyscallId::RtSigaction),
            14 => Some(SyscallId::RtSigprocmask),
            16 => Some(SyscallId::Ioctl),
            19 => Some(SyscallId::Readv),
            20 => Some(SyscallId::Writev),
            21 => Some(SyscallId::Access),
            23 => Some(SyscallId::Select),
            24 => Some(SyscallId::SchedYield),
            28 => Some(SyscallId::Madvise),
            35 => Some(SyscallId::Nanosleep),
            39 => Some(SyscallId::Getpid),
            43 => Some(SyscallId::Accept),
            50 => Some(SyscallId::Listen),
            56 => Some(SyscallId::Clone),
            59 => Some(SyscallId::Execve),
            60 => Some(SyscallId::Exit),
            74 => Some(SyscallId::Fsync),
            75 => Some(SyscallId::Fdatasync),
            78 => Some(SyscallId::Getdents),
            79 => Some(SyscallId::Getcwd),
            80 => Some(SyscallId::Chdir),
            81 => Some(SyscallId::Fchdir),
            89 => Some(SyscallId::Readlink),
            96 => Some(SyscallId::Gettimeofday),
            101 => Some(SyscallId::Ptrace),
            157 => Some(SyscallId::Prctl),
            158 => Some(SyscallId::ArchPrctl),
            162 => Some(SyscallId::Sync),
            186 => Some(SyscallId::Gettid),
            200 => Some(SyscallId::Tkill),
            202 => Some(SyscallId::Futex),
            205 => Some(SyscallId::SetThreadArea),
            213 => Some(SyscallId::EpollCreate),
            217 => Some(SyscallId::Getdents64),
            218 => Some(SyscallId::SetTidAddress),
            219 => Some(SyscallId::RestartSyscall),
            228 => Some(SyscallId::ClockGettime),
            229 => Some(SyscallId::ClockGetres),
            230 => Some(SyscallId::ClockNanosleep),
            231 => Some(SyscallId::ExitGroup),
            232 => Some(SyscallId::EpollWait),
            233 => Some(SyscallId::EpollCtl),
            234 => Some(SyscallId::Tgkill),
            257 => Some(SyscallId::Openat),
            270 => Some(SyscallId::Pselect6),
            271 => Some(SyscallId::Ppoll),
            273 => Some(SyscallId::SetRobustList),
            274 => Some(SyscallId::GetRobustList),
            281 => Some(SyscallId::EpollPwait),
            288 => Some(SyscallId::Accept4),
            290 => Some(SyscallId::Eventfd2),
            291 => Some(SyscallId::EpollCreate1),
            293 => Some(SyscallId::Pipe2),
            _ => None,
        }
    }
}

/// Law: decoding is the inverse of the numbering. A number decodes to a
/// syscall exactly when it is that syscall's number, so distinct known
/// syscalls never share a number.
pub proof fn lemma_code_round_trip(s: SyscallId)
    ensures
        syscall_from_code(syscall_code(s)) == Some(s),
{
}

} // verus!
