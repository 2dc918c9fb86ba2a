//! Raw POSIX call results and the wait-status decoder.
//!
//! A wait status is the 32-bit word a `wait` call hands back to describe
//! why a traced process changed state. The decoder below is pure and
//! total: every predicate is defined for every 32-bit value, with the
//! exact bit layout of the POSIX encoding.

use vstd::prelude::*;

verus! {

/// Outcome of a raw POSIX call: a value, or the `errno` the call left.
pub enum PosixResult<T> {
    Success(T),
    Error(usize),
}

impl<T> PosixResult<T> {
    /// Extracts the value of a successful call; the caller must have
    /// ruled the error case out.
    pub fn expect(self) -> (r: T)
        requires
            self is Success,
        ensures
            r == self->Success_0,
    {
        match self {
            PosixResult::Success(value) => value,
            PosixResult::Error(_) => unreached(),
        }
    }

    /// True on the success side.
    pub fn is_ok(&self) -> (r: bool)
        ensures
            r == (*self is Success),
    {
        match self {
            PosixResult::Success(_) => true,
            PosixResult::Error(_) => false,
        }
    }
}

/// Snapshot of one status change of a traced process: which process, and
/// the raw status word describing what happened to it.
pub struct WaitResult {
    pub pid: i32,
    pub status: u32,
}

/// The process was stopped by a signal: the low byte reads 0x7f.
pub open spec fn spec_is_stopped(status: u32) -> bool {
    status & 0xff == 0x7f
}

/// The signal that stopped the process, taken from the second byte.
pub open spec fn spec_stop_signal(status: u32) -> u32 {
    (status & 0xff00) >> 8
}

/// The process was resumed by `SIGCONT`: the whole word reads 0xffff.
pub open spec fn spec_is_continued(status: u32) -> bool {
    status == 0xffff
}

/// The signal that terminated the process, in the low seven bits.
pub open spec fn spec_term_signal(status: u32) -> u32 {
    status & 0x7f
}

/// The process exited on its own: no terminating signal is recorded.
pub open spec fn spec_is_exited(status: u32) -> bool {
    spec_term_signal(status) == 0
}

/// The process was terminated by a signal.
pub open spec fn spec_is_signaled(status: u32) -> bool {
    (((status & 0x7f) + 1) as u32) >> 1 > 0
}

impl WaitResult {
    /// True when the status records a signal-stop.
    pub fn is_stopped(&self) -> (r: bool)
        ensures
            r == spec_is_stopped(self.status),
    {
        self.status & 0xff == 0x7f
    }

    /// The stopping signal's number; meaningful when `is_stopped` holds.
    pub fn stop_signal(&self) -> (r: u32)
        ensures
            r == spec_stop_signal(self.status),
    {
        (self.status & 0xff00) >> 8
    }

    /// True when the status records a `SIGCONT` resumption.
    pub fn is_continued(&self) -> (r: bool)
        ensures
            r == spec_is_continued(self.status),
    {
        self.status == 0xffff
    }

    /// True when the status records a plain exit.
    pub fn is_exited(&self) -> (r: bool)
        ensures
            r == spec_is_exited(self.status),
    {
        self.term_signal() == 0
    }

    /// The terminating signal's number; meaningful when `is_signaled` holds.
    pub fn term_signal(&self) -> (r: u32)
        ensures
            r == spec_term_signal(self.status),
    {
        self.status & 0x7f
    }

    /// True when the status records death by a signal.
    pub fn is_signaled(&self) -> (r: bool)
        ensures
            r == spec_is_signaled(self.status),
    {
        let st: u32 = self.status;
        let low: u32 = st & 0x7f;
        assert(low < 0x80) by (bit_vector)
            requires
                low == st & 0x7f,
        ;
        (low + 1) >> 1 > 0
    }
}

/// Law: the four readings of a wait status partition the 32-bit space.
/// Every status word is exactly one of: a signal-stop, a `SIGCONT`
/// resumption, a plain exit, or a proper death-by-signal (one that is
/// neither a stop nor a resumption). This holds of all 32-bit values,
/// whether or not a real `wait` call could produce them.
pub proof fn lemma_status_partition(status: u32)
    ensures
        spec_is_stopped(status) || spec_is_continued(status) || spec_is_exited(status) || (
        spec_is_signaled(status) && !spec_is_stopped(status) && !spec_is_continued(status)),
        spec_is_stopped(status) ==> !spec_is_continued(status) && !spec_is_exited(status),
        spec_is_continued(status) ==> !spec_is_stopped(status) && !spec_is_exited(status),
        spec_is_exited(status) ==> !spec_is_stopped(status) && !spec_is_continued(status)
            && !spec_is_signaled(status),
        spec_is_signaled(status) <==> !spec_is_exited(status),
{
    assert((status & 0xff == 0x7f) ==> status & 0x7f != 0) by (bit_vector);
    assert(status == 0xffff ==> status & 0x7f != 0 && status & 0xff != 0x7f) by (bit_vector);
    assert(((((status & 0x7f) + 1) as u32) >> 1 > 0) <==> status & 0x7f != 0) by (bit_vector);
}

} // verus!
