//! Word-by-word reading of strings out of a traced process's memory.
//!
//! The tracer can only inspect the child one word at a time, through
//! the peek request of the trace control call. A [`StringRead`] is the
//! state machine of one null-terminated read: it says which address to
//! peek next, consumes each fetched word byte by byte in ascending
//! order, and stops at the first zero byte. The caller performs the
//! peeks and pumps the words in; everything decided about the bytes is
//! verified against the log of words fed.
//!
//! A read scans at most one growth round of [`READ_CAPACITY`] bytes:
//! words at `address`, `address + 8`, and so on below the capacity's
//! aligned end, then exactly one more word at the aligned end itself.
//! The terminator, when found, is included in the returned bytes.

use vstd::prelude::*;

use crate::ptrace::Address;
use crate::ptrace::Word;

verus! {

/// Bytes scanned in one growth round of a string read.
pub const READ_CAPACITY: u64 = 1024;

/// Bytes in one word of the traced process.
pub const WORD_SIZE: u64 = 8;

/// Words requested in the main round of a read.
pub const MAIN_WORDS: usize = 128;

/// Byte `i` of a word, counted from the least significant end: the
/// order the bytes sit in the child's memory.
pub open spec fn word_byte(w: Word, i: int) -> u8 {
    (((w >> ((8 * i) as u64)) & 0xff) as u8)
}

/// The eight bytes of one word, in memory order.
pub open spec fn word_bytes(w: Word) -> Seq<u8> {
    Seq::new(8, |i: int| word_byte(w, i))
}

/// The bytes of a run of words, in memory order.
pub open spec fn words_bytes(ws: Seq<Word>) -> Seq<u8>
    decreases ws.len(),
{
    if ws.len() == 0 {
        Seq::empty()
    } else {
        words_bytes(ws.drop_last()) + word_bytes(ws.last())
    }
}

/// Where the main round of a read starting at `start` ends: the end of
/// the capacity window, rounded down to a word boundary.
pub open spec fn spec_align_end(start: u64) -> int {
    (start + READ_CAPACITY) - ((start + READ_CAPACITY) % (WORD_SIZE as int))
}

/// Reads from one traced process's memory.
pub struct Reader {
    pub pid: i32,
}

/// Which part of the scan a read is in.
#[derive(Clone, Copy, Debug, PartialEq, Eq, Structural)]
pub enum ReadPhase {
    /// Requesting the words of the main round.
    Main,
    /// The main round found no terminator; requesting the one extra
    /// word at the aligned end.
    Extra,
    /// The read is over.
    Done,
}

/// One null-terminated string read in progress.
pub struct StringRead {
    /// The traced process read from.
    pub pid: i32,
    /// The address the string starts at.
    pub start: u64,
    /// The bytes scanned so far.
    pub buf: Vec<u8>,
    /// How many words were fed so far.
    pub count: usize,
    /// Which part of the scan the read is in.
    pub phase: ReadPhase,
    /// Whether a zero byte ended the scan.
    pub found: bool,
    /// The log of words fed, in order.
    pub words: Ghost<Seq<Word>>,
}

impl StringRead {
    /// The log of words fed so far.
    pub open spec fn words_fed(self) -> Seq<Word> {
        self.words@
    }

    /// The bytes scanned so far.
    pub open spec fn bytes(self) -> Seq<u8> {
        self.buf@
    }

    /// Whether the read is over.
    pub open spec fn done(self) -> bool {
        self.phase is Done
    }

    /// Well-formedness: what each phase guarantees of the scanned
    /// bytes against the log of words fed.
    pub open spec fn wf(self) -> bool {
        &&& self.start + READ_CAPACITY <= u64::MAX
        &&& self.count == self.words@.len()
        &&& match self.phase {
            ReadPhase::Main => {
                &&& self.count < MAIN_WORDS
                &&& !self.found
                &&& self.buf@ == words_bytes(self.words@)
                &&& forall|i: int| 0 <= i < self.buf@.len() ==> self.buf@[i] != 0
            },
            ReadPhase::Extra => {
                &&& self.count == MAIN_WORDS
                &&& !self.found
                &&& self.buf@ == words_bytes(self.words@)
                &&& forall|i: int| 0 <= i < self.buf@.len() ==> self.buf@[i] != 0
            },
            ReadPhase::Done => {
                if self.found {
                    &&& self.count <= MAIN_WORDS + 1
                    &&& self.count >= 1
                    &&& self.buf@.len() >= 1
                    &&& self.buf@.len() <= words_bytes(self.words@).len()
                    &&& self.buf@ == words_bytes(self.words@).take(self.buf@.len() as int)
                    &&& self.buf@[self.buf@.len() - 1] == 0
                    &&& forall|i: int| 0 <= i < self.buf@.len() - 1 ==> self.buf@[i] != 0
                } else {
                    &&& self.count == MAIN_WORDS + 1
                    &&& self.buf@ == words_bytes(self.words@)
                    &&& forall|i: int| 0 <= i < self.buf@.len() ==> self.buf@[i] != 0
                }
            },
        }
    }

    /// The address of the next word the read wants, if any: the main
    /// round steps by one word from the start, then the one extra word
    /// sits at the aligned end of the capacity window.
    pub open spec fn spec_next_request(self) -> Option<Address> {
        match self.phase {
            ReadPhase::Main => Some((self.start + WORD_SIZE * self.count) as u64),
            ReadPhase::Extra => Some(spec_align_end(self.start) as u64),
            ReadPhase::Done => None,
        }
    }

    /// The address to peek next; `None` once the read is over.
    pub fn next_request(&self) -> (r: Option<Address>)
        requires
            self.wf(),
        ensures
            r == self.spec_next_request(),
    {
        match self.phase {
            ReadPhase::Main => Some(self.start + WORD_SIZE * (self.count as u64)),
            ReadPhase::Extra => {
                let max_addr = self.start + READ_CAPACITY;
                Some(max_addr - (max_addr % WORD_SIZE))
            },
            ReadPhase::Done => None,
        }
    }

    /// Consumes one fetched word: its bytes are scanned in memory
    /// order and appended until the scan ends, at the first zero byte
    /// or at the end of the one extra word.
    pub fn feed(&mut self, w: Word)
        requires
            old(self).wf(),
            !old(self).done(),
        ensures
            final(self).wf(),
            final(self).words_fed() == old(self).words_fed().push(w),
            final(self).pid == old(self).pid,
            final(self).start == old(self).start,
            final(self).done() <==> (final(self).found || old(self).phase is Extra),
    {
        let ghost prior_words = self.words@;
        let ghost prior_bytes = self.buf@;
        let ghost wb = word_bytes(w);
        proof {
            self.words@ = self.words@.push(w);
            assert(self.words@.drop_last() =~= prior_words);
            assert(words_bytes(self.words@) == words_bytes(prior_words) + wb);
        }
        let mut j: usize = 0;
        let mut hit_zero: bool = false;
        while j < 8 && !hit_zero
            invariant
                j <= 8,
                self.pid == old(self).pid,
                self.start == old(self).start,
                self.count == old(self).count,
                self.phase == old(self).phase,
                self.found == old(self).found,
                self.words@ == prior_words.push(w),
                wb == word_bytes(w),
                prior_bytes == words_bytes(prior_words),
                words_bytes(self.words@) == prior_bytes + wb,
                forall|i: int| 0 <= i < prior_bytes.len() ==> prior_bytes[i] != 0,
                self.buf@ == prior_bytes + wb.take(j as int),
                forall|i: int| 0 <= i < self.buf@.len() - 1 ==> self.buf@[i] != 0,
                hit_zero ==> j >= 1 && self.buf@.len() >= 1 && self.buf@[self.buf@.len() - 1]
                    == 0,
                !hit_zero ==> forall|i: int| 0 <= i < self.buf@.len() ==> self.buf@[i] != 0,
            decreases 8 - j,
        {
            let shift: u64 = (j as u64) * 8;
            proof {
                assert((w >> shift) & 0xff < 256) by (bit_vector);
            }
            let byte = ((w >> shift) & 0xff) as u8;
            proof {
                assert(byte == wb[j as int]);
                assert(wb.take(j + 1 as int) =~= wb.take(j as int).push(wb[j as int]));
            }
            self.buf.push(byte);
            if byte == 0 {
                hit_zero = true;
            }
            j = j + 1;
        }
        self.count = self.count + 1;
        if hit_zero {
            self.found = true;
            self.phase = ReadPhase::Done;
            proof {
                assert(self.buf@ =~= words_bytes(self.words@).take(self.buf@.len() as int));
            }
        } else {
            proof {
                assert(wb.take(8) =~= wb);
            }
            match self.phase {
                ReadPhase::Main => {
                    if self.count == MAIN_WORDS {
                        self.phase = ReadPhase::Extra;
                    }
                },
                ReadPhase::Extra => {
                    self.phase = ReadPhase::Done;
                },
                ReadPhase::Done => {},
            }
        }
    }

    /// Whether the read is over.
    pub fn is_done(&self) -> (b: bool)
        ensures
            b == self.done(),
    {
        match self.phase {
            ReadPhase::Done => true,
            _ => false,
        }
    }

    /// Whether the scan ended at a zero byte; meaningful once the read
    /// is over. A read that ends without a terminator scanned the whole
    /// window, and the caller treats the bytes as unterminated.
    pub fn terminator_found(&self) -> (b: bool)
        ensures
            b == self.found,
    {
        self.found
    }

    /// Hands the scanned bytes out; the terminator, when found, is the
    /// last byte.
    pub fn into_bytes(self) -> (b: Vec<u8>)
        ensures
            b@ == self.bytes(),
    {
        self.buf
    }
}

impl Reader {
    /// A reader of one traced process's memory.
    pub fn new(pid: i32) -> (r: Reader)
        ensures
            r.pid == pid,
    {
        Reader { pid }
    }

    /// Begins a null-terminated read at `address`. Fails only when the
    /// capacity window would wrap the end of the address space.
    pub fn read_string(&self, address: Address) -> (r: Option<StringRead>)
        ensures
            address + READ_CAPACITY <= u64::MAX ==> (r matches Some(sr) && sr.wf() && sr.pid
                == self.pid && sr.start == address && sr.words_fed() == Seq::<Word>::empty()
                && !sr.done()),
            address + READ_CAPACITY > u64::MAX ==> r is None,
    {
        if address <= u64::MAX - READ_CAPACITY {
            let sr = StringRead {
                pid: self.pid,
                start: address,
                buf: Vec::new(),
                count: 0,
                phase: ReadPhase::Main,
                found: false,
                words: Ghost(Seq::empty()),
            };
            proof {
                assert(words_bytes(sr.words@) =~= Seq::<u8>::empty());
            }
            Some(sr)
        } else {
            None
        }
    }
}

/// Law: a read is bounded by one growth round. Before the read is
/// over at most the main round was fed, so the scan asks for at most
/// one word more — a string read can never request unboundedly many
/// peeks, terminator or not.
pub proof fn lemma_read_bounded(sr: StringRead)
    requires
        sr.wf(),
        !sr.done(),
    ensures
        sr.count <= MAIN_WORDS,
        sr.words_fed().len() <= MAIN_WORDS,
{
}

/// Law: reading a properly terminated string gives back exactly that
/// string. If the words fed spell a zero-free byte run, then its
/// terminator, then anything at all, a finished read that found the
/// terminator holds exactly the run plus its terminator.
pub proof fn lemma_string_round_trip(sr: StringRead, s: Seq<u8>, rest: Seq<u8>)
    requires
        sr.wf(),
        sr.done(),
        sr.found,
        forall|i: int| 0 <= i < s.len() ==> s[i] != 0,
        words_bytes(sr.words_fed()) == s + seq![0u8] + rest,
    ensures
        sr.bytes() == s + seq![0u8],
{
    let bs = s + seq![0u8] + rest;
    let n = sr.bytes().len() as int;
    assert(sr.bytes() == bs.take(n));
    assert(n <= bs.len());
    if n <= s.len() {
        assert(sr.bytes()[n - 1] == bs[n - 1]);
        assert(bs[n - 1] == s[n - 1]);
        assert(false);
    } else if n > s.len() + 1 {
        assert(sr.bytes()[s.len() as int] == bs[s.len() as int]);
        assert(bs[s.len() as int] == 0);
        assert(false);
    } else {
        assert(sr.bytes() =~= s + seq![0u8]);
    }
}

} // verus!
