use codius_sandbox_core::reader::MAIN_WORDS;
use codius_sandbox_core::reader::Reader;
use codius_sandbox_core::reader::StringRead;

/// Packs bytes into words the way they sit in memory: byte 0 in the
/// least significant position. Pads the last word with the fill byte.
fn pack_words(bytes: &[u8], fill: u8) -> Vec<u64> {
    let mut words: Vec<u64> = Vec::new();
    for chunk in bytes.chunks(8) {
        let mut w: u64 = 0;
        for i in 0..8 {
            let b: u8 = if i < chunk.len() { chunk[i] } else { fill };
            w |= (b as u64) << (8 * i);
        }
        words.push(w);
    }
    words
}

/// Drives a read against a fake memory image that starts at `base`.
fn run_read(mut sr: StringRead, base: u64, words: &[u64]) -> (Vec<u8>, bool) {
    while let Some(addr) = sr.next_request() {
        assert!(addr >= base, "read below the string start");
        let idx: usize = ((addr - base) / 8) as usize;
        let w: u64 = if idx < words.len() { words[idx] } else { 0x0101010101010101 };
        sr.feed(w);
    }
    let found = sr.terminator_found();
    (sr.into_bytes(), found)
}

#[test]
fn reads_a_terminated_string() {
    let s = b"/etc/hosts\0";
    let words = pack_words(s, 0x41);
    let sr = Reader::new(5).read_string(0x1000).unwrap();
    let (bytes, found) = run_read(sr, 0x1000, &words);
    assert!(found);
    assert_eq!(bytes, s.to_vec());
}

#[test]
fn terminator_on_first_byte_of_a_word() {
    // Eight name bytes fill word zero; the terminator is byte 0 of
    // word one.
    let s = b"abcdefgh\0";
    let words = pack_words(s, 0x42);
    let sr = Reader::new(5).read_string(0x2000).unwrap();
    let (bytes, found) = run_read(sr, 0x2000, &words);
    assert!(found);
    assert_eq!(bytes, s.to_vec());
}

#[test]
fn terminator_on_last_byte_of_a_word() {
    // Seven name bytes and the terminator fill word zero exactly.
    let s = b"abcdefg\0";
    let words = pack_words(s, 0x42);
    let sr = Reader::new(5).read_string(0x3000).unwrap();
    let (bytes, found) = run_read(sr, 0x3000, &words);
    assert!(found);
    assert_eq!(bytes, s.to_vec());
}

#[test]
fn terminator_on_the_very_first_byte() {
    let s = b"\0";
    let words = pack_words(s, 0x43);
    let sr = Reader::new(5).read_string(0x4000).unwrap();
    let (bytes, found) = run_read(sr, 0x4000, &words);
    assert!(found);
    assert_eq!(bytes, vec![0u8]);
}

#[test]
fn unterminated_scan_stops_after_the_extra_word() {
    // No zero anywhere: the scan covers the main round plus exactly
    // one extra word, and reports no terminator.
    let sr = Reader::new(5).read_string(0x5000).unwrap();
    let mut fed: usize = 0;
    let mut sr = sr;
    while let Some(_addr) = sr.next_request() {
        sr.feed(0x0101010101010101);
        fed += 1;
    }
    assert_eq!(fed, MAIN_WORDS + 1);
    assert!(!sr.terminator_found());
    let bytes = sr.into_bytes();
    assert_eq!(bytes.len(), (MAIN_WORDS + 1) * 8);
    assert!(bytes.iter().all(|b| *b == 1));
}

#[test]
fn unaligned_start_steps_by_words_then_reads_the_aligned_end() {
    let start: u64 = 0x6003;
    let mut sr = Reader::new(5).read_string(start).unwrap();
    assert_eq!(sr.next_request(), Some(0x6003));
    sr.feed(0x0101010101010101);
    assert_eq!(sr.next_request(), Some(0x600b));
    // Exhaust the main round.
    for _ in 1..MAIN_WORDS {
        sr.feed(0x0101010101010101);
    }
    // The extra word sits at the aligned end of the capacity window:
    // 0x6003 + 1024 = 0x6403, rounded down to 0x6400.
    assert_eq!(sr.next_request(), Some(0x6400));
    sr.feed(0x0101010101010101);
    assert_eq!(sr.next_request(), None);
    assert!(sr.is_done());
}

#[test]
fn mid_word_start_still_finds_the_terminator() {
    let s = b"hi\0";
    let words = pack_words(s, 0x44);
    let sr = Reader::new(5).read_string(0x7005).unwrap();
    let (bytes, found) = run_read(sr, 0x7005, &words);
    assert!(found);
    assert_eq!(bytes, s.to_vec());
}

#[test]
fn read_near_the_address_space_end_is_refused() {
    let reader = Reader::new(5);
    assert!(reader.read_string(u64::MAX - 100).is_none());
    assert!(reader.read_string(u64::MAX - 1024).is_some());
    assert_eq!(reader.pid, 5);
}

#[test]
fn terminator_is_included_and_scan_stops_there() {
    // Bytes after the terminator are never part of the result.
    let image = b"name\0garbage-follows";
    let words = pack_words(image, 0x45);
    let sr = Reader::new(5).read_string(0x8000).unwrap();
    let (bytes, found) = run_read(sr, 0x8000, &words);
    assert!(found);
    assert_eq!(bytes, b"name\0".to_vec());
}
