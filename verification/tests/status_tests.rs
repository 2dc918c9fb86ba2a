use codius_sandbox_core::posix::PosixResult;
use codius_sandbox_core::posix::WaitResult;

fn wr(status: u32) -> WaitResult {
    WaitResult { pid: 1, status }
}

#[test]
fn stopped_status_decodes() {
    // Stopped by signal 5: low byte 0x7f, second byte the signal.
    let r = wr(0x057f);
    assert!(r.is_stopped());
    assert_eq!(r.stop_signal(), 5);
    assert!(!r.is_continued());
    assert!(!r.is_exited());
}

#[test]
fn exit_zero_decodes() {
    let r = wr(0x0000);
    assert!(r.is_exited());
    assert_eq!(r.term_signal(), 0);
    assert!(!r.is_stopped());
    assert!(!r.is_signaled());
    assert!(!r.is_continued());
}

#[test]
fn exit_code_sits_in_second_byte() {
    // Exit with code 23: still an exit, no terminating signal.
    let r = wr(0x1700);
    assert!(r.is_exited());
    assert_eq!(r.stop_signal(), 23);
    assert!(!r.is_stopped());
    assert!(!r.is_signaled());
}

#[test]
fn killed_by_signal_decodes() {
    // Killed by signal 9.
    let r = wr(0x0009);
    assert!(r.is_signaled());
    assert_eq!(r.term_signal(), 9);
    assert!(!r.is_exited());
    assert!(!r.is_stopped());
    assert!(!r.is_continued());
}

#[test]
fn continued_status_decodes() {
    let r = wr(0xffff);
    assert!(r.is_continued());
    assert!(!r.is_stopped());
    assert!(!r.is_exited());
}

#[test]
fn every_status_gets_exactly_one_reading() {
    // The partition the decoder proves, spot-checked over a spread of
    // raw words: stopped, continued, exited, or properly signaled.
    let samples: [u32; 8] = [0x0000, 0x0009, 0x057f, 0xffff, 0x1700, 0x00ff, 0x067f, 0xffffffff];
    for status in samples {
        let r = wr(status);
        let stopped = r.is_stopped();
        let continued = r.is_continued() && !r.is_stopped();
        let exited = r.is_exited() && !r.is_stopped() && !r.is_continued();
        let signaled = r.is_signaled() && !r.is_stopped() && !r.is_continued() && !r.is_exited();
        let count = [stopped, continued, exited, signaled].iter().filter(|b| **b).count();
        assert_eq!(count, 1, "status {status:#x}");
    }
}

#[test]
fn posix_result_reports_success() {
    let ok: PosixResult<u32> = PosixResult::Success(7);
    assert!(ok.is_ok());
    assert_eq!(ok.expect(), 7);
    let err: PosixResult<u32> = PosixResult::Error(2);
    assert!(!err.is_ok());
}
