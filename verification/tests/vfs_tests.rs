use codius_sandbox_core::ptrace::Registers;
use codius_sandbox_core::ptrace::Syscall;
use codius_sandbox_core::reader::Reader;
use codius_sandbox_core::sandbox::Sandbox;
use codius_sandbox_core::sandbox::TickAction;
use codius_sandbox_core::syscalls::SyscallId;
use codius_sandbox_core::vfs::VFS;
use codius_sandbox_core::vfs::VfsDecision;

fn open_record(pid: i32, path_addr: u64) -> Syscall {
    let mut regs = Registers::zeroed();
    regs.orig_rax = 2;
    regs.rdi = path_addr;
    Syscall::from_regs(pid, &regs).unwrap()
}

fn pack_words(bytes: &[u8], fill: u8) -> Vec<u64> {
    let mut words: Vec<u64> = Vec::new();
    for chunk in bytes.chunks(8) {
        let mut w: u64 = 0;
        for i in 0..8 {
            let b: u8 = if i < chunk.len() { chunk[i] } else { fill };
            w |= (b as u64) << (8 * i);
        }
        words.push(w);
    }
    words
}

#[test]
fn open_asks_for_its_path_argument() {
    let vfs = VFS::new();
    let rec = open_record(9, 0xbeef00);
    assert_eq!(vfs.path_request(&rec), Some(0xbeef00));
}

#[test]
fn non_path_syscalls_ask_for_nothing() {
    let vfs = VFS::new();
    let mut regs = Registers::zeroed();
    regs.orig_rax = 0;
    regs.rdi = 3;
    let rec = Syscall::from_regs(9, &regs).unwrap();
    assert_eq!(vfs.path_request(&rec), None);
}

#[test]
fn open_handler_observes_the_exact_path() {
    let vfs = VFS::new();
    let rec = open_record(9, 0x9000);
    let path = b"/etc/passwd\0".to_vec();
    let (back, decision) = vfs.handle_syscall(rec, Some(path.clone()));
    assert_eq!(back, rec);
    match decision {
        VfsDecision::Observed(seen) => assert_eq!(seen, path),
        VfsDecision::PassThrough => panic!("the open handler must observe the path"),
    }
}

#[test]
fn unresolved_open_degrades_to_pass_through() {
    let vfs = VFS::new();
    let rec = open_record(9, 0x9000);
    let (back, decision) = vfs.handle_syscall(rec, None);
    assert_eq!(back, rec);
    assert!(matches!(decision, VfsDecision::PassThrough));
}

#[test]
fn other_syscalls_pass_through() {
    let vfs = VFS::new();
    let mut regs = Registers::zeroed();
    regs.orig_rax = 3;
    regs.rdi = 5;
    let rec = Syscall::from_regs(9, &regs).unwrap();
    let (back, decision) = vfs.handle_syscall(rec, None);
    assert_eq!(back, rec);
    assert!(matches!(decision, VfsDecision::PassThrough));
}

#[test]
fn open_interception_end_to_end() {
    // A child traps on open("/tmp/data"): the tick asks for syscall
    // inspection, the record decodes, the path is read out of the
    // simulated child memory word by word, and the open handler sees
    // exactly the path the program passed — before any resume.
    let mut sbox = Sandbox::new();
    sbox.begin_trace(64);

    let res = codius_sandbox_core::posix::WaitResult { pid: 64, status: 0x7f | (5 << 8) | (7 << 16) };
    let step = sbox.tick(&res).unwrap();
    assert_eq!(step.action, TickAction::InspectSyscall { pid: 64 });

    let base: u64 = 0xa000;
    let mut regs = Registers::zeroed();
    regs.orig_rax = 2;
    regs.rdi = base;
    let rec = sbox.handle_seccomp(64, &regs).unwrap();

    let addr = sbox.vfs.path_request(&rec).expect("open carries a path");
    assert_eq!(addr, base);

    let image = pack_words(b"/tmp/data\0", 0x5a);
    let mut sr = Reader::new(64).read_string(addr).unwrap();
    while let Some(a) = sr.next_request() {
        let idx: usize = ((a - base) / 8) as usize;
        sr.feed(image[idx]);
    }
    assert!(sr.terminator_found());
    let path = sr.into_bytes();

    let (back, decision) = sbox.vfs.handle_syscall(rec, Some(path));
    assert_eq!(back, rec);
    match decision {
        VfsDecision::Observed(seen) => assert_eq!(seen, b"/tmp/data\0".to_vec()),
        VfsDecision::PassThrough => panic!("the open handler must observe the path"),
    }
    assert!(sbox.is_running());
}
