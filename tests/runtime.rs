use std::cell::RefCell;

use ntrt::delivery::{frame_payload, to_le_bytes};
use ntrt::fuzz::{fuzz_round, worker_seed, SEED_BASE};
use ntrt::mips::{Context, Context64, TrapFrame};
use ntrt::mman::{VmAllocator, NULL};
use ntrt::print::Writer;
use ntrt::rand::Rng;
use ntrt::status::{Handle, IoStatusBlock, NtStatus};
use ntrt::syscall::{
    close, create_thread_call, exit_call, exit_thread_call, mmap_call, munmap_call, settle, wait,
    write_call, CURRENT_PROCESS, CURRENT_THREAD,
};
use ntrt::thread::{
    exit_calls, run_work, spawned, thread_context, JoinError, JoinHandle, ResultCell, STACK_SIZE,
};

const STATUS_PENDING: usize = 0x103;
const STATUS_ACCESS_VIOLATION: usize = 0xc000_0005;
const STATUS_INVALID_HANDLE: usize = 0xc000_0008;
const STATUS_NO_MEMORY: usize = 0xc000_0017;

#[test]
fn allocate_call_words() {
    let c = mmap_call(0x7000, 0x7008);
    assert_eq!(c.opcode, 0xa);
    assert_eq!(c.args, vec![usize::MAX, 0x7000, 0, 0x7008, 0x3000, 4]);
}

#[test]
fn free_call_words() {
    let c = munmap_call(0x7000, 0x7008);
    assert_eq!(c.opcode, 0x3a);
    assert_eq!(c.args, vec![usize::MAX, 0x7000, 0x7008, 0x8000]);
}

#[test]
fn write_file_call_words() {
    let c = write_call(Handle(0x44), 0x100, 0x200, 5, 0x300);
    assert_eq!(c.opcode, 0xc7);
    assert_eq!(c.args, vec![0x44, 0, 0, 0, 0x100, 0x200, 5, 0x300, 0]);
}

#[test]
fn create_thread_call_words() {
    let c = create_thread_call(0x10, 0x20, 0x30, 0x40);
    assert_eq!(c.opcode, 0x24);
    assert_eq!(c.args, vec![0x10, 0x1f03ff, 0, usize::MAX, 0x20, 0x30, 0x40, 0]);
}

#[test]
fn exit_calls_words() {
    let t = exit_thread_call(3);
    assert_eq!(t.opcode, 0xbb);
    assert_eq!(t.args, vec![CURRENT_THREAD, 3]);
    assert_eq!(CURRENT_THREAD, usize::MAX - 1);
    let p = exit_call(!0);
    assert_eq!(p.opcode, 0xba);
    assert_eq!(p.args, vec![CURRENT_PROCESS, usize::MAX]);
}

#[test]
fn settle_reads_status_word() {
    assert_eq!(settle(0, 9usize), Ok(9));
    assert_eq!(settle(STATUS_PENDING, 9usize), Ok(9));
    assert_eq!(settle(STATUS_NO_MEMORY, 9usize), Err(NtStatus(0xc000_0017)));
}

#[test]
fn wait_and_close_issue_their_calls() {
    let seen: RefCell<Vec<(usize, usize)>> = RefCell::new(Vec::new());
    let ok = |f: TrapFrame| -> usize {
        seen.borrow_mut().push((f.v0, f.a0));
        0
    };
    assert_eq!(wait(ok, Handle(0x58)), Ok(()));
    assert_eq!(close(ok, Handle(0x58)), Ok(()));
    assert_eq!(*seen.borrow(), vec![(0xc4, 0x58), (0xf, 0x58)]);
    let bad = |_f: TrapFrame| -> usize { STATUS_INVALID_HANDLE };
    assert_eq!(wait(bad, Handle(1)), Err(NtStatus(0xc000_0008)));
    assert_eq!(close(bad, Handle(1)), Err(NtStatus(0xc000_0008)));
}

#[test]
fn thread_context_registers() {
    let c = thread_context(0x8040_1234, 0x1000, 0x2000, 0x10_0000, STACK_SIZE);
    assert_eq!(c.flags, 7);
    assert_eq!(c.fir, 0x8040_1234);
    assert_eq!(c.int[4], 0x1000);
    assert_eq!(c.int[5], 0x2000);
    assert_eq!(c.int[6], 0x10_0000);
    assert_eq!(c.int[29], 0x10_1000);
    for i in 0..34 {
        if ![4, 5, 6, 29].contains(&i) {
            assert_eq!(c.int[i], 0);
        }
    }
    assert!(c.fp.iter().all(|r| *r == 0));
    assert_eq!((c.fill1, c.fill2, c.fsr, c.psr), (0, 0, 0, 0));
    let whole = Context { bits64: c };
    assert_eq!(whole.bits64.int[29], 0x10_1000);
}

#[test]
fn context_builder_steps() {
    let c = Context64::zeroed().with_entry(9).with_arg(3, 77).with_stack(500).with_flags(1);
    assert_eq!(c.fir, 9);
    assert_eq!(c.int[7], 77);
    assert_eq!(c.int[29], 500);
    assert_eq!(c.flags, 1);
}

#[test]
fn thread_exit_frees_stack_then_terminates() {
    let (free, end) = exit_calls(0x500, 0x508);
    assert_eq!(free.opcode, 0x3a);
    assert_eq!(free.args, vec![usize::MAX, 0x500, 0x508, 0x8000]);
    assert_eq!(end.opcode, 0xbb);
    assert_eq!(end.args, vec![usize::MAX - 1, 0]);
}

fn finish_join<T>(
    h: JoinHandle<T>,
    kernel: impl Fn(TrapFrame) -> usize + Copy,
    cell: ResultCell<T>,
) -> Result<T, JoinError> {
    let exited = h.join(kernel)?;
    let closed = exited.close(kernel)?;
    closed.claim(cell)
}

#[test]
fn sequential_spawn_join_pairs_return_their_values() {
    let kernel = |_f: TrapFrame| -> usize { 0 };
    for n in 0..16u64 {
        let mut cell: ResultCell<u64> = ResultCell::new();
        assert_eq!(cell.referents(), 2);
        let h: JoinHandle<u64> = spawned(0, 0x80 + n as usize).ok().unwrap();
        // the new thread's side, after creation returned
        run_work(move || n * n + 1, &mut cell);
        assert!(cell.is_stored());
        assert_eq!(cell.referents(), 1);
        assert_eq!(finish_join(h, kernel, cell), Ok(n * n + 1));
    }
}

#[test]
fn join_waits_then_closes_the_thread_handle() {
    let seen: RefCell<Vec<(usize, usize)>> = RefCell::new(Vec::new());
    let kernel = |f: TrapFrame| -> usize {
        seen.borrow_mut().push((f.v0, f.a0));
        0
    };
    let mut cell = ResultCell::new();
    let h = spawned(0, 0x66).ok().unwrap();
    run_work(|| String::from("done"), &mut cell);
    let exited = h.join(kernel).ok().unwrap();
    assert_eq!(*seen.borrow(), vec![(0xc4, 0x66)]);
    let closed = exited.close(kernel).ok().unwrap();
    assert_eq!(*seen.borrow(), vec![(0xc4, 0x66), (0xf, 0x66)]);
    assert_eq!(closed.claim(cell), Ok(String::from("done")));
}

#[test]
fn spawn_failure_is_reported() {
    assert_eq!(spawned::<u8>(STATUS_NO_MEMORY, 0).err(), Some(NtStatus(0xc000_0017)));
}

#[test]
fn join_wait_failure() {
    let kernel = |f: TrapFrame| -> usize { if f.v0 == 0xc4 { STATUS_INVALID_HANDLE } else { 0 } };
    let h = spawned::<u8>(0, 5).ok().unwrap();
    assert_eq!(h.join(kernel).err(), Some(JoinError::Wait(NtStatus(0xc000_0008))));
}

#[test]
fn join_close_failure() {
    let kernel = |f: TrapFrame| -> usize { if f.v0 == 0xf { STATUS_INVALID_HANDLE } else { 0 } };
    let mut cell = ResultCell::new();
    let h = spawned(0, 5).ok().unwrap();
    run_work(|| 1u8, &mut cell);
    assert_eq!(finish_join(h, kernel, cell), Err(JoinError::Close(NtStatus(0xc000_0008))));
}

#[test]
fn join_refuses_cell_still_shared() {
    let kernel = |_f: TrapFrame| -> usize { 0 };
    let mut cell = ResultCell::new();
    let h = spawned(0, 5).ok().unwrap();
    cell.store(4u8);
    assert_eq!(finish_join(h, kernel, cell), Err(JoinError::Shared));
}

#[test]
fn claim_needs_sole_referent() {
    let mut cell = ResultCell::new();
    cell.store(10u32);
    let mut other = ResultCell::new();
    other.store(10u32);
    other.release();
    assert_eq!(cell.claim(), None);
    assert_eq!(other.claim(), Some(10));
}

#[test]
fn allocator_reserve_and_release() {
    let mut a = VmAllocator::new();
    let c = a.reserve_call(0x10, 0x18);
    assert_eq!(c.opcode, 0xa);
    assert_eq!(c.args, vec![usize::MAX, 0x10, 0, 0x18, 0x3000, 4]);
    let addr = a.reserved(0, 0x5_0000);
    assert_eq!(addr, 0x5_0000);
    let r = a.release_call(addr, 0x20, 0x28);
    assert_eq!(r.opcode, 0x3a);
    assert_eq!(r.args, vec![usize::MAX, 0x20, 0x28, 0x8000]);
    assert_eq!(a.released(addr, 0), Ok(()));
}

#[test]
fn allocator_failure_gives_null() {
    let mut a = VmAllocator::new();
    assert_eq!(a.reserved(STATUS_NO_MEMORY, 0x5_0000), NULL);
    assert_eq!(NULL, 0);
}

#[test]
fn allocator_release_failure_is_returned() {
    let mut a = VmAllocator::new();
    let addr = a.reserved(0, 0x9000);
    assert_eq!(a.released(addr, STATUS_ACCESS_VIOLATION), Err(NtStatus(0xc000_0005)));
}

#[test]
fn console_writes_append_at_advancing_offsets() {
    let mut w = Writer::new(Handle(0x2c));
    assert_eq!(w.handle(), Handle(0x2c));
    let mut sink: Vec<u8> = Vec::new();
    let mut offsets: Vec<u64> = Vec::new();
    for text in ["AB", "CDE"] {
        let bytes = text.as_bytes();
        let off = w.position();
        let call = w.write_call(0x100, 0x200, bytes.len(), 0x300);
        assert_eq!(call.opcode, 0xc7);
        assert_eq!(call.args, vec![0x2c, 0, 0, 0, 0x100, 0x200, bytes.len(), 0x300, 0]);
        offsets.push(off);
        assert_eq!(sink.len() as u64, off);
        sink.extend_from_slice(bytes);
        let iosb = IoStatusBlock { status: NtStatus(0), information: bytes.len() };
        assert_eq!(w.wrote(0, &iosb), Ok(bytes.len()));
    }
    assert_eq!(sink, b"ABCDE".to_vec());
    assert_eq!(offsets, vec![0, 2]);
    assert_eq!(w.position(), 5);
}

#[test]
fn console_failed_write_keeps_offset() {
    let mut w = Writer::new(Handle(1));
    let iosb = IoStatusBlock { status: NtStatus(0), information: 3 };
    assert_eq!(w.wrote(STATUS_INVALID_HANDLE, &iosb), Err(NtStatus(0xc000_0008)));
    assert_eq!(w.position(), 0);
    let short = IoStatusBlock { status: NtStatus(0), information: 1 };
    assert_eq!(w.wrote(0, &short), Ok(1));
    assert_eq!(w.position(), 1);
}

#[test]
fn xorshift_values() {
    let mut r = Rng::new(1);
    assert_eq!(r.next(), 0x0100_0800_0000_2001);
    assert_eq!(r.next(), 0x0010_0000_0000_0201);
    assert_eq!(r.next(), 0x0101_0808_0040_2221);
}

#[test]
fn worker_seeds() {
    assert_eq!(worker_seed(0), 0xe06fc2cdf7b80594);
    assert_eq!(worker_seed(7), 0xe06fc2cdf7b8059b);
    assert_eq!(SEED_BASE, 0xe06fc2cdf7b80594);
    assert_eq!(worker_seed(0x1f90_3d32_0847_fa6c), 0);
}

#[test]
fn fuzz_round_draws_arguments_then_opcode() {
    let mut rng = Rng::new(worker_seed(0));
    let mut expect = Rng::new(worker_seed(0));
    let words: Vec<usize> = (0..10).map(|_| expect.next() as usize).collect();
    assert_eq!(words[0] as u64, 0xa7c6f821c917fe11);
    let seen: RefCell<Option<(usize, Vec<usize>)>> = RefCell::new(None);
    let trap = |f: TrapFrame| -> usize {
        let mut got = vec![f.a0, f.a1, f.a2, f.a3];
        got.extend_from_slice(&f.stack);
        *seen.borrow_mut() = Some((f.v0, got));
        42
    };
    assert_eq!(fuzz_round(trap, &mut rng), 42);
    let (v0, got) = seen.borrow().clone().unwrap();
    assert_eq!(v0, words[9]);
    assert_eq!(got, words);
    assert_eq!(rng.next(), expect.next());
}

#[test]
fn five_byte_payload_frame() {
    let payload = vec![0xde, 0xad, 0xbe, 0xef, 0x00];
    assert_eq!(frame_payload(&payload), vec![5, 0, 0, 0, 0xde, 0xad, 0xbe, 0xef, 0x00]);
    let other = b"hello".to_vec();
    assert_eq!(frame_payload(&other), b"\x05\x00\x00\x00hello".to_vec());
}

#[test]
fn empty_and_long_payload_frames() {
    assert_eq!(frame_payload(&vec![]), vec![0, 0, 0, 0]);
    let long = vec![7u8; 0x1_0203];
    let framed = frame_payload(&long);
    assert_eq!(&framed[..4], &[0x03, 0x02, 0x01, 0x00]);
    assert_eq!(framed.len(), 4 + 0x1_0203);
    assert_eq!(to_le_bytes(0x0102_0304), [4, 3, 2, 1]);
    assert_eq!(to_le_bytes(u32::MAX), [0xff; 4]);
}

#[test]
fn spawn_prepares_context_and_create_call() {
    let start = ntrt::thread::spawn(0x8000_0100, 0x1000, 0x2000, 0x40_0000, 0x10, 0x20, 0x30, 0x40);
    let c = start.context.bits64;
    assert_eq!(c.fir, 0x8000_0100);
    assert_eq!((c.int[4], c.int[5], c.int[6]), (0x1000, 0x2000, 0x40_0000));
    assert_eq!(c.int[29], 0x40_1000);
    assert_eq!(c.flags, 7);
    assert_eq!(start.call.opcode, 0x24);
    assert_eq!(start.call.args, vec![0x10, 0x1f03ff, 0, usize::MAX, 0x20, 0x30, 0x40, 0]);
}

#[test]
fn context_words_in_kernel_order() {
    let c = thread_context(0x8000_0100, 0x1000, 0x2000, 0x1_0000_0000, STACK_SIZE);
    let words = c.to_words();
    assert_eq!(words.len(), 138);
    assert!(words[..64].iter().all(|w| *w == 0));
    assert_eq!(&words[64..70], &[0, 0, 0, 0x8000_0100, 0, 7]);
    assert_eq!((words[78], words[79]), (0x1000, 0));
    assert_eq!((words[80], words[81]), (0x2000, 0));
    assert_eq!((words[82], words[83]), (0, 1));
    assert_eq!((words[128], words[129]), (0x1000, 1));
}
