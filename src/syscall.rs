//! The kernel operations the runtime is built on: which opcode and which
//! words each one is issued with, and how its result word is read.
//!
//! Arguments that the kernel reads or fills through a pointer (a base
//! address, a region size, a status block) are passed as the address of the
//! caller's slot; the caller puts the input value there before the call and
//! reads the output value back after it.

use vstd::prelude::*;
use crate::mips::{accepts, invoke, trapped, Syscall, TrapFrame, MAX_ARGS};
use crate::status::{Handle, NtStatus};

verus! {

/// Pseudo-handle for the current process.
pub const CURRENT_PROCESS: usize = usize::MAX;

/// Pseudo-handle for the current thread.
pub const CURRENT_THREAD: usize = usize::MAX - 1;

/// Commit memory.
pub const MEM_COMMIT: usize = 0x1000;

/// Reserve a memory range.
pub const MEM_RESERVE: usize = 0x2000;

/// Release a whole memory range.
pub const MEM_RELEASE: usize = 0x8000;

/// Readable and writable memory.
pub const PAGE_READWRITE: usize = 0x4;

/// Every access right on a thread object.
pub const THREAD_ALL_ACCESS: usize = 0x1f03ff;

/// One syscall to issue: its opcode and its word arguments.
#[derive(Debug)]
pub struct Invocation {
    pub opcode: usize,
    pub args: Vec<usize>,
}

impl Invocation {
    /// The invocation is operation `op` with exactly `args`.
    pub open spec fn is(self, op: Syscall, args: Seq<usize>) -> bool {
        self.opcode == op.opcode() && self.args@ == args
    }

    /// Issues the invocation through `trap` and returns the raw result word.
    pub fn issue<K: FnOnce(TrapFrame) -> usize>(&self, trap: K) -> (r: usize)
        requires
            self.args@.len() <= MAX_ARGS,
            accepts(trap, self.opcode, self.args@),
        ensures
            trapped(trap, self.opcode, self.args@, r),
    {
        invoke(trap, self.opcode, &self.args)
    }
}

fn make(op: Syscall, args: Vec<usize>) -> (r: Invocation)
    ensures
        r.is(op, args@),
{
    Invocation { opcode: op.number(), args }
}

/// What a result word means for an operation whose success yields `value`.
pub open spec fn outcome<T>(raw: usize, value: T) -> Result<T, NtStatus> {
    if NtStatus::of_word(raw).is_success() {
        Ok(value)
    } else {
        Err(NtStatus::of_word(raw))
    }
}

/// `r` is how the result word that `trap` returned for a call of `opcode`
/// with `args` reads, for an operation whose success yields `value`.
pub open spec fn settled_by<K: FnOnce(TrapFrame) -> usize, T>(
    trap: K,
    opcode: usize,
    args: Seq<usize>,
    value: T,
    r: Result<T, NtStatus>,
) -> bool {
    exists|raw: usize| #[trigger] trapped(trap, opcode, args, raw) && r == outcome(raw, value)
}

/// Reads a result word: `value` on success, the status as the error
/// otherwise.
pub fn settle<T>(raw: usize, value: T) -> (r: Result<T, NtStatus>)
    ensures
        r == outcome(raw, value),
{
    let status = NtStatus::from_word(raw);
    if status.success() {
        Ok(value)
    } else {
        Err(status)
    }
}

/// Commits and reserves read-write memory in the current process. The slot
/// at `base_slot` holds the address hint (zero for none) and receives the
/// address of the region; the slot at `size_slot` holds the size, which is
/// passed unrounded, and receives the size the kernel mapped.
pub fn mmap_call(base_slot: usize, size_slot: usize) -> (r: Invocation)
    ensures
        r.is(
            Syscall::AllocateVirtualMemory,
            seq![CURRENT_PROCESS, base_slot, 0, size_slot, MEM_COMMIT | MEM_RESERVE, PAGE_READWRITE],
        ),
{
    make(
        Syscall::AllocateVirtualMemory,
        vec![CURRENT_PROCESS, base_slot, 0, size_slot, MEM_COMMIT | MEM_RESERVE, PAGE_READWRITE],
    )
}

/// Releases the whole region whose base address is in the slot at
/// `base_slot`; the slot at `size_slot` holds zero, which asks for the whole
/// region.
pub fn munmap_call(base_slot: usize, size_slot: usize) -> (r: Invocation)
    ensures
        r.is(Syscall::FreeVirtualMemory, seq![CURRENT_PROCESS, base_slot, size_slot, MEM_RELEASE]),
{
    make(Syscall::FreeVirtualMemory, vec![CURRENT_PROCESS, base_slot, size_slot, MEM_RELEASE])
}

/// Writes `len` bytes at address `buf` to the file `fd`, at the byte offset
/// held in the slot at `offset_slot`; the kernel fills the status block at
/// `iosb_slot`.
pub fn write_call(fd: Handle, iosb_slot: usize, buf: usize, len: usize, offset_slot: usize) -> (r:
    Invocation)
    ensures
        r.is(Syscall::WriteFile, seq![fd.0, 0, 0, 0, iosb_slot, buf, len, offset_slot, 0]),
{
    make(Syscall::WriteFile, vec![fd.0, 0, 0, 0, iosb_slot, buf, len, offset_slot, 0])
}

/// Creates a running thread in the current process from the register
/// snapshot at `context`, with the initial thread block at `teb`. The kernel
/// writes the new thread's handle into the slot at `handle_slot` and its
/// client id into the two words at `client_id_slot`.
pub fn create_thread_call(handle_slot: usize, client_id_slot: usize, context: usize, teb: usize) -> (r:
    Invocation)
    ensures
        r.is(
            Syscall::CreateThread,
            seq![handle_slot, THREAD_ALL_ACCESS, 0, CURRENT_PROCESS, client_id_slot, context, teb, 0],
        ),
{
    make(
        Syscall::CreateThread,
        vec![handle_slot, THREAD_ALL_ACCESS, 0, CURRENT_PROCESS, client_id_slot, context, teb, 0],
    )
}

/// Blocks, without an alert and without a timeout, until `handle` is
/// signalled.
pub fn wait_call(handle: Handle) -> (r: Invocation)
    ensures
        r.is(Syscall::WaitForSingleObject, seq![handle.0, 0, 0]),
{
    make(Syscall::WaitForSingleObject, vec![handle.0, 0, 0])
}

/// Closes `handle`.
pub fn close_call(handle: Handle) -> (r: Invocation)
    ensures
        r.is(Syscall::Close, seq![handle.0]),
{
    let args: Vec<usize> = vec![handle.0];
    assert(args@ =~= seq![handle.0]);
    make(Syscall::Close, args)
}

/// Ends the current thread with exit status `code`.
pub fn exit_thread_call(code: usize) -> (r: Invocation)
    ensures
        r.is(Syscall::TerminateThread, seq![CURRENT_THREAD, code]),
{
    make(Syscall::TerminateThread, vec![CURRENT_THREAD, code])
}

/// Ends the current process with exit status `code`.
pub fn exit_call(code: usize) -> (r: Invocation)
    ensures
        r.is(Syscall::TerminateProcess, seq![CURRENT_PROCESS, code]),
{
    make(Syscall::TerminateProcess, vec![CURRENT_PROCESS, code])
}

/// Blocks on `handle` until it is signalled, through `trap`.
pub fn wait<K: FnOnce(TrapFrame) -> usize>(trap: K, handle: Handle) -> (r: Result<(), NtStatus>)
    requires
        accepts(trap, Syscall::WaitForSingleObject.opcode(), seq![handle.0, 0, 0]),
    ensures
        settled_by(trap, Syscall::WaitForSingleObject.opcode(), seq![handle.0, 0, 0], (), r),
{
    let call = wait_call(handle);
    let raw = call.issue(trap);
    settle(raw, ())
}

/// Closes `handle` through `trap`.
pub fn close<K: FnOnce(TrapFrame) -> usize>(trap: K, handle: Handle) -> (r: Result<(), NtStatus>)
    requires
        accepts(trap, Syscall::Close.opcode(), seq![handle.0]),
    ensures
        settled_by(trap, Syscall::Close.opcode(), seq![handle.0], (), r),
{
    let call = close_call(handle);
    let raw = call.issue(trap);
    settle(raw, ())
}

} // verus!
