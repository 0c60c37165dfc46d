//! Thread creation and joining: the register snapshot a new thread starts
//! from, the cell through which its result travels back, and the steps of a
//! join.

use vstd::prelude::*;
use crate::mips::{
    accepts, Context, Context64, Syscall, TrapFrame, CONTEXT_CONTROL, CONTEXT_FLOATING_POINT,
    CONTEXT_INTEGER, STACK_REG,
};
use crate::status::{Handle, NtStatus};
use crate::syscall::{
    close, create_thread_call, exit_thread_call, munmap_call, settle, settled_by, wait, Invocation, CURRENT_PROCESS,
    CURRENT_THREAD, MEM_RELEASE, THREAD_ALL_ACCESS,
};

verus! {

/// Size in bytes of the stack each spawned thread gets.
pub const STACK_SIZE: usize = 4096;

/// The registers a spawned thread starts with: execution at `entry`; the
/// address of its work in `$a0`, of its result cell in `$a1`, and the base
/// of its stack in `$a2`, so that it can free the stack before it ends; the
/// stack pointer at the top of the stack; everything else zero.
pub open spec fn starts_thread(
    c: Context64,
    entry: usize,
    work: usize,
    cell: usize,
    stack_base: usize,
    stack_len: usize,
) -> bool {
    &&& c.flags == CONTEXT_CONTROL | CONTEXT_FLOATING_POINT | CONTEXT_INTEGER
    &&& c.fir == entry as u32
    &&& c.int@ == Seq::new(
        34,
        |i: int|
            if i == 4 {
                work as u64
            } else if i == 5 {
                cell as u64
            } else if i == 6 {
                stack_base as u64
            } else if i == STACK_REG {
                (stack_base + stack_len) as u64
            } else {
                0u64
            },
    )
    &&& forall|i: int| 0 <= i < 32 ==> c.fp@[i] == 0
    &&& c.fill1 == 0 && c.fill2 == 0 && c.fsr == 0 && c.psr == 0
}

/// Builds the snapshot a spawned thread starts from (see `starts_thread`).
pub fn thread_context(entry: usize, work: usize, cell: usize, stack_base: usize, stack_len: usize) -> (c:
    Context64)
    requires
        stack_base + stack_len <= usize::MAX,
    ensures
        starts_thread(c, entry, work, cell, stack_base, stack_len),
{
    let top = stack_base + stack_len;
    let c = Context64::zeroed()
        .with_flags(CONTEXT_CONTROL | CONTEXT_FLOATING_POINT | CONTEXT_INTEGER)
        .with_entry(entry as u32)
        .with_arg(0, work as u64)
        .with_arg(1, cell as u64)
        .with_arg(2, stack_base as u64)
        .with_stack(top as u64);
    assert(c.int@ =~= Seq::new(
        34,
        |i: int|
            if i == 4 {
                work as u64
            } else if i == 5 {
                cell as u64
            } else if i == 6 {
                stack_base as u64
            } else if i == STACK_REG {
                (stack_base + stack_len) as u64
            } else {
                0u64
            },
    ));
    c
}

/// What the kernel is handed to start a thread: the register snapshot and
/// the thread-creation call that points at it.
pub struct ThreadStart {
    pub context: Context,
    pub call: Invocation,
}

/// Prepares a thread that runs the work at address `work` through the
/// trampoline at `entry`, on the fresh stack of `STACK_SIZE` bytes at
/// `stack_base`, handing its result back through the cell at `cell`. The
/// snapshot is to be stored at `context_addr` and the initial thread block
/// at `teb`; the kernel fills the slots at `handle_slot` and
/// `client_id_slot`. The thread's handle is read back with `spawned`.
///
/// The thread is created running (the call's last word, `CreateSuspended`,
/// is zero), and nothing here waits for it: the work may run before the
/// creation call has even returned, and whether or not it is ever joined.
///
/// If creation fails, no thread ever saw the work, the cell or the stack:
/// all three stay the caller's, and the caller frees them (the stack with
/// `VmAllocator::release_call`, the work and both referents of the cell by
/// dropping them).
pub fn spawn(
    entry: usize,
    work: usize,
    cell: usize,
    stack_base: usize,
    handle_slot: usize,
    client_id_slot: usize,
    context_addr: usize,
    teb: usize,
) -> (r: ThreadStart)
    requires
        stack_base + STACK_SIZE <= usize::MAX,
    ensures
        starts_thread(r.context.bits64, entry, work, cell, stack_base, STACK_SIZE),
        r.call.is(
            Syscall::CreateThread,
            seq![handle_slot, THREAD_ALL_ACCESS, 0, CURRENT_PROCESS, client_id_slot, context_addr, teb, 0],
        ),
{
    let context = Context { bits64: thread_context(entry, work, cell, stack_base, STACK_SIZE) };
    let call = create_thread_call(handle_slot, client_id_slot, context_addr, teb);
    ThreadStart { context, call }
}

/// The two calls a spawned thread ends with, issued back to back: release
/// its own stack, whose base is in the slot at `stack_slot` (the slot at
/// `size_slot` holds zero), then end the thread with status zero. Once the
/// first is issued the thread owns no memory, so nothing may touch memory
/// before the second. The pair is for the start routine's own trap code,
/// which issues both from registers: `Invocation::issue` lays a call out in
/// newly allocated memory and must not be used for them.
pub fn exit_calls(stack_slot: usize, size_slot: usize) -> (r: (Invocation, Invocation))
    ensures
        r.0.is(Syscall::FreeVirtualMemory, seq![CURRENT_PROCESS, stack_slot, size_slot, MEM_RELEASE]),
        r.1.is(Syscall::TerminateThread, seq![CURRENT_THREAD, 0]),
{
    (munmap_call(stack_slot, size_slot), exit_thread_call(0))
}

/// The state of a result cell: the value it holds, if any, and how many
/// referents it has.
pub type CellState<T> = (Option<T>, nat);

/// A fresh cell: empty, held by the joiner and by the spawned thread.
pub open spec fn fresh_cell<T>() -> CellState<T> {
    (None, 2)
}

/// The cell after the spawned thread stores `value`.
pub open spec fn stored<T>(c: CellState<T>, value: T) -> CellState<T> {
    (Some(value), c.1)
}

/// The cell after one referent lets it go.
pub open spec fn released<T>(c: CellState<T>) -> CellState<T> {
    (c.0, (c.1 - 1) as nat)
}

/// What the joiner takes out of the cell: its value, and only once it is
/// the cell's sole referent.
pub open spec fn claimed<T>(c: CellState<T>) -> Option<T> {
    if c.1 == 1 {
        c.0
    } else {
        None
    }
}

/// A spawned thread that stores its work's value and then lets go of the
/// cell leaves its joiner as the sole referent, and the joiner claims exactly
/// that value.
pub proof fn lemma_joiner_claims_stored_value<T>(v: T)
    ensures
        released(stored(fresh_cell::<T>(), v)).1 == 1,
        claimed(released(stored(fresh_cell::<T>(), v))) == Some(v),
        claimed(stored(fresh_cell::<T>(), v)) is None,
{
}

/// Single-write storage for a spawned thread's result, with its two
/// referents: the spawned thread's and the joiner's. The thread stores its
/// result once and then lets go of its referent; the joiner takes the value
/// out only after the kernel has confirmed that the thread ended and its
/// handle is closed (see `Closed::claim`), and only as the sole referent.
pub struct ResultCell<T> {
    value: Option<T>,
    referents: usize,
}

impl<T> View for ResultCell<T> {
    type V = CellState<T>;

    closed spec fn view(&self) -> CellState<T> {
        (self.value, self.referents as nat)
    }
}

impl<T> ResultCell<T> {
    /// An empty cell with its two referents.
    pub fn new() -> (r: ResultCell<T>)
        ensures
            r@ == fresh_cell::<T>(),
    {
        ResultCell { value: None, referents: 2 }
    }

    /// Whether the cell holds a value.
    pub fn is_stored(&self) -> (r: bool)
        ensures
            r == self@.0 is Some,
    {
        self.value.is_some()
    }

    /// How many referents the cell has.
    pub fn referents(&self) -> (r: usize)
        ensures
            r == self@.1,
    {
        self.referents
    }

    /// Stores the thread's result; the cell is written only once.
    pub fn store(&mut self, value: T)
        requires
            old(self)@.0 is None,
        ensures
            final(self)@ == stored(old(self)@, value),
    {
        self.value = Some(value);
    }

    /// Lets go of one of the two referents.
    pub fn release(&mut self)
        requires
            old(self)@.1 == 2,
        ensures
            final(self)@ == released(old(self)@),
    {
        self.referents = self.referents - 1;
    }

    /// Takes the value out, which only the sole referent may do.
    pub fn claim(self) -> (r: Option<T>)
        ensures
            r == claimed(self@),
    {
        if self.referents == 1 {
            self.value
        } else {
            None
        }
    }
}

/// The spawned thread's side of the hand-off: runs the work it was given,
/// stores what the work returned in the cell, and lets go of the cell.
pub fn run_work<T, F: FnOnce() -> T>(work: F, cell: &mut ResultCell<T>)
    requires
        old(cell)@ == fresh_cell::<T>(),
        work.requires(()),
    ensures
        exists|v: T| #[trigger] work.ensures((), v) && final(cell)@ == released(stored(fresh_cell::<T>(), v)),
{
    let v = work();
    cell.store(v);
    cell.release();
}

/// A joinable thread: its kernel handle. Joining takes three steps, each
/// consuming the state before it, so they come only in this order and each
/// only once: `join` waits for the thread to end, `Exited::close` closes its
/// handle, and `Closed::claim` takes the result out of the thread's cell.
pub struct JoinHandle<T> {
    thread: Handle,
    result: std::marker::PhantomData<T>,
}

/// A joined thread that the kernel reported ended; its handle is still open.
pub struct Exited<T> {
    thread: Handle,
    result: std::marker::PhantomData<T>,
}

/// A thread that ended and whose handle is closed; its result is yet to be
/// claimed.
pub struct Closed<T> {
    thread: Handle,
    result: std::marker::PhantomData<T>,
}

/// Why a join failed. Each of these leaves the process in a state it cannot
/// recover from; the caller is to terminate it.
#[derive(Clone, Copy, Debug, PartialEq, Eq, Structural)]
pub enum JoinError {
    /// Waiting for the thread failed with this status.
    Wait(NtStatus),
    /// Closing the thread's handle failed with this status.
    Close(NtStatus),
    /// The result cell still had another referent, or held no value.
    Shared,
}

/// The words of a wait on `thread`.
pub open spec fn wait_args(thread: Handle) -> Seq<usize> {
    seq![thread.0, 0, 0]
}

/// The words of a close of `thread`.
pub open spec fn close_args(thread: Handle) -> Seq<usize> {
    seq![thread.0]
}

/// Reads the result word of a thread creation whose handle slot came back
/// holding `thread`: the joinable thread on success, the status otherwise.
/// On failure the work, the cell and the stack are still the caller's to
/// free (see `spawn`).
pub fn spawned<T>(raw: usize, thread: usize) -> (r: Result<JoinHandle<T>, NtStatus>)
    ensures
        r is Ok <==> NtStatus::of_word(raw).is_success(),
        r is Err ==> r->Err_0 == NtStatus::of_word(raw),
        r is Ok ==> r->Ok_0.thread() == Handle(thread),
{
    match settle(raw, Handle(thread)) {
        Ok(h) => Ok(JoinHandle { thread: h, result: std::marker::PhantomData }),
        Err(s) => Err(s),
    }
}

impl<T> JoinHandle<T> {
    /// The kernel handle of the thread.
    pub closed spec fn thread(&self) -> Handle {
        self.thread
    }

    /// Joins the thread: blocks until the kernel reports that it ended.
    /// The handle is consumed, so a thread is joined at most once.
    pub fn join<K: FnOnce(TrapFrame) -> usize>(self, trap: K) -> (r: Result<Exited<T>, JoinError>)
        requires
            accepts(trap, Syscall::WaitForSingleObject.opcode(), wait_args(self.thread())),
        ensures
            r is Ok ==> r->Ok_0.thread() == self.thread(),
            match r {
                Ok(_) => settled_by(
                    trap,
                    Syscall::WaitForSingleObject.opcode(),
                    wait_args(self.thread()),
                    (),
                    Ok(()),
                ),
                Err(JoinError::Wait(s)) => settled_by(
                    trap,
                    Syscall::WaitForSingleObject.opcode(),
                    wait_args(self.thread()),
                    (),
                    Err(s),
                ),
                Err(_) => false,
            },
    {
        match wait(trap, self.thread) {
            Ok(()) => Ok(Exited { thread: self.thread, result: std::marker::PhantomData }),
            Err(s) => Err(JoinError::Wait(s)),
        }
    }
}

impl<T> Exited<T> {
    /// The kernel handle of the thread.
    pub closed spec fn thread(&self) -> Handle {
        self.thread
    }

    /// Closes the handle of the thread, which has ended.
    pub fn close<K: FnOnce(TrapFrame) -> usize>(self, trap: K) -> (r: Result<Closed<T>, JoinError>)
        requires
            accepts(trap, Syscall::Close.opcode(), close_args(self.thread())),
        ensures
            r is Ok ==> r->Ok_0.thread() == self.thread(),
            match r {
                Ok(_) => settled_by(trap, Syscall::Close.opcode(), close_args(self.thread()), (), Ok(())),
                Err(JoinError::Close(s)) => settled_by(
                    trap,
                    Syscall::Close.opcode(),
                    close_args(self.thread()),
                    (),
                    Err(s),
                ),
                Err(_) => false,
            },
    {
        match close(trap, self.thread) {
            Ok(()) => Ok(Closed { thread: self.thread, result: std::marker::PhantomData }),
            Err(s) => Err(JoinError::Close(s)),
        }
    }
}

impl<T> Closed<T> {
    /// The kernel handle the thread had.
    pub closed spec fn thread(&self) -> Handle {
        self.thread
    }

    /// Takes the thread's result out of its cell. The thread has ended, so it
    /// stored its result and let go of the cell before this; the value comes
    /// out only if the joiner is now the cell's sole referent.
    pub fn claim(self, cell: ResultCell<T>) -> (r: Result<T, JoinError>)
        ensures
            match claimed(cell@) {
                Some(v) => r == Ok::<T, JoinError>(v),
                None => r == Err::<T, JoinError>(JoinError::Shared),
            },
    {
        match cell.claim() {
            Some(v) => Ok(v),
            None => Err(JoinError::Shared),
        }
    }
}

} // verus!
