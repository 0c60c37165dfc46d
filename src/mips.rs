//! The MIPS side of the kernel ABI: the opcode table, the register layout
//! that the kernel's trap handler expects, and the register snapshot a new
//! thread starts from.
//!
//! The kernel reads a call the way the o32 convention passes parameters: the
//! first four in `$a0`..`$a3`, the rest in stack slots starting at
//! `0x10($sp)`. A syscall routine takes the opcode as its last parameter and
//! copies it into `$v0` just before the trap, so the opcode also sits in the
//! parameter slot right after the last argument.

use vstd::prelude::*;

verus! {

/// Number of parameters that travel in the argument registers.
pub const REGISTER_PARAMS: usize = 4;

/// Largest number of word arguments a syscall can take.
pub const MAX_ARGS: usize = 9;

/// Kernel operations the runtime uses.
#[derive(Clone, Copy, Debug, PartialEq, Eq, Structural)]
pub enum Syscall {
    /// `NtAllocateVirtualMemory`
    AllocateVirtualMemory,
    /// `NtClose`
    Close,
    /// `NtCreateThread`
    CreateThread,
    /// `NtFreeVirtualMemory`
    FreeVirtualMemory,
    /// `NtOpenFile`
    OpenFile,
    /// `NtTerminateProcess`
    TerminateProcess,
    /// `NtTerminateThread`
    TerminateThread,
    /// `NtWaitForSingleObject`
    WaitForSingleObject,
    /// `NtWriteFile`
    WriteFile,
}

impl Syscall {
    /// The opcode of each operation on this kernel.
    pub open spec fn opcode(self) -> usize {
        match self {
            Syscall::AllocateVirtualMemory => 0xa,
            Syscall::Close => 0xf,
            Syscall::CreateThread => 0x24,
            Syscall::FreeVirtualMemory => 0x3a,
            Syscall::OpenFile => 0x4f,
            Syscall::TerminateProcess => 0xba,
            Syscall::TerminateThread => 0xbb,
            Syscall::WaitForSingleObject => 0xc4,
            Syscall::WriteFile => 0xc7,
        }
    }

    /// The opcode to place in `$v0` for this operation.
    pub fn number(self) -> (r: usize)
        ensures
            r == self.opcode(),
    {
        match self {
            Syscall::AllocateVirtualMemory => 0xa,
            Syscall::Close => 0xf,
            Syscall::CreateThread => 0x24,
            Syscall::FreeVirtualMemory => 0x3a,
            Syscall::OpenFile => 0x4f,
            Syscall::TerminateProcess => 0xba,
            Syscall::TerminateThread => 0xbb,
            Syscall::WaitForSingleObject => 0xc4,
            Syscall::WriteFile => 0xc7,
        }
    }
}

/// The machine state the kernel sees when the trap instruction executes.
#[derive(Debug)]
pub struct TrapFrame {
    /// The syscall-number register.
    pub v0: usize,
    /// The four argument registers, `$a0`..`$a3`.
    pub a0: usize,
    pub a1: usize,
    pub a2: usize,
    pub a3: usize,
    /// The words at `0x10($sp)`, `0x14($sp)`, ... in order.
    pub stack: Vec<usize>,
}

/// The o32 parameter list of a syscall routine: its arguments, then the
/// opcode.
pub open spec fn params_of(opcode: usize, args: Seq<usize>) -> Seq<usize> {
    args.push(opcode)
}

impl TrapFrame {
    /// The word in parameter slot `i`: a register for the first four, a
    /// stack slot after that, and zero where nothing was passed.
    pub open spec fn slot(self, i: int) -> usize {
        if i == 0 {
            self.a0
        } else if i == 1 {
            self.a1
        } else if i == 2 {
            self.a2
        } else if i == 3 {
            self.a3
        } else if 4 <= i < 4 + self.stack@.len() {
            self.stack@[i - 4]
        } else {
            0
        }
    }

    /// The first `n` parameter slots, as the kernel reads them.
    pub open spec fn kernel_args(self, n: nat) -> Seq<usize> {
        Seq::new(n, |i: int| self.slot(i))
    }

    /// The frame is the one a call of `opcode` with `args` produces: the
    /// opcode is in `$v0`, the parameters fill the slots in order, and no
    /// slot beyond them holds anything.
    pub open spec fn carries(self, opcode: usize, args: Seq<usize>) -> bool {
        let p = params_of(opcode, args);
        &&& self.v0 == opcode
        &&& self.stack@.len() == (if p.len() > 4 { p.len() - 4 } else { 0 })
        &&& forall|i: int| 0 <= i < p.len() ==> #[trigger] self.slot(i) == p[i]
        &&& forall|i: int| p.len() <= i < 4 ==> #[trigger] self.slot(i) == 0
    }
}

/// Lays out a call of `opcode` with `args` as the kernel's trap expects it.
pub fn frame_for(opcode: usize, args: &Vec<usize>) -> (f: TrapFrame)
    requires
        args@.len() <= MAX_ARGS,
    ensures
        f.carries(opcode, args@),
{
    let ghost p = params_of(opcode, args@);
    let mut params: Vec<usize> = args.clone();
    params.push(opcode);
    assert(params@ == p);
    let n = params.len();
    let a0 = params[0];
    let a1 = if n > 1 { params[1] } else { 0 };
    let a2 = if n > 2 { params[2] } else { 0 };
    let a3 = if n > 3 { params[3] } else { 0 };
    let mut stack: Vec<usize> = Vec::new();
    let mut i: usize = REGISTER_PARAMS;
    while i < n
        invariant
            params@ == p,
            n == p.len(),
            n <= MAX_ARGS + 1,
            REGISTER_PARAMS <= i,
            i <= n || n < REGISTER_PARAMS,
            n < REGISTER_PARAMS ==> i == REGISTER_PARAMS,
            stack@.len() == i - REGISTER_PARAMS,
            forall|k: int| 0 <= k < stack@.len() ==> stack@[k] == p[k + 4],
        decreases n - i,
    {
        stack.push(params[i]);
        i = i + 1;
    }
    let f = TrapFrame { v0: opcode, a0, a1, a2, a3, stack };
    assert forall|k: int| 0 <= k < p.len() implies #[trigger] f.slot(k) == p[k] by {
        if k >= 4 {
            assert(f.stack@[k - 4] == p[k]);
        }
    }
    f
}

/// A frame laid out for a call hands the kernel each argument, unchanged, in
/// the slot its position calls for, and the opcode in `$v0`.
pub proof fn lemma_frame_delivers_args(f: TrapFrame, opcode: usize, args: Seq<usize>)
    requires
        f.carries(opcode, args),
    ensures
        f.kernel_args(args.len()) == args,
        f.v0 == opcode,
        f.slot(args.len() as int) == opcode,
{
    let p = params_of(opcode, args);
    assert forall|i: int| 0 <= i < args.len() implies #[trigger] f.kernel_args(args.len())[i] == args[i] by {
        assert(f.slot(i) == p[i]);
    }
    assert(f.slot(args.len() as int) == p[args.len() as int]);
    assert(f.kernel_args(args.len()) =~= args);
}

/// The trap accepts every frame that lays out a call of `opcode` with
/// `args`.
pub open spec fn accepts<K: FnOnce(TrapFrame) -> usize>(trap: K, opcode: usize, args: Seq<usize>) -> bool {
    forall|f: TrapFrame| f.carries(opcode, args) ==> #[trigger] trap.requires((f,))
}

/// `r` is what the trap returned for a frame that lays out a call of
/// `opcode` with `args`.
pub open spec fn trapped<K: FnOnce(TrapFrame) -> usize>(
    trap: K,
    opcode: usize,
    args: Seq<usize>,
    r: usize,
) -> bool {
    exists|f: TrapFrame| f.carries(opcode, args) && #[trigger] trap.ensures((f,), r)
}

/// Issues syscall `opcode` with `args` through `trap`, which performs the
/// trap instruction on the frame and hands back the kernel's result word.
/// The opcode is not checked; the result is returned as the kernel gave it.
pub fn invoke<K: FnOnce(TrapFrame) -> usize>(trap: K, opcode: usize, args: &Vec<usize>) -> (r: usize)
    requires
        args@.len() <= MAX_ARGS,
        accepts(trap, opcode, args@),
    ensures
        trapped(trap, opcode, args@, r),
{
    let f = frame_for(opcode, args);
    let ghost g = f;
    let r = trap(f);
    assert(g.carries(opcode, args@) && trap.ensures((g,), r));
    r
}

/// 0-argument syscall.
pub fn syscall0<K: FnOnce(TrapFrame) -> usize>(trap: K, id: usize) -> (r: usize)
    requires
        accepts(trap, id, seq![]),
    ensures
        trapped(trap, id, seq![], r),
{
    let args: Vec<usize> = vec![];
    proof {
        assert(args@ =~= seq![]);
    }
    invoke(trap, id, &args)
}

/// 1-argument syscall.
pub fn syscall1<K: FnOnce(TrapFrame) -> usize>(trap: K, a0: usize, id: usize) -> (r: usize)
    requires
        accepts(trap, id, seq![a0]),
    ensures
        trapped(trap, id, seq![a0], r),
{
    let args: Vec<usize> = vec![a0];
    proof {
        assert(args@ =~= seq![a0]);
    }
    invoke(trap, id, &args)
}

/// 2-argument syscall.
pub fn syscall2<K: FnOnce(TrapFrame) -> usize>(
    trap: K,
    a0: usize,
    a1: usize,
    id: usize,
) -> (r: usize)
    requires
        accepts(trap, id, seq![a0, a1]),
    ensures
        trapped(trap, id, seq![a0, a1], r),
{
    let args: Vec<usize> = vec![a0, a1];
    proof {
        assert(args@ =~= seq![a0, a1]);
    }
    invoke(trap, id, &args)
}

/// 3-argument syscall.
pub fn syscall3<K: FnOnce(TrapFrame) -> usize>(
    trap: K,
    a0: usize,
    a1: usize,
    a2: usize,
    id: usize,
) -> (r: usize)
    requires
        accepts(trap, id, seq![a0, a1, a2]),
    ensures
        trapped(trap, id, seq![a0, a1, a2], r),
{
    let args: Vec<usize> = vec![a0, a1, a2];
    proof {
        assert(args@ =~= seq![a0, a1, a2]);
    }
    invoke(trap, id, &args)
}

/// 4-argument syscall.
pub fn syscall4<K: FnOnce(TrapFrame) -> usize>(
    trap: K,
    a0: usize,
    a1: usize,
    a2: usize,
    a3: usize,
    id: usize,
) -> (r: usize)
    requires
        accepts(trap, id, seq![a0, a1, a2, a3]),
    ensures
        trapped(trap, id, seq![a0, a1, a2, a3], r),
{
    let args: Vec<usize> = vec![a0, a1, a2, a3];
    proof {
        assert(args@ =~= seq![a0, a1, a2, a3]);
    }
    invoke(trap, id, &args)
}

/// 5-argument syscall.
pub fn syscall5<K: FnOnce(TrapFrame) -> usize>(
    trap: K,
    a0: usize,
    a1: usize,
    a2: usize,
    a3: usize,
    a4: usize,
    id: usize,
) -> (r: usize)
    requires
        accepts(trap, id, seq![a0, a1, a2, a3, a4]),
    ensures
        trapped(trap, id, seq![a0, a1, a2, a3, a4], r),
{
    let args: Vec<usize> = vec![a0, a1, a2, a3, a4];
    proof {
        assert(args@ =~= seq![a0, a1, a2, a3, a4]);
    }
    invoke(trap, id, &args)
}

/// 6-argument syscall.
pub fn syscall6<K: FnOnce(TrapFrame) -> usize>(
    trap: K,
    a0: usize,
    a1: usize,
    a2: usize,
    a3: usize,
    a4: usize,
    a5: usize,
    id: usize,
) -> (r: usize)
    requires
        accepts(trap, id, seq![a0, a1, a2, a3, a4, a5]),
    ensures
        trapped(trap, id, seq![a0, a1, a2, a3, a4, a5], r),
{
    let args: Vec<usize> = vec![a0, a1, a2, a3, a4, a5];
    proof {
        assert(args@ =~= seq![a0, a1, a2, a3, a4, a5]);
    }
    invoke(trap, id, &args)
}

/// 7-argument syscall.
pub fn syscall7<K: FnOnce(TrapFrame) -> usize>(
    trap: K,
    a0: usize,
    a1: usize,
    a2: usize,
    a3: usize,
    a4: usize,
    a5: usize,
    a6: usize,
    id: usize,
) -> (r: usize)
    requires
        accepts(trap, id, seq![a0, a1, a2, a3, a4, a5, a6]),
    ensures
        trapped(trap, id, seq![a0, a1, a2, a3, a4, a5, a6], r),
{
    let args: Vec<usize> = vec![a0, a1, a2, a3, a4, a5, a6];
    proof {
        assert(args@ =~= seq![a0, a1, a2, a3, a4, a5, a6]);
    }
    invoke(trap, id, &args)
}

/// 8-argument syscall.
pub fn syscall8<K: FnOnce(TrapFrame) -> usize>(
    trap: K,
    a0: usize,
    a1: usize,
    a2: usize,
    a3: usize,
    a4: usize,
    a5: usize,
    a6: usize,
    a7: usize,
    id: usize,
) -> (r: usize)
    requires
        accepts(trap, id, seq![a0, a1, a2, a3, a4, a5, a6, a7]),
    ensures
        trapped(trap, id, seq![a0, a1, a2, a3, a4, a5, a6, a7], r),
{
    let args: Vec<usize> = vec![a0, a1, a2, a3, a4, a5, a6, a7];
    proof {
        assert(args@ =~= seq![a0, a1, a2, a3, a4, a5, a6, a7]);
    }
    invoke(trap, id, &args)
}

/// 9-argument syscall.
pub fn syscall9<K: FnOnce(TrapFrame) -> usize>(
    trap: K,
    a0: usize,
    a1: usize,
    a2: usize,
    a3: usize,
    a4: usize,
    a5: usize,
    a6: usize,
    a7: usize,
    a8: usize,
    id: usize,
) -> (r: usize)
    requires
        accepts(trap, id, seq![a0, a1, a2, a3, a4, a5, a6, a7, a8]),
    ensures
        trapped(trap, id, seq![a0, a1, a2, a3, a4, a5, a6, a7, a8], r),
{
    let args: Vec<usize> = vec![a0, a1, a2, a3, a4, a5, a6, a7, a8];
    proof {
        assert(args@ =~= seq![a0, a1, a2, a3, a4, a5, a6, a7, a8]);
    }
    invoke(trap, id, &args)
}

/// The snapshot sets the control registers.
pub const CONTEXT_CONTROL: u32 = 1;

/// The snapshot sets the floating-point registers.
pub const CONTEXT_FLOATING_POINT: u32 = 2;

/// The snapshot sets the integer registers.
pub const CONTEXT_INTEGER: u32 = 4;

/// Integer register of the first argument, `$a0`.
pub const FIRST_ARG_REG: usize = 4;

/// Number of argument registers.
pub const ARG_REGS: usize = 4;

/// Integer register of the stack pointer, `$sp`.
pub const STACK_REG: usize = 29;

/// 32-bit register snapshot (`_CONTEXT`).
#[derive(Clone, Copy)]
pub struct Context32 {
    /// Floating point registers.
    pub fp: [u32; 32],
    /// Integer registers.
    pub int: [u32; 34],
    /// Floating-point status register.
    pub fsr: u32,
    /// Address execution continues at.
    pub fir: u32,
    /// Processor status.
    pub psr: u32,
    /// Which register groups the snapshot sets.
    pub flags: u32,
}

/// 64-bit register snapshot (`_CONTEXT`).
#[derive(Clone, Copy)]
pub struct Context64 {
    /// Floating point registers.
    pub fp: [u64; 32],
    /// Filler.
    pub fill1: u32,
    /// Filler.
    pub fill2: u32,
    /// Floating-point status register.
    pub fsr: u32,
    /// Address execution continues at.
    pub fir: u32,
    /// Processor status.
    pub psr: u32,
    /// Which register groups the snapshot sets.
    pub flags: u32,
    /// Integer registers.
    pub int: [u64; 34],
}

/// A 64-bit register as two 32-bit words, low word first.
pub open spec fn split_word(w: u64) -> Seq<u32> {
    seq![(w % 0x1_0000_0000) as u32, (w / 0x1_0000_0000) as u32]
}

/// 64-bit registers as 32-bit words in memory order.
pub open spec fn words_of(regs: Seq<u64>) -> Seq<u32>
    decreases regs.len(),
{
    if regs.len() == 0 {
        Seq::empty()
    } else {
        words_of(regs.drop_last()) + split_word(regs.last())
    }
}

/// Register `i` occupies words `2 * i` (its low half) and `2 * i + 1` (its
/// high half).
pub proof fn lemma_words_of_index(regs: Seq<u64>)
    ensures
        words_of(regs).len() == 2 * regs.len(),
        forall|i: int|
            0 <= i < regs.len() ==> #[trigger] words_of(regs)[2 * i] == split_word(regs[i])[0]
                && words_of(regs)[2 * i + 1] == split_word(regs[i])[1],
    decreases regs.len(),
{
    if regs.len() > 0 {
        let init = regs.drop_last();
        lemma_words_of_index(init);
        let w = words_of(regs);
        assert(w == words_of(init) + split_word(regs.last()));
        assert forall|i: int| 0 <= i < regs.len() implies #[trigger] words_of(regs)[2 * i] == split_word(
            regs[i],
        )[0] && words_of(regs)[2 * i + 1] == split_word(regs[i])[1] by {
            if i < regs.len() - 1 {
                assert(init[i] == regs[i]);
            } else {
                assert(w[2 * i] == split_word(regs.last())[0]);
                assert(w[2 * i + 1] == split_word(regs.last())[1]);
            }
        }
    }
}

/// Appends `regs` to `out` as 32-bit words in memory order.
fn append_words(out: &mut Vec<u32>, regs: &[u64])
    ensures
        final(out)@ == old(out)@ + words_of(regs@),
{
    let ghost start = out@;
    let mut i: usize = 0;
    while i < regs.len()
        invariant
            i <= regs@.len(),
            out@ == start + words_of(regs@.take(i as int)),
        decreases regs@.len() - i,
    {
        let w = regs[i];
        out.push((w % 0x1_0000_0000) as u32);
        out.push((w / 0x1_0000_0000) as u32);
        assert(regs@.take((i + 1) as int).drop_last() =~= regs@.take(i as int));
        assert(out@ =~= start + words_of(regs@.take((i + 1) as int)));
        i = i + 1;
    }
    assert(regs@.take(regs@.len() as int) =~= regs@);
}

/// The kernel reads a 64-bit snapshot as 138 words: the floating-point
/// registers in words 0 to 63, the processor fields in words 64 to 69 (the
/// continuation address at 67, the register-group flags at 69), and integer
/// register `i` in words `70 + 2 * i` and `71 + 2 * i`, low half first.
pub proof fn lemma_layout_positions(c: Context64)
    ensures
        c.layout().len() == 138,
        c.layout()[67] == c.fir,
        c.layout()[69] == c.flags,
        forall|i: int|
            0 <= i < 34 ==> #[trigger] c.layout()[70 + 2 * i] == split_word(c.int@[i])[0]
                && c.layout()[71 + 2 * i] == split_word(c.int@[i])[1],
{
    lemma_words_of_index(c.fp@);
    lemma_words_of_index(c.int@);
    let fixed = seq![c.fill1, c.fill2, c.fsr, c.fir, c.psr, c.flags];
    let front = words_of(c.fp@) + fixed;
    assert(c.layout() == front + words_of(c.int@));
    assert(front.len() == 70);
    assert(c.layout()[67] == fixed[3]);
    assert(c.layout()[69] == fixed[5]);
    assert forall|i: int| 0 <= i < 34 implies #[trigger] c.layout()[70 + 2 * i] == split_word(c.int@[i])[0]
        && c.layout()[71 + 2 * i] == split_word(c.int@[i])[1] by {
        assert(c.layout()[70 + 2 * i] == words_of(c.int@)[2 * i]);
        assert(c.layout()[71 + 2 * i] == words_of(c.int@)[2 * i + 1]);
    }
}

/// The register snapshot handed to the kernel for a new thread, in the
/// 64-bit form the runtime fills in.
#[derive(Clone, Copy)]
pub struct Context {
    pub bits64: Context64,
}

impl Context64 {
    /// Every register and field is zero.
    pub open spec fn is_zero(self) -> bool {
        &&& forall|i: int| 0 <= i < 32 ==> self.fp@[i] == 0
        &&& forall|i: int| 0 <= i < 34 ==> self.int@[i] == 0
        &&& self.fill1 == 0 && self.fill2 == 0 && self.fsr == 0
        &&& self.fir == 0 && self.psr == 0 && self.flags == 0
    }

    /// The snapshot as the kernel reads it, in 32-bit little-endian words:
    /// the floating-point registers, the six 32-bit fields in declaration
    /// order, then the integer registers.
    pub open spec fn layout(self) -> Seq<u32> {
        words_of(self.fp@) + seq![self.fill1, self.fill2, self.fsr, self.fir, self.psr, self.flags]
            + words_of(self.int@)
    }

    /// The snapshot's words in the order the kernel reads them.
    pub fn to_words(&self) -> (r: Vec<u32>)
        ensures
            r@ == self.layout(),
    {
        let mut out: Vec<u32> = Vec::new();
        append_words(&mut out, &self.fp);
        out.push(self.fill1);
        out.push(self.fill2);
        out.push(self.fsr);
        out.push(self.fir);
        out.push(self.psr);
        out.push(self.flags);
        append_words(&mut out, &self.int);
        assert(out@ =~= self.layout());
        out
    }

    /// A snapshot with every register zero.
    pub fn zeroed() -> (c: Context64)
        ensures
            c.is_zero(),
    {
        Context64 {
            fp: [0u64; 32],
            fill1: 0,
            fill2: 0,
            fsr: 0,
            fir: 0,
            psr: 0,
            flags: 0,
            int: [0u64; 34],
        }
    }

    /// The same snapshot, starting execution at `entry`.
    pub fn with_entry(self, entry: u32) -> (c: Context64)
        ensures
            c == (Context64 { fir: entry, ..self }),
    {
        Context64 { fir: entry, ..self }
    }

    /// The same snapshot, setting the register groups in `flags`.
    pub fn with_flags(self, flags: u32) -> (c: Context64)
        ensures
            c == (Context64 { flags, ..self }),
    {
        Context64 { flags, ..self }
    }

    /// The same snapshot, with initial argument `n` set to `value`.
    pub fn with_arg(self, n: usize, value: u64) -> (c: Context64)
        requires
            n < ARG_REGS,
        ensures
            c.int@ == self.int@.update(FIRST_ARG_REG + n, value),
            c.fp == self.fp,
            c.fill1 == self.fill1 && c.fill2 == self.fill2 && c.fsr == self.fsr,
            c.fir == self.fir && c.psr == self.psr && c.flags == self.flags,
    {
        let mut c = self;
        c.int[FIRST_ARG_REG + n] = value;
        c
    }

    /// The same snapshot, with the stack pointer at `top`.
    pub fn with_stack(self, top: u64) -> (c: Context64)
        ensures
            c.int@ == self.int@.update(STACK_REG as int, top),
            c.fp == self.fp,
            c.fill1 == self.fill1 && c.fill2 == self.fill2 && c.fsr == self.fsr,
            c.fir == self.fir && c.psr == self.psr && c.flags == self.flags,
    {
        let mut c = self;
        c.int[STACK_REG] = top;
        c
    }
}

} // verus!
