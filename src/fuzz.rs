//! The syscall fuzzer's workers: each one issues syscalls whose opcode and
//! arguments are all drawn from its own generator.

use vstd::prelude::*;
use crate::mips::{invoke, trapped, TrapFrame};
use crate::rand::{advanced, draws, lemma_draws_extend, Rng};

verus! {

/// Seed of worker zero; worker `id` starts from this plus `id`.
pub const SEED_BASE: u64 = 0xe06fc2cdf7b80594;

/// Number of workers the fuzzer runs.
pub const WORKERS: usize = 8;

/// Number of words drawn for one call: nine arguments, then the opcode.
pub const WORDS_PER_CALL: usize = 10;

/// The trap accepts any frame at all.
pub open spec fn accepts_any<K: FnOnce(TrapFrame) -> usize>(trap: K) -> bool {
    forall|f: TrapFrame| #[trigger] trap.requires((f,))
}

/// The seed of worker `id`, wrapping around past the largest value.
pub fn worker_seed(id: usize) -> (r: u64)
    ensures
        r as int == (SEED_BASE + id) % 0x1_0000_0000_0000_0000,
{
    SEED_BASE.wrapping_add(id as u64)
}

/// One fuzzing round: draws ten values from `rng` and issues a nine-argument
/// syscall with the first nine as its arguments and the tenth as its
/// opcode, each cut to a machine word. Returns what the kernel returned.
pub fn fuzz_round<K: FnOnce(TrapFrame) -> usize>(trap: K, rng: &mut Rng) -> (r: usize)
    requires
        accepts_any(trap),
    ensures
        final(rng).state() == advanced(old(rng).state(), 10),
        trapped(
            trap,
            draws(old(rng).state(), 10)[9] as usize,
            draws(old(rng).state(), 10).take(9).map_values(|w: u64| w as usize),
            r,
        ),
{
    let ghost s = rng.state();
    let mut words: Vec<usize> = Vec::new();
    let mut i: usize = 0;
    while i < WORDS_PER_CALL
        invariant
            i <= WORDS_PER_CALL,
            rng.state() == advanced(s, i as nat),
            words@ == draws(s, i as nat).map_values(|w: u64| w as usize),
        decreases WORDS_PER_CALL - i,
    {
        proof {
            lemma_draws_extend(s, i as nat);
        }
        let w = rng.next();
        words.push(w as usize);
        assert(words@ =~= draws(s, (i + 1) as nat).map_values(|w: u64| w as usize));
        i = i + 1;
    }
    proof {
        lemma_draws_extend(s, 10);
    }
    let opcode = words[9];
    let mut args: Vec<usize> = Vec::new();
    let mut j: usize = 0;
    while j < 9
        invariant
            j <= 9,
            words@.len() == 10,
            args@ == words@.take(j as int),
        decreases 9 - j,
    {
        args.push(words[j]);
        assert(args@ =~= words@.take((j + 1) as int));
        j = j + 1;
    }
    assert(args@ =~= draws(s, 10).take(9).map_values(|w: u64| w as usize));
    invoke(trap, opcode, &args)
}

} // verus!
