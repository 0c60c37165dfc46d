//! Xorshift64 pseudo-random numbers.

use vstd::prelude::*;

verus! {

/// One xorshift64 step.
pub open spec fn xorshift(s: u64) -> u64 {
    let a = s ^ (s << 13u64);
    let b = a ^ (a >> 17u64);
    b ^ (b << 43u64)
}

/// The next `n` values a generator in state `s` yields.
pub open spec fn draws(s: u64, n: nat) -> Seq<u64>
    decreases n,
{
    if n == 0 {
        Seq::empty()
    } else {
        seq![xorshift(s)] + draws(xorshift(s), (n - 1) as nat)
    }
}

/// State after `n` steps from `s`.
pub open spec fn advanced(s: u64, n: nat) -> u64
    decreases n,
{
    if n == 0 {
        s
    } else {
        advanced(xorshift(s), (n - 1) as nat)
    }
}

/// Drawing one more value appends the step from where the earlier draws
/// left the state.
pub proof fn lemma_draws_extend(s: u64, n: nat)
    ensures
        draws(s, n + 1) == draws(s, n).push(xorshift(advanced(s, n))),
        advanced(s, n + 1) == xorshift(advanced(s, n)),
        draws(s, n).len() == n,
    decreases n,
{
    let x = xorshift(s);
    assert(draws(s, n + 1) == seq![x] + draws(x, n));
    assert(advanced(s, n + 1) == advanced(x, n));
    if n > 0 {
        lemma_draws_extend(x, (n - 1) as nat);
        assert(draws(s, n) == seq![x] + draws(x, (n - 1) as nat));
        assert(advanced(s, n) == advanced(x, (n - 1) as nat));
        assert(draws(s, n + 1) =~= draws(s, n).push(xorshift(advanced(s, n))));
    } else {
        assert(draws(x, 0) == Seq::<u64>::empty());
        assert(advanced(x, 0) == x);
        assert(draws(s, 1) =~= seq![x]);
    }
}

/// Xorshift64 generator.
pub struct Rng {
    state: u64,
}

impl Rng {
    /// The generator's state, which is also the last value it yielded.
    pub closed spec fn state(&self) -> u64 {
        self.state
    }

    /// Create a seeded RNG.
    pub fn new(seed: u64) -> (r: Rng)
        ensures
            r.state() == seed,
    {
        Rng { state: seed }
    }

    /// Get the next RNG value.
    pub fn next(&mut self) -> (r: u64)
        ensures
            r == xorshift(old(self).state()),
            final(self).state() == r,
    {
        let mut seed = self.state;
        seed = seed ^ (seed << 13u64);
        seed = seed ^ (seed >> 17u64);
        seed = seed ^ (seed << 43u64);
        self.state = seed;
        seed
    }
}

} // verus!
