//! A small, fast, deterministic PRNG. Audio noise needs speed and a flat
//! distribution, not cryptographic strength.

use vstd::prelude::*;

verus! {

/// The state a zero seed is replaced by.
pub const NONZERO_SEED: u64 = 0x9E37_79B9_7F4A_7C15;

/// One xorshift step: shift-xor by 13 left, 7 right, 17 left.
pub open spec fn xorshift_step(x: u64) -> u64 {
    let a = x ^ (x << 13u64);
    let b = a ^ (a >> 7u64);
    b ^ (b << 17u64)
}

/// The state after `n` draws from `x`.
pub open spec fn xorshift_iter(x: u64, n: nat) -> u64
    decreases n,
{
    if n == 0 {
        x
    } else {
        xorshift_step(xorshift_iter(x, (n - 1) as nat))
    }
}

#[derive(Debug, Clone)]
pub struct Xorshift64 {
    state: u64,
}

impl View for Xorshift64 {
    type V = u64;

    closed spec fn view(&self) -> u64 {
        self.state
    }
}

impl Xorshift64 {
    pub fn new(seed: u64) -> (r: Self)
        ensures
            r@ == if seed == 0 {
                NONZERO_SEED
            } else {
                seed
            },
            r@ != 0,
    {
        Xorshift64 {
            // A zero state would lock the generator at zero forever.
            state: if seed == 0 {
                NONZERO_SEED
            } else {
                seed
            },
        }
    }

    pub fn next_u64(&mut self) -> (r: u64)
        ensures
            r == xorshift_step(old(self)@),
            final(self)@ == r,
    {
        let mut x = self.state;
        x = x ^ (x << 13u64);
        x = x ^ (x >> 7u64);
        x = x ^ (x << 17u64);
        self.state = x;
        x
    }

    /// The top 24 bits of the next draw, uniform in `[0, 2^24)`: exactly the
    /// precision of an `f32` mantissa.
    pub fn next_bits24(&mut self) -> (r: u32)
        ensures
            r == xorshift_step(old(self)@) >> 40u64,
            r < 0x100_0000,
            final(self)@ == xorshift_step(old(self)@),
    {
        let x = self.next_u64();
        assert(x >> 40u64 < 0x100_0000) by (bit_vector);
        (x >> 40u64) as u32
    }
}

/// A nonzero state never steps to zero, so a generator seeded through
/// [`Xorshift64::new`] never locks up, however many draws are taken.
pub proof fn lemma_nonzero_state_stays_nonzero(x: u64, n: nat)
    requires
        x != 0,
    ensures
        xorshift_step(x) != 0,
        xorshift_iter(x, n) != 0,
    decreases n,
{
    let a = x ^ (x << 13u64);
    let b = a ^ (a >> 7u64);
    assert(x != 0 ==> x ^ (x << 13u64) != 0) by (bit_vector);
    assert(a != 0 ==> a ^ (a >> 7u64) != 0) by (bit_vector);
    assert(b != 0 ==> b ^ (b << 17u64) != 0) by (bit_vector);
    if n > 0 {
        lemma_nonzero_state_stays_nonzero(x, (n - 1) as nat);
        let y = xorshift_iter(x, (n - 1) as nat);
        let ya = y ^ (y << 13u64);
        let yb = ya ^ (ya >> 7u64);
        assert(y != 0 ==> y ^ (y << 13u64) != 0) by (bit_vector);
        assert(ya != 0 ==> ya ^ (ya >> 7u64) != 0) by (bit_vector);
        assert(yb != 0 ==> yb ^ (yb << 17u64) != 0) by (bit_vector);
    }
}

} // verus!
