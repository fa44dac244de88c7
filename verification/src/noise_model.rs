use vstd::prelude::*;

verus! {

/// Type of noise to apply.
#[derive(Debug, Clone, Copy, PartialEq, Eq, Structural)]
pub enum NoiseModelType {
    Gaussian,
    Uniform,
    Impulse,
    Structured,
}

/// One step of the xorshift64 generator (shifts 13, 7, 17).
pub open spec fn xorshift64(x: u64) -> u64 {
    let a = x ^ (x << 13u64);
    let b = a ^ (a >> 7u64);
    b ^ (b << 17u64)
}

/// A xorshift64 pseudo-random generator. Its state is never zero, since a
/// zero state would stay zero forever.
#[derive(Debug)]
pub struct Rng {
    state: u64,
}

impl View for Rng {
    type V = u64;

    closed spec fn view(&self) -> u64 {
        self.state
    }
}

impl Clone for Rng {
    /// A generator in the same state, which then yields the same numbers.
    fn clone(&self) -> (r: Self)
        ensures
            r@ == self@,
    {
        proof {
            use_type_invariant(self);
        }
        Rng { state: self.state }
    }
}

/// A step of xorshift64 maps a non-zero state to a non-zero state.
pub proof fn lemma_xorshift_nonzero(x: u64)
    requires
        x != 0,
    ensures
        xorshift64(x) != 0,
{
    assert(x != 0 ==> (x ^ (x << 13u64)) != 0) by (bit_vector);
    let a = x ^ (x << 13u64);
    assert(a != 0 ==> (a ^ (a >> 7u64)) != 0) by (bit_vector);
    let b = a ^ (a >> 7u64);
    assert(b != 0 ==> (b ^ (b << 17u64)) != 0) by (bit_vector);
}

/// One xorshift64 step is linear over GF(2): stepping the xor of two states
/// gives the xor of their steps; the lowest and the highest bit step to
/// 1082269761 and 9295429630892703744, and 45454805674 (the step after 42)
/// steps to 11532217803599905471; and
/// it is a bijection on states, so two distinct states never step to the
/// same one.
pub proof fn lemma_xorshift_linear(x: u64, y: u64)
    ensures
        xorshift64(x ^ y) == xorshift64(x) ^ xorshift64(y),
        xorshift64(1) == 1082269761,
        xorshift64(0x8000_0000_0000_0000) == 9295429630892703744,
        xorshift64(45454805674) == 11532217803599905471,
        xorshift64(0) == 0,
        xorshift64(x) == xorshift64(y) ==> x == y,
{
    assert(((x ^ y) ^ ((x ^ y) << 13u64)) == ((x ^ (x << 13u64)) ^ (y ^ (y << 13u64))))
        by (bit_vector);
    let a = x ^ (x << 13u64);
    let c = y ^ (y << 13u64);
    assert(((a ^ c) ^ ((a ^ c) >> 7u64)) == ((a ^ (a >> 7u64)) ^ (c ^ (c >> 7u64))))
        by (bit_vector);
    let b = a ^ (a >> 7u64);
    let d = c ^ (c >> 7u64);
    assert(((b ^ d) ^ ((b ^ d) << 17u64)) == ((b ^ (b << 17u64)) ^ (d ^ (d << 17u64))))
        by (bit_vector);
    assert(xorshift64(1u64) == 1082269761u64) by (bit_vector);
    assert(xorshift64(0u64) == 0u64) by (bit_vector);
    assert(xorshift64(0x8000_0000_0000_0000u64) == 9295429630892703744u64) by (bit_vector);
    assert(xorshift64(45454805674u64) == 11532217803599905471u64) by (bit_vector);
    if x != y {
        assert(x ^ y != 0) by (bit_vector) requires x != y;
        lemma_xorshift_nonzero(x ^ y);
        let p = xorshift64(x);
        let q = xorshift64(y);
        assert(p ^ q != 0 ==> p != q) by (bit_vector);
    }
}

impl Rng {
    #[verifier::type_invariant]
    closed spec fn state_nonzero(self) -> bool {
        self.state != 0
    }

    /// A generator seeded with `seed`, which must be non-zero.
    pub fn new(seed: u64) -> (r: Self)
        requires
            seed != 0,
        ensures
            r@ == seed,
    {
        Rng { state: seed }
    }

    /// Advance the generator one xorshift64 step and return the new state.
    pub fn next_u64(&mut self) -> (x: u64)
        ensures
            x == xorshift64(old(self)@),
            final(self)@ == x,
            x != 0,
    {
        proof {
            use_type_invariant(&*self);
            lemma_xorshift_nonzero(self.state);
        }
        let mut x = self.state;
        x ^= x << 13u64;
        x ^= x >> 7u64;
        x ^= x << 17u64;
        self.state = x;
        x
    }
}

} // verus!
