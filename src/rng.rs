use vstd::prelude::*;

verus! {

/// The multiplier of the generator.
pub const LCG_MUL: u64 = 6364136223846793005;

/// The increment of a step of the generator.
pub const LCG_INC: u64 = 1442695040888963407;

/// The increment used once when the generator is seeded.
pub const LCG_SEED_INC: u64 = 1;

/// `2^64`, the modulus of the generator's arithmetic.
pub open spec fn modulus() -> int {
    0x1_0000_0000_0000_0000
}

/// The state of a generator seeded with `seed`.
pub open spec fn lcg_seeded(seed: u64) -> u64 {
    ((seed * LCG_MUL + LCG_SEED_INC) % modulus()) as u64
}

/// The state after one step from state `s`.
pub open spec fn lcg_next(s: u64) -> u64 {
    ((s * LCG_MUL + LCG_INC) % modulus()) as u64
}

/// The value drawn at state `s`: its top 31 bits.
pub open spec fn lcg_output(s: u64) -> u32 {
    (s / 0x2_0000_0000) as u32
}

/// The largest value a draw can give.
pub const LCG_OUTPUT_MAX: u32 = 0x7fff_ffff;

/// `(x * m + c) mod 2^64`, computed with wrapping operations.
fn mul_add_wrapping(x: u64, m: u64, c: u64) -> (r: u64)
    ensures
        r == (x * m + c) % modulus(),
{
    let p: u64 = x.wrapping_mul(m);
    proof {
        vstd::arithmetic::div_mod::lemma_add_mod_noop(x * m, c as int, modulus());
        vstd::arithmetic::div_mod::lemma_small_mod(c as nat, modulus() as nat);
        assert(p == (x * m) % modulus());
        let q = p + c;
        assert(0 <= q < 2 * modulus());
        if q >= modulus() {
            vstd::arithmetic::div_mod::lemma_fundamental_div_mod_converse(q, modulus(), 1, q - modulus());
        } else {
            vstd::arithmetic::div_mod::lemma_small_mod(q as nat, modulus() as nat);
        }
    }
    p.wrapping_add(c)
}

/// The linear-congruential generator of one erosion pass. Each pass makes a
/// fresh one from the configured seed; each draw advances it by one step.
pub struct Lcg {
    pub state: u64,
}

impl Lcg {
    /// A generator seeded with `seed`.
    pub fn new(seed: u64) -> (r: Lcg)
        ensures
            r.state == lcg_seeded(seed),
    {
        Lcg { state: mul_add_wrapping(seed, LCG_MUL, LCG_SEED_INC) }
    }

    /// Advances the generator by one step and returns the top 31 bits of the
    /// new state, a value in `0..=0x7fff_ffff`.
    pub fn next_u32(&mut self) -> (r: u32)
        ensures
            final(self).state == lcg_next(old(self).state),
            r == lcg_output(final(self).state),
            r <= LCG_OUTPUT_MAX,
    {
        self.state = mul_add_wrapping(self.state, LCG_MUL, LCG_INC);
        let s: u64 = self.state;
        let top: u64 = s >> 33u64;
        proof {
            assert(s >> 33u64 == s / 0x2_0000_0000) by (bit_vector);
            assert(s >> 33u64 <= 0x7fff_ffff) by (bit_vector);
        }
        top as u32
    }
}

} // verus!
