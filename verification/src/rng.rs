//! Deterministic counter-based random number generator.
//!
//! One 64-bit word of state, advanced by a fixed odd increment and mixed by
//! a 128-bit multiply-xor-fold. The generator is an explicitly owned value
//! threaded by reference through every call site that needs randomness, so
//! a fixed seed reproduces every draw exactly: each drawing method pins its
//! result and the successor state as a function of the prior state alone.
//!
//! Range draws use Lemire's rejection-sampling method to stay free of
//! modulo bias: draw a full-width value, accept it unless its low product
//! with the range size falls below a threshold, else redraw. The redraw
//! loop carries a large finite retry budget so that it provably terminates;
//! within the budget it behaves exactly as the unbounded method.

use vstd::prelude::*;
use vstd::arithmetic::div_mod::lemma_fundamental_div_mod_converse;

verus! {

/// Number of draws a rejection-sampling loop may make before it settles
/// for the last draw. A draw is rejected with probability below one half,
/// so the budget is never exhausted in practice.
pub const LEMIRE_RETRY_BUDGET: u32 = 64;

/// Deterministic random number generator holding one 64-bit state word.
pub struct Rng(pub u64);

/// State word after one raw draw.
pub open spec fn rng_next(s: u64) -> u64 {
    vstd::wrapping::u64_specs::wrapping_add(s, 0xA0761D6478BD642F)
}

/// Value produced by mixing a state word: fold of the 128-bit product of
/// the state with a xored copy of itself.
pub open spec fn rng_mix(s: u64) -> u64 {
    let t = (s as int) * ((s ^ 0xE7037ED1A0B428DB) as int);
    let lo = (t % 0x1_0000_0000_0000_0000) as u64;
    let hi = (t / 0x1_0000_0000_0000_0000) as u64;
    lo ^ hi
}

/// High 32 bits of the 64-bit product of two 32-bit values.
pub open spec fn spec_mul_high_u32(a: u32, b: u32) -> u32 {
    ((a as int * b as int) / 0x1_0000_0000) as u32
}

/// High 64 bits of the 128-bit product of two 64-bit values.
pub open spec fn spec_mul_high_u64(a: u64, b: u64) -> u64 {
    ((a as int * b as int) / 0x1_0000_0000_0000_0000) as u64
}

/// High 128 bits of the 256-bit product of two 128-bit values.
pub open spec fn spec_mul_high_u128(a: u128, b: u128) -> u128 {
    ((a as int * b as int) / (u128::MAX as int + 1)) as u128
}

/// The 32-bit value drawn by one mixing step from state `s`.
pub open spec fn spec_draw_u32(s: u64) -> u32 {
    (rng_mix(rng_next(s)) % 0x1_0000_0000) as u32
}

/// The 128-bit value drawn by two mixing steps from state `s`.
pub open spec fn spec_draw_u128(s: u64) -> u128 {
    (rng_mix(rng_next(s)) as int * 0x1_0000_0000_0000_0000 + rng_mix(
        rng_next(rng_next(s)),
    ) as int) as u128
}

/// Lemire rejection threshold for a 32-bit range of size `n`.
pub open spec fn lemire_threshold_u32(n: u32) -> int
    recommends
        n >= 1,
{
    vstd::wrapping::u32_specs::wrapping_sub(0u32, n) as int % n as int
}

/// Lemire rejection threshold for a 64-bit range of size `n`.
pub open spec fn lemire_threshold_u64(n: u64) -> int
    recommends
        n >= 1,
{
    vstd::wrapping::u64_specs::wrapping_sub(0u64, n) as int % n as int
}

/// Lemire rejection threshold for a 128-bit range of size `n`.
pub open spec fn lemire_threshold_u128(n: u128) -> int
    recommends
        n >= 1,
{
    vstd::wrapping::u128_specs::wrapping_sub(0u128, n) as int % n as int
}

/// Whether a raw 32-bit draw is accepted for a range of size `n`.
pub open spec fn lemire_accepts_u32(r: u32, n: u32) -> bool {
    vstd::wrapping::u32_specs::wrapping_mul(r, n) as int >= lemire_threshold_u32(n)
}

/// Whether a raw 64-bit draw is accepted for a range of size `n`.
pub open spec fn lemire_accepts_u64(r: u64, n: u64) -> bool {
    vstd::wrapping::u64_specs::wrapping_mul(r, n) as int >= lemire_threshold_u64(n)
}

/// Whether a raw 128-bit draw is accepted for a range of size `n`.
pub open spec fn lemire_accepts_u128(r: u128, n: u128) -> bool {
    vstd::wrapping::u128_specs::wrapping_mul(r, n) as int >= lemire_threshold_u128(n)
}

/// Successor state and value of a bounded `i16` range draw.
pub open spec fn spec_i16_range(s: u64, low: i16, high: i16) -> (u64, i16)
    recommends
        low <= high,
        high - low < 65535,
{
    let (s2, m) = lemire_u32(s, (high - low + 1) as u32, LEMIRE_RETRY_BUDGET as nat);
    (s2, (low + m) as i16)
}

/// Successor state and result of a rejection-sampled draw below `n` from
/// state `s` with `fuel` draws left: the first accepted draw decides, and
/// the last permitted draw decides when every draw before it was rejected.
pub open spec fn lemire_u32(s: u64, n: u32, fuel: nat) -> (u64, u32)
    decreases fuel,
{
    let s1 = rng_next(s);
    let r = spec_draw_u32(s);
    if lemire_accepts_u32(r, n) || fuel <= 1 {
        (s1, spec_mul_high_u32(r, n))
    } else {
        lemire_u32(s1, n, (fuel - 1) as nat)
    }
}

/// 64-bit counterpart of `lemire_u32`.
pub open spec fn lemire_u64(s: u64, n: u64, fuel: nat) -> (u64, u64)
    decreases fuel,
{
    let s1 = rng_next(s);
    let r = rng_mix(s1);
    if lemire_accepts_u64(r, n) || fuel <= 1 {
        (s1, spec_mul_high_u64(r, n))
    } else {
        lemire_u64(s1, n, (fuel - 1) as nat)
    }
}

/// 128-bit counterpart of `lemire_u32`; each draw advances the state twice.
pub open spec fn lemire_u128(s: u64, n: u128, fuel: nat) -> (u64, u128)
    decreases fuel,
{
    let s2 = rng_next(rng_next(s));
    let r = spec_draw_u128(s);
    if lemire_accepts_u128(r, n) || fuel <= 1 {
        (s2, spec_mul_high_u128(r, n))
    } else {
        lemire_u128(s2, n, (fuel - 1) as nat)
    }
}

/// The high half of a product with a factor below `n` stays below `n`.
proof fn lemma_mul_high_u32_bound(a: u32, n: u32)
    requires
        n >= 1,
    ensures
        spec_mul_high_u32(a, n) < n,
{
    assert((a as int) * (n as int) < 0x1_0000_0000int * (n as int)) by (nonlinear_arith)
        requires
            0 <= (a as int) < 0x1_0000_0000int,
            (n as int) >= 1,
    ;
    assert((a as int) * (n as int) / 0x1_0000_0000int < n as int) by (nonlinear_arith)
        requires
            0 <= (a as int) * (n as int) < 0x1_0000_0000int * (n as int),
            (n as int) >= 1,
    ;
}

/// The high half of a product with a factor below `n` stays below `n`.
proof fn lemma_mul_high_u64_bound(a: u64, n: u64)
    requires
        n >= 1,
    ensures
        spec_mul_high_u64(a, n) < n,
{
    assert((a as int) * (n as int) < 0x1_0000_0000_0000_0000int * (n as int)) by (nonlinear_arith)
        requires
            0 <= (a as int) < 0x1_0000_0000_0000_0000int,
            (n as int) >= 1,
    ;
    assert((a as int) * (n as int) / 0x1_0000_0000_0000_0000int < n as int) by (nonlinear_arith)
        requires
            0 <= (a as int) * (n as int) < 0x1_0000_0000_0000_0000int * (n as int),
            (n as int) >= 1,
    ;
}

/// The high half of a product with a factor below `n` stays below `n`.
proof fn lemma_mul_high_u128_bound(a: u128, n: u128)
    requires
        n >= 1,
    ensures
        spec_mul_high_u128(a, n) < n,
{
    assert((a as int) * (n as int) < (u128::MAX as int + 1) * (n as int))
        by (nonlinear_arith)
        requires
            0 <= (a as int) < (u128::MAX as int + 1),
            (n as int) >= 1,
    ;
    assert((a as int) * (n as int) / (u128::MAX as int + 1) < n as int)
        by (nonlinear_arith)
        requires
            0 <= (a as int) * (n as int) < (u128::MAX as int + 1) * (n as int),
            (n as int) >= 1,
    ;
}

/// Computes the high 32 bits of `a * b`.
pub fn mul_high_u32(a: u32, b: u32) -> (r: u32)
    ensures
        r == spec_mul_high_u32(a, b),
{
    assert((a as int) * (b as int) <= u64::MAX as int && (a as int) * (b as int) / 0x1_0000_0000int < 0x1_0000_0000int) by (nonlinear_arith)
        requires
            0 <= (a as int) < 0x1_0000_0000int,
            0 <= (b as int) < 0x1_0000_0000int,
    ;
    (((a as u64) * (b as u64)) / 0x1_0000_0000) as u32
}

/// Computes the high 64 bits of `a * b`.
pub fn mul_high_u64(a: u64, b: u64) -> (r: u64)
    ensures
        r == spec_mul_high_u64(a, b),
{
    assert((a as int) * (b as int) <= u128::MAX as int && (a as int) * (b as int) / 0x1_0000_0000_0000_0000int < 0x1_0000_0000_0000_0000int) by (nonlinear_arith)
        requires
            0 <= (a as int) < 0x1_0000_0000_0000_0000int,
            0 <= (b as int) < 0x1_0000_0000_0000_0000int,
    ;
    (((a as u128) * (b as u128)) / 0x1_0000_0000_0000_0000) as u64
}

/// Product of two values split into high and low limbs, expanded into the
/// four partial products.
proof fn lemma_limb_product(ah: int, al: int, bh: int, bl: int, base: int)
    ensures
        (ah * base + al) * (bh * base + bl) == (ah * bh) * (base * base) + (ah * bl) * base + (al
            * bh) * base + al * bl,
{
    assert((ah * base + al) * (bh * base + bl) == (ah * base) * (bh * base) + (ah * base) * bl + al
        * (bh * base) + al * bl) by (nonlinear_arith);
    assert((ah * base) * (bh * base) == (ah * bh) * (base * base)) by (nonlinear_arith);
    assert((ah * base) * bl == (ah * bl) * base) by (nonlinear_arith);
    assert(al * (bh * base) == (al * bh) * base) by (nonlinear_arith);
}

/// Computes the high 128 bits of `a * b` from four 64-bit partial
/// products, propagating the carry of the low half.
pub fn mul_high_u128(a: u128, b: u128) -> (r: u128)
    ensures
        r == spec_mul_high_u128(a, b),
{
    let a_lo = a % 0x1_0000_0000_0000_0000;
    let a_hi = a / 0x1_0000_0000_0000_0000;
    let b_lo = b % 0x1_0000_0000_0000_0000;
    let b_hi = b / 0x1_0000_0000_0000_0000;
    proof {
        lemma_mul_high_u128_parts(a as int, b as int);
    }
    let carry = (a_lo * b_lo) / 0x1_0000_0000_0000_0000;
    let mid = (a_hi * b_lo) % 0x1_0000_0000_0000_0000 + (a_lo * b_hi) % 0x1_0000_0000_0000_0000
        + carry;
    let carry2 = mid / 0x1_0000_0000_0000_0000;
    a_hi * b_hi + (a_hi * b_lo) / 0x1_0000_0000_0000_0000 + (a_lo * b_hi)
        / 0x1_0000_0000_0000_0000 + carry2
}

/// Decomposition of a 256-bit product into 64-bit limbs: states that the
/// carry-propagating sum computed by `mul_high_u128` equals the high 128
/// bits of the product, and that every intermediate fits in a `u128`.
#[verifier::rlimit(60)]
proof fn lemma_mul_high_u128_parts(a: int, b: int)
    requires
        0 <= a < 0x1_0000_0000_0000_0000_0000_0000_0000_0000,
        0 <= b < 0x1_0000_0000_0000_0000_0000_0000_0000_0000,
    ensures
        ({
            let base = 0x1_0000_0000_0000_0000int;
            let ah = a / base;
            let al = a % base;
            let bh = b / base;
            let bl = b % base;
            let carry = (al * bl) / base;
            let mid = (ah * bl) % base + (al * bh) % base + carry;
            let carry2 = mid / base;
            let q = ah * bh + (ah * bl) / base + (al * bh) / base + carry2;
            &&& 0 <= ah * bl <= (u128::MAX as int)
            &&& 0 <= al * bh <= (u128::MAX as int)
            &&& 0 <= al * bl <= (u128::MAX as int)
            &&& 0 <= ah * bh <= (u128::MAX as int)
            &&& 0 <= mid <= (u128::MAX as int)
            &&& 0 <= q <= (u128::MAX as int)
            &&& q == (a * b) / (base * base)
        }),
{
    let base = 0x1_0000_0000_0000_0000int;
    let ah = a / base;
    let al = a % base;
    let bh = b / base;
    let bl = b % base;
    assert(0 <= ah < base && 0 <= al < base && 0 <= bh < base && 0 <= bl < base);
    assert(0 <= ah * bl <= (base - 1) * (base - 1) && 0 <= al * bh <= (base - 1) * (base - 1) && 0
        <= al * bl <= (base - 1) * (base - 1) && 0 <= ah * bh <= (base - 1) * (base - 1))
        by (nonlinear_arith)
        requires
            0 <= ah < base && 0 <= al < base && 0 <= bh < base && 0 <= bl < base,
    ;
    let carry = (al * bl) / base;
    let mid = (ah * bl) % base + (al * bh) % base + carry;
    let carry2 = mid / base;
    let q = ah * bh + (ah * bl) / base + (al * bh) / base + carry2;
    assert(0 <= carry < base) by (nonlinear_arith)
        requires
            0 <= al * bl <= (base - 1) * (base - 1),
            carry == (al * bl) / base,
            base == 0x1_0000_0000_0000_0000int,
    ;
    assert(0 <= mid <= 3 * base - 3);

    // Rebuild a * b from the four partial products.
    assert(a == ah * base + al && b == bh * base + bl);
    lemma_limb_product(ah, al, bh, bl, base);
    assert(a * b == (ah * base + al) * (bh * base + bl)) by (nonlinear_arith)
        requires
            a == ah * base + al,
            b == bh * base + bl,
    ;
    // Split each partial product into its own high and low 64-bit limb.
    let xh = (ah * bl) / base;
    let xl = (ah * bl) % base;
    let yh = (al * bh) / base;
    let yl = (al * bh) % base;
    let zl = (al * bl) % base;
    assert((ah * bl) * base == xh * (base * base) + xl * base) by (nonlinear_arith)
        requires
            ah * bl == xh * base + xl,
    ;
    assert((al * bh) * base == yh * (base * base) + yl * base) by (nonlinear_arith)
        requires
            al * bh == yh * base + yl,
    ;
    assert(al * bl == carry * base + zl);
    assert(a * b == (ah * bh + xh + yh) * (base * base) + mid * base + zl) by (nonlinear_arith)
        requires
            a * b == (ah * bh) * (base * base) + (xh * (base * base) + xl * base) + (yh * (base
                * base) + yl * base) + (carry * base + zl),
            mid == xl + yl + carry,
    ;
    assert(mid * base == carry2 * (base * base) + (mid % base) * base) by (nonlinear_arith)
        requires
            mid == carry2 * base + mid % base,
    ;
    assert(a * b == q * (base * base) + ((mid % base) * base + zl)) by (nonlinear_arith)
        requires
            a * b == (ah * bh + xh + yh) * (base * base) + (carry2 * (base * base) + (mid % base)
                * base) + zl,
            q == ah * bh + xh + yh + carry2,
    ;
    assert(0 <= (mid % base) * base + zl < base * base) by (nonlinear_arith)
        requires
            0 <= mid % base < base,
            0 <= zl < base,
    ;
    lemma_fundamental_div_mod_converse(a * b, base * base, q, (mid % base) * base + zl);
    assert(0 <= a * b < (base * base) * (base * base)) by (nonlinear_arith)
        requires
            0 <= a < base * base,
            0 <= b < base * base,
    ;
    assert(q < base * base) by (nonlinear_arith)
        requires
            q * (base * base) + ((mid % base) * base + zl) == a * b,
            0 <= (mid % base) * base + zl,
            0 <= a * b < (base * base) * (base * base),
    ;
}

impl Rng {
    /// Create a generator from a seed.
    pub fn new(seed: u64) -> (r: Self)
        ensures
            r.0 == seed,
    {
        Self(seed)
    }

    /// Draw a raw 64-bit value and advance the state by one step.
    pub fn gen_u64(&mut self) -> (r: u64)
        ensures
            final(self).0 == rng_next(old(self).0),
            r == rng_mix(rng_next(old(self).0)),
    {
        let s = self.0.wrapping_add(0xA0761D6478BD642F);
        self.0 = s;
        assert((s as int) * ((s ^ 0xE7037ED1A0B428DB) as int) <= u128::MAX as int)
            by (nonlinear_arith)
            requires
                0 <= (s as int) <= u64::MAX as int,
                0 <= ((s ^ 0xE7037ED1A0B428DB) as int) <= u64::MAX as int,
        ;
        let t: u128 = (s as u128) * ((s ^ 0xE7037ED1A0B428DB) as u128);
        let lo: u64 = (t % 0x1_0000_0000_0000_0000) as u64;
        assert(t / 0x1_0000_0000_0000_0000 < 0x1_0000_0000_0000_0000) by (nonlinear_arith)
            requires
                t <= u128::MAX,
        ;
        let hi: u64 = (t / 0x1_0000_0000_0000_0000) as u64;
        lo ^ hi
    }

    /// Draw a raw 32-bit value: the low half of one 64-bit draw.
    pub fn gen_u32(&mut self) -> (r: u32)
        ensures
            final(self).0 == rng_next(old(self).0),
            r == spec_draw_u32(old(self).0),
    {
        (self.gen_u64() % 0x1_0000_0000) as u32
    }

    /// Draw a raw 128-bit value from two consecutive 64-bit draws.
    pub fn gen_u128(&mut self) -> (r: u128)
        ensures
            final(self).0 == rng_next(rng_next(old(self).0)),
            r == spec_draw_u128(old(self).0),
    {
        let hi = self.gen_u64();
        let lo = self.gen_u64();
        (hi as u128) * 0x1_0000_0000_0000_0000 + (lo as u128)
    }

    /// Draw a bias-free value in `0..n` by rejection sampling.
    pub fn gen_mod_u32(&mut self, n: u32) -> (r: u32)
        requires
            n >= 1,
        ensures
            (final(self).0, r) == lemire_u32(old(self).0, n, LEMIRE_RETRY_BUDGET as nat),
            r < n,
    {
        let ghost s0 = self.0;
        let mut r = self.gen_u32();
        let mut hi = mul_high_u32(r, n);
        let mut lo = r.wrapping_mul(n);
        let mut fuel: u32 = LEMIRE_RETRY_BUDGET;
        if lo < n {
            let t = 0u32.wrapping_sub(n) % n;
            while lo < t && fuel > 1
                invariant
                    n >= 1,
                    1 <= fuel <= LEMIRE_RETRY_BUDGET,
                    t == lemire_threshold_u32(n),
                    hi == spec_mul_high_u32(r, n),
                    lo == vstd::wrapping::u32_specs::wrapping_mul(r, n),
                    lemire_u32(s0, n, LEMIRE_RETRY_BUDGET as nat) == (if lemire_accepts_u32(r, n)
                        || fuel <= 1 {
                        (self.0, spec_mul_high_u32(r, n))
                    } else {
                        lemire_u32(self.0, n, (fuel - 1) as nat)
                    }),
                decreases fuel,
            {
                r = self.gen_u32();
                hi = mul_high_u32(r, n);
                lo = r.wrapping_mul(n);
                fuel = fuel - 1;
            }
            proof {
                lemma_mul_high_u32_bound(r, n);
            }
            hi
        } else {
            assert(lemire_threshold_u32(n) < n as int);
            proof {
                lemma_mul_high_u32_bound(r, n);
            }
            hi
        }
    }

    /// Draw a bias-free value in `0..n` by rejection sampling.
    pub fn gen_mod_u64(&mut self, n: u64) -> (r: u64)
        requires
            n >= 1,
        ensures
            (final(self).0, r) == lemire_u64(old(self).0, n, LEMIRE_RETRY_BUDGET as nat),
            r < n,
    {
        let ghost s0 = self.0;
        let mut r = self.gen_u64();
        let mut hi = mul_high_u64(r, n);
        let mut lo = r.wrapping_mul(n);
        let mut fuel: u32 = LEMIRE_RETRY_BUDGET;
        if lo < n {
            let t = 0u64.wrapping_sub(n) % n;
            while lo < t && fuel > 1
                invariant
                    n >= 1,
                    1 <= fuel <= LEMIRE_RETRY_BUDGET,
                    t == lemire_threshold_u64(n),
                    hi == spec_mul_high_u64(r, n),
                    lo == vstd::wrapping::u64_specs::wrapping_mul(r, n),
                    lemire_u64(s0, n, LEMIRE_RETRY_BUDGET as nat) == (if lemire_accepts_u64(r, n)
                        || fuel <= 1 {
                        (self.0, spec_mul_high_u64(r, n))
                    } else {
                        lemire_u64(self.0, n, (fuel - 1) as nat)
                    }),
                decreases fuel,
            {
                r = self.gen_u64();
                hi = mul_high_u64(r, n);
                lo = r.wrapping_mul(n);
                fuel = fuel - 1;
            }
            proof {
                lemma_mul_high_u64_bound(r, n);
            }
            hi
        } else {
            assert(lemire_threshold_u64(n) < n as int);
            proof {
                lemma_mul_high_u64_bound(r, n);
            }
            hi
        }
    }

    /// Draw a bias-free value in `0..n` by rejection sampling.
    pub fn gen_mod_u128(&mut self, n: u128) -> (r: u128)
        requires
            n >= 1,
        ensures
            (final(self).0, r) == lemire_u128(old(self).0, n, LEMIRE_RETRY_BUDGET as nat),
            r < n,
    {
        let ghost s0 = self.0;
        let mut r = self.gen_u128();
        let mut hi = mul_high_u128(r, n);
        let mut lo = r.wrapping_mul(n);
        let mut fuel: u32 = LEMIRE_RETRY_BUDGET;
        if lo < n {
            let t = 0u128.wrapping_sub(n) % n;
            while lo < t && fuel > 1
                invariant
                    n >= 1,
                    1 <= fuel <= LEMIRE_RETRY_BUDGET,
                    t == lemire_threshold_u128(n),
                    hi == spec_mul_high_u128(r, n),
                    lo == vstd::wrapping::u128_specs::wrapping_mul(r, n),
                    lemire_u128(s0, n, LEMIRE_RETRY_BUDGET as nat) == (if lemire_accepts_u128(r, n)
                        || fuel <= 1 {
                        (self.0, spec_mul_high_u128(r, n))
                    } else {
                        lemire_u128(self.0, n, (fuel - 1) as nat)
                    }),
                decreases fuel,
            {
                r = self.gen_u128();
                hi = mul_high_u128(r, n);
                lo = r.wrapping_mul(n);
                fuel = fuel - 1;
            }
            proof {
                lemma_mul_high_u128_bound(r, n);
            }
            hi
        } else {
            assert(lemire_threshold_u128(n) < n as int);
            proof {
                lemma_mul_high_u128_bound(r, n);
            }
            hi
        }
    }

    /// Draw a `u8` in `low..high`.
    pub fn gen_u8_range(&mut self, low: u8, high: u8) -> (r: u8)
        requires
            low < high,
        ensures
            low <= r < high,
            ({
                let (s2, m) = lemire_u32(old(self).0, (high - low) as u32, LEMIRE_RETRY_BUDGET as nat);
                final(self).0 == s2 && r == low + m
            }),
    {
        let m = self.gen_mod_u32((high - low) as u32);
        low + m as u8
    }

    /// Draw a `u16` in `low..high`.
    pub fn gen_u16_range(&mut self, low: u16, high: u16) -> (r: u16)
        requires
            low < high,
        ensures
            low <= r < high,
            ({
                let (s2, m) = lemire_u32(old(self).0, (high - low) as u32, LEMIRE_RETRY_BUDGET as nat);
                final(self).0 == s2 && r == low + m
            }),
    {
        let m = self.gen_mod_u32((high - low) as u32);
        low + m as u16
    }

    /// Draw an `i8` in `low..=high`.
    pub fn gen_i8_range(&mut self, low: i8, high: i8) -> (r: i8)
        requires
            low <= high,
            high - low < 255,
        ensures
            low <= r <= high,
            ({
                let (s2, m) = lemire_u32(old(self).0, (high - low + 1) as u32, LEMIRE_RETRY_BUDGET as nat);
                final(self).0 == s2 && r == low + m
            }),
    {
        let len = (high as i16 - low as i16 + 1) as u32;
        let m = self.gen_mod_u32(len);
        (low as i16 + m as i16) as i8
    }

    /// Draw an `i16` in `low..=high`.
    pub fn gen_i16_range(&mut self, low: i16, high: i16) -> (r: i16)
        requires
            low <= high,
            high - low < 65535,
        ensures
            low <= r <= high,
            ({
                let (s2, m) = lemire_u32(old(self).0, (high - low + 1) as u32, LEMIRE_RETRY_BUDGET as nat);
                final(self).0 == s2 && r == low + m
            }),
    {
        let len = (high as i32 - low as i32 + 1) as u32;
        let m = self.gen_mod_u32(len);
        (low as i32 + m as i32) as i16
    }

    /// Draw an `i8` from the full range, reinterpreting the low 8 bits of
    /// a raw draw as a signed value.
    pub fn gen_i8_full(&mut self) -> (r: i8)
        ensures
            final(self).0 == rng_next(old(self).0),
            r == vstd::wrapping::i8_specs::signed_crop(spec_draw_u32(old(self).0) as int),
    {
        let m = (self.gen_u32() % 0x100) as u8;
        if m >= 128 {
            ((m as i16) - 256) as i8
        } else {
            m as i8
        }
    }

    /// Draw a `usize` in `low..high`.
    pub fn gen_usize_range(&mut self, low: usize, high: usize) -> (r: usize)
        requires
            low < high,
            high <= u64::MAX,
        ensures
            low <= r < high,
            ({
                let (s2, m) = lemire_u64(old(self).0, (high - low) as u64, LEMIRE_RETRY_BUDGET as nat);
                final(self).0 == s2 && r == low + m
            }),
    {
        let m = self.gen_mod_u64((high - low) as u64);
        low + m as usize
    }

    /// Draw a boolean from the parity of a raw draw.
    pub fn gen_bool(&mut self) -> (r: bool)
        ensures
            final(self).0 == rng_next(old(self).0),
            r == (rng_mix(rng_next(old(self).0)) % 2 == 1),
    {
        self.gen_u64() % 2 == 1
    }
}

} // verus!
