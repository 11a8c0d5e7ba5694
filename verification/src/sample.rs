use vstd::arithmetic::power2::{lemma2_to64, lemma_pow2_strictly_increases, lemma_pow2_unfold, pow2};
use vstd::prelude::*;

verus! {

/// The number of steps into which the unit interval is divided: 2^23, one
/// for each value of a single-precision fraction field.
pub const UNIT_STEPS: u32 = 0x80_0000;

/// The bit pattern of the single-precision number 1.0.
pub const ONE_BITS: u32 = 0x3f80_0000;

/// The sign bit of a single-precision bit pattern.
pub open spec fn sign_field(bits: u32) -> int {
    bits as int / 0x8000_0000
}

/// The biased exponent of a single-precision bit pattern.
pub open spec fn exponent_field(bits: u32) -> int {
    (bits as int / 0x80_0000) % 256
}

/// The fraction field of a single-precision bit pattern.
pub open spec fn fraction_field(bits: u32) -> int {
    bits as int % 0x80_0000
}

/// `bits` is the IEEE-754 single-precision number whose value is exactly
/// `n / 2^23`.
///
/// Zero is the pattern of +0.0. A positive value is a normal number
/// `(1 + f / 2^23) * 2^(e - 127)` with sign clear, so it equals `n / 2^23`
/// when `2^23 + f == n * 2^(127 - e)`.
pub open spec fn encodes_fraction(bits: u32, n: nat) -> bool {
    if n == 0 {
        bits == 0
    } else {
        &&& sign_field(bits) == 0
        &&& 1 <= exponent_field(bits) <= 126
        &&& 0x80_0000 + fraction_field(bits) == n * pow2((127 - exponent_field(bits)) as nat)
    }
}

/// A positive single below two has one encoding only: two bit patterns that
/// stand for the same count of steps are the same pattern.
pub proof fn lemma_encoding_unique(first: u32, second: u32, n: nat)
    requires
        encodes_fraction(first, n),
        encodes_fraction(second, n),
    ensures
        first == second,
{
    if n != 0 {
        let s1 = (127 - exponent_field(first)) as nat;
        let s2 = (127 - exponent_field(second)) as nat;
        if s1 < s2 {
            lemma_shift_doubles(n, s1, s2);
        }
        if s2 < s1 {
            lemma_shift_doubles(n, s2, s1);
        }
        assert(s1 == s2);
        assert(fraction_field(first) == fraction_field(second));
        lemma_fields_make_pattern(first);
        lemma_fields_make_pattern(second);
    }
}

/// A bit pattern is made of its three fields.
proof fn lemma_fields_make_pattern(bits: u32)
    ensures
        bits == sign_field(bits) * 0x8000_0000 + exponent_field(bits) * 0x80_0000 + fraction_field(
            bits,
        ),
{
    let q = bits as int / 0x80_0000;
    assert(bits == q * 0x80_0000 + bits as int % 0x80_0000);
    assert(q == (q / 256) * 256 + q % 256);
    assert(q / 256 == bits as int / 0x8000_0000);
}

/// A shift by more places at least doubles a positive number.
proof fn lemma_shift_doubles(n: nat, less: nat, more: nat)
    requires
        n >= 1,
        less < more,
    ensures
        n * pow2(more) >= 2 * (n * pow2(less)),
{
    lemma_pow2_unfold(less + 1);
    if less + 1 < more {
        lemma_pow2_strictly_increases(less + 1, more);
    }
    assert(n * pow2(more) >= n * (2 * pow2(less))) by (nonlinear_arith)
        requires
            pow2(more) >= 2 * pow2(less),
            n >= 1,
    ;
    assert(n * (2 * pow2(less)) == 2 * (n * pow2(less))) by (nonlinear_arith);
}

/// The single that stands for a count of steps below 2^23 lies below 1.0:
/// its bit pattern is smaller than that of 1.0, and among non-negative
/// singles the patterns are ordered as the values are.
pub proof fn lemma_encoding_below_one(bits: u32, n: nat)
    requires
        encodes_fraction(bits, n),
    ensures
        bits < ONE_BITS,
{
    if n != 0 {
        lemma_fields_make_pattern(bits);
    }
}

/// A value of the half-open unit interval, kept as the count of steps of
/// width 2^-23: the sample `n` stands for the number `n / 2^23`.
#[derive(Clone, Copy, Debug, PartialEq, Eq, Structural)]
pub struct UnitSample {
    pub steps: u32,
}

impl View for UnitSample {
    type V = nat;

    open spec fn view(&self) -> nat {
        self.steps as nat
    }
}

impl UnitSample {
    /// The count stays below 2^23, so the value stays below one.
    pub open spec fn wf(self) -> bool {
        self@ < 0x80_0000
    }

    /// The sample of `steps / 2^23`, where that lies below one.
    pub fn from_steps(steps: u32) -> (sample: Option<Self>)
        ensures
            match sample {
                Some(s) => steps < 0x80_0000 && s@ == steps && s.wf(),
                None => steps >= 0x80_0000,
            },
    {
        if steps < UNIT_STEPS {
            Some(UnitSample { steps })
        } else {
            None
        }
    }

    /// The sample that the upper 23 bits of a word spell: the number that
    /// results when those bits become the fraction field of a single in
    /// [1, 2) and one is taken off.
    pub fn from_word(word: u32) -> (sample: Self)
        ensures
            sample@ == word as nat / 512,
            sample.wf(),
    {
        UnitSample { steps: word / 512 }
    }

    /// The count of steps.
    pub fn steps(&self) -> (steps: u32)
        ensures
            steps == self@,
    {
        self.steps
    }

    /// The bit pattern of the single-precision number equal to this sample.
    /// It lies below the pattern of 1.0, and patterns of non-negative
    /// singles are ordered as their values are.
    pub fn to_float_bits(&self) -> (bits: u32)
        requires
            self.wf(),
        ensures
            encodes_fraction(bits, self@),
            bits < ONE_BITS,
    {
        let n: u32 = self.steps;
        if n == 0 {
            return 0;
        }
        let mut scaled: u32 = n;
        let mut shift: u32 = 0;
        proof {
            lemma2_to64();
        }
        while scaled < UNIT_STEPS
            invariant
                1 <= n < 0x80_0000,
                scaled == n * pow2(shift as nat),
                1 <= scaled < 0x100_0000,
                shift <= 23,
                shift == 0 ==> scaled == n,
            decreases 0x100_0000 - scaled,
        {
            proof {
                lemma2_to64();
                lemma_pow2_unfold((shift + 1) as nat);
                if shift >= 23 {
                    if shift > 23 {
                        lemma_pow2_strictly_increases(23, shift as nat);
                    }
                    assert(n * pow2(shift as nat) >= pow2(shift as nat)) by (nonlinear_arith)
                        requires
                            n >= 1,
                    ;
                    assert(false);
                }
                assert(n * (2 * pow2(shift as nat)) == 2 * (n * pow2(shift as nat)))
                    by (nonlinear_arith);
            }
            scaled = scaled * 2;
            shift = shift + 1;
        }
        assert(shift >= 1);
        let exponent: u32 = 127 - shift;
        let fraction: u32 = scaled - UNIT_STEPS;
        let bits: u32 = exponent * UNIT_STEPS + fraction;
        assert(bits as int / 0x80_0000 == exponent);
        assert(bits as int % 0x80_0000 == fraction);
        assert(bits as int / 0x8000_0000 == 0);
        bits
    }

    /// The sample on the scale of a byte: the whole part of 255 times the
    /// value.
    pub fn to_u8(&self) -> (level: u8)
        requires
            self.wf(),
        ensures
            level == (255 * self@) / 0x80_0000,
            level <= 254,
    {
        let scaled: u32 = self.steps * 255;
        let level: u32 = scaled / UNIT_STEPS;
        level as u8
    }
}

} // verus!
