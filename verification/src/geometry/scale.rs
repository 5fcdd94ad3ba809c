use vstd::prelude::*;
use vstd::arithmetic::div_mod::lemma_basic_div;
use vstd::arithmetic::power2::{
    lemma2_to64, lemma2_to64_rest, lemma_pow2_adds, lemma_pow2_pos, lemma_pow2_strictly_increases,
    lemma_pow2_unfold, pow2,
};

verus! {

/// A scale factor: a single-precision binary floating-point number, held as its
/// bit pattern (one sign bit, eight exponent bits, twenty-three fraction bits), so
/// that it can be applied in exact integer arithmetic.
#[derive(Copy, Clone, Debug, PartialEq, Eq, Structural)]
pub struct Scale {
    pub bits: u32,
}

impl Scale {
    /// The sign bit is set: the number is negative, or a negative zero.
    pub open spec fn negative(self) -> bool {
        self.bits >= 0x8000_0000
    }

    /// The eight exponent bits.
    pub open spec fn exponent_bits(self) -> nat {
        (self.bits as nat / 0x80_0000) % 256
    }

    /// The twenty-three fraction bits.
    pub open spec fn fraction_bits(self) -> nat {
        self.bits as nat % 0x80_0000
    }

    /// Not a number.
    pub open spec fn is_nan(self) -> bool {
        self.exponent_bits() == 255 && self.fraction_bits() != 0
    }

    /// An infinity.
    pub open spec fn is_infinite(self) -> bool {
        self.exponent_bits() == 255 && self.fraction_bits() == 0
    }

    /// The significand of a finite number as an integer: the number's magnitude is
    /// `significand() * 2^exponent()`.
    pub open spec fn significand(self) -> nat {
        if self.exponent_bits() == 0 {
            self.fraction_bits()
        } else {
            0x80_0000 + self.fraction_bits()
        }
    }

    /// The power of two that weighs the significand of a finite number.
    pub open spec fn exponent(self) -> int {
        if self.exponent_bits() == 0 {
            -149
        } else {
            self.exponent_bits() - 150
        }
    }

    /// `floor(r * m)`, where `m` is the magnitude of a finite number.
    pub open spec fn floor_of_product(self, r: nat) -> nat {
        if self.exponent() >= 0 {
            r * self.significand() * pow2(self.exponent() as nat)
        } else {
            (r * self.significand()) / pow2((-self.exponent()) as nat)
        }
    }

    /// `floor(r * f)` for the number `f` that the bits stand for, brought into the
    /// range of `usize`: zero where `f` is negative or not a number, the greatest
    /// `usize` where the product is too large, infinite included.
    pub open spec fn scaled(self, r: usize) -> usize {
        if self.negative() || self.is_nan() {
            0
        } else if self.is_infinite() {
            if r == 0 {
                0
            } else {
                usize::MAX
            }
        } else if self.floor_of_product(r as nat) > usize::MAX {
            usize::MAX
        } else {
            self.floor_of_product(r as nat) as usize
        }
    }

    /// The scale factor with the given bit pattern.
    pub fn from_bits(bits: u32) -> (s: Scale)
        ensures
            s.bits == bits,
    {
        Scale { bits }
    }

    /// The bit pattern.
    pub fn to_bits(self) -> (bits: u32)
        ensures
            bits == self.bits,
    {
        self.bits
    }

    /// Applies the factor to `r`, rounding down.
    pub fn of(self, r: usize) -> (scaled: usize)
        ensures
            scaled == self.scaled(r),
    {
        let exponent_bits: u32 = (self.bits / 0x80_0000) % 256;
        let fraction_bits: u32 = self.bits % 0x80_0000;
        if self.bits >= 0x8000_0000 {
            return 0;
        }
        if exponent_bits == 255 {
            return if fraction_bits != 0 || r == 0 {
                0
            } else {
                usize::MAX
            };
        }
        let significand: u128 = if exponent_bits == 0 {
            fraction_bits as u128
        } else {
            0x80_0000u128 + fraction_bits as u128
        };
        assert(r as u128 * significand < 0x1_0000_0000_0000_0000 * 0x100_0000) by (nonlinear_arith)
            requires
                r < 0x1_0000_0000_0000_0000,
                significand < 0x100_0000,
        ;
        let product: u128 = r as u128 * significand;
        proof {
            lemma2_to64();
            lemma2_to64_rest();
        }
        if exponent_bits >= 150 {
            let k: u32 = exponent_bits - 150;
            proof {
                lemma_pow2_pos(k as nat);
            }
            if product == 0 {
                assert(product * pow2(k as nat) == 0) by (nonlinear_arith)
                    requires
                        product == 0,
                ;
                return 0;
            }
            if k >= 64 || product > usize::MAX as u128 {
                proof {
                    if k > 64 {
                        lemma_pow2_strictly_increases(64, k as nat);
                    }
                    assert(product * pow2(k as nat) > usize::MAX) by (nonlinear_arith)
                        requires
                            product >= 1,
                            pow2(k as nat) >= 1,
                            pow2(k as nat) >= 0x1_0000_0000_0000_0000 || product > usize::MAX,
                            usize::MAX < 0x1_0000_0000_0000_0000,
                    ;
                }
                return usize::MAX;
            }
            let weight: u128 = pow2_u128(k);
            proof {
                lemma_pow2_strictly_increases(k as nat, 64);
                assert(product * weight < 0x1_0000_0000_0000_0000 * 0x1_0000_0000_0000_0000)
                    by (nonlinear_arith)
                    requires
                        product < 0x1_0000_0000_0000_0000,
                        weight < 0x1_0000_0000_0000_0000,
                ;
            }
            let value: u128 = product * weight;
            if value > usize::MAX as u128 {
                usize::MAX
            } else {
                value as usize
            }
        } else {
            let k: u32 = if exponent_bits == 0 {
                149
            } else {
                150 - exponent_bits
            };
            if k >= 88 {
                proof {
                    lemma_pow2_adds(64, 24);
                    if k > 88 {
                        lemma_pow2_strictly_increases(88, k as nat);
                    }
                    lemma_basic_div(product as int, pow2(k as nat) as int);
                }
                return 0;
            }
            let weight: u128 = pow2_u128(k);
            proof {
                lemma_pow2_pos(k as nat);
            }
            let value: u128 = product / weight;
            if value > usize::MAX as u128 {
                usize::MAX
            } else {
                value as usize
            }
        }
    }
}

/// Two to the power `k`.
fn pow2_u128(k: u32) -> (p: u128)
    requires
        k <= 126,
    ensures
        p == pow2(k as nat),
{
    let mut p: u128 = 1;
    let mut i: u32 = 0;
    proof {
        lemma2_to64();
        lemma2_to64_rest();
        lemma_pow2_adds(64, 63);
    }
    while i < k
        invariant
            i <= k <= 126,
            p == pow2(i as nat),
            pow2(127) == 0x1_0000_0000_0000_0000 * 0x8000_0000_0000_0000,
        decreases k - i,
    {
        proof {
            lemma_pow2_unfold((i + 1) as nat);
            lemma_pow2_strictly_increases((i + 1) as nat, 127);
        }
        p = p * 2;
        i += 1;
    }
    p
}

} // verus!
