//! Numbers of seconds with a fraction, in the binary64 format of IEEE 754.

use vstd::arithmetic::power2::{
    lemma2_to64, lemma_pow2_adds, lemma_pow2_pos, lemma_pow2_strictly_increases, pow2,
};
use vstd::bits::{lemma_u64_shl_is_mul, lemma_u64_shr_is_div};
use vstd::prelude::*;

verus! {

/// A number of seconds, by the 64 bits of its binary64 representation.
#[derive(Debug, Clone, Copy, PartialEq, Eq, Structural)]
pub struct Offset {
    /// From the most significant bit down: the sign, eleven bits of exponent and 52 bits of mantissa.
    pub bits: u64,
}

impl Offset {
    /// Whether the sign is negative.
    pub open spec fn negative(self) -> bool {
        self.bits >= 0x8000_0000_0000_0000
    }

    /// The exponent.
    pub open spec fn exponent(self) -> nat {
        (self.bits as nat / 0x10_0000_0000_0000) % 0x800
    }

    /// The mantissa, without the leading bit that it may imply.
    pub open spec fn mantissa(self) -> nat {
        self.bits as nat % 0x10_0000_0000_0000
    }

    /// The significant bits as a whole number.
    pub open spec fn significand(self) -> nat {
        if self.exponent() == 0 {
            self.mantissa()
        } else {
            0x10_0000_0000_0000 + self.mantissa()
        }
    }

    /// Whether this is no number at all.
    pub open spec fn is_nan(self) -> bool {
        self.exponent() == 0x7ff && self.mantissa() != 0
    }

    /// Whether this is a number below zero. Zero with a negative sign is none.
    pub open spec fn below_zero(self) -> bool {
        self.negative() && self.significand() != 0 && !self.is_nan()
    }

    /// The whole part of the number without its sign. What is infinite or no number counts as more
    /// than any other.
    pub open spec fn magnitude(self) -> nat {
        if self.exponent() >= 1075 {
            self.significand() * pow2((self.exponent() - 1075) as nat)
        } else if self.exponent() >= 1 {
            self.significand() / pow2((1075 - self.exponent()) as nat)
        } else {
            self.significand() / pow2(1074)
        }
    }

    /// The number cut towards zero to a whole one, held between the least and the greatest one of 64
    /// bits; zero where it is no number.
    pub open spec fn whole(self) -> int {
        if self.is_nan() {
            0
        } else if self.negative() {
            if self.magnitude() > 0x8000_0000_0000_0000 {
                i64::MIN as int
            } else {
                -(self.magnitude() as int)
            }
        } else {
            if self.magnitude() > i64::MAX {
                i64::MAX as int
            } else {
                self.magnitude() as int
            }
        }
    }

    /// Whether two offsets are the same number, or both no number at all.
    pub open spec fn same(self, other: Offset) -> bool {
        self == other || self.is_nan() && other.is_nan()
    }

    /// The whole part of the number without its sign, if it has at most 63 bits.
    fn small_magnitude(self) -> (res: Option<u64>)
        ensures
            match res {
                Some(magnitude) => {
                    &&& magnitude == self.magnitude()
                    &&& magnitude < 0x8000_0000_0000_0000
                },
                None => self.magnitude() >= 0x8000_0000_0000_0000,
            },
    {
        let exponent: u64 = (self.bits / 0x10_0000_0000_0000) % 0x800;
        let mantissa: u64 = self.bits % 0x10_0000_0000_0000;
        let significand: u64 = if exponent == 0 {
            mantissa
        } else {
            0x10_0000_0000_0000 + mantissa
        };
        proof {
            lemma2_to64();
        }
        if exponent >= 1086 {
            proof {
                let rest = (exponent - 1086) as nat;
                lemma_pow2_adds(11, rest);
                lemma_pow2_pos(rest);
                assert(significand * pow2((exponent - 1075) as nat) >= 0x8000_0000_0000_0000)
                    by (nonlinear_arith)
                    requires
                        significand >= 0x10_0000_0000_0000,
                        pow2((exponent - 1075) as nat) == 2048 * pow2(rest),
                        pow2(rest) >= 1,
                ;
            }
            None
        } else if exponent >= 1075 {
            let shift: u64 = exponent - 1075;
            proof {
                if shift < 10 {
                    lemma_pow2_strictly_increases(shift as nat, 10);
                }
                assert(significand * pow2(shift as nat) < 0x8000_0000_0000_0000)
                    by (nonlinear_arith)
                    requires
                        significand < 0x20_0000_0000_0000,
                        pow2(shift as nat) <= 1024,
                ;
                lemma_u64_shl_is_mul(significand, shift);
            }
            Some(significand << shift)
        } else {
            let shift: u64 = if exponent == 0 {
                1074
            } else {
                1075 - exponent
            };
            if shift >= 64 {
                proof {
                    if shift > 64 {
                        lemma_pow2_strictly_increases(64, shift as nat);
                    }
                    vstd::arithmetic::div_mod::lemma_basic_div(
                        significand as int,
                        pow2(shift as nat) as int,
                    );
                }
                Some(0)
            } else {
                proof {
                    lemma_u64_shr_is_div(significand, shift);
                    lemma_pow2_pos(shift as nat);
                    vstd::arithmetic::div_mod::lemma_div_is_ordered_by_denominator(
                        significand as int,
                        1,
                        pow2(shift as nat) as int,
                    );
                }
                Some(significand >> shift)
            }
        }
    }

    /// Whether the number is below zero.
    pub fn is_below_zero(self) -> (res: bool)
        ensures
            res == self.below_zero(),
    {
        let exponent: u64 = (self.bits / 0x10_0000_0000_0000) % 0x800;
        let mantissa: u64 = self.bits % 0x10_0000_0000_0000;
        self.bits >= 0x8000_0000_0000_0000 && (exponent != 0 || mantissa != 0) && !(exponent
            == 0x7ff && mantissa != 0)
    }

    /// Cuts the number to a whole one.
    pub fn to_whole(self) -> (res: i64)
        ensures
            res == self.whole(),
    {
        let exponent: u64 = (self.bits / 0x10_0000_0000_0000) % 0x800;
        let mantissa: u64 = self.bits % 0x10_0000_0000_0000;
        if exponent == 0x7ff && mantissa != 0 {
            return 0;
        }
        let negative = self.bits >= 0x8000_0000_0000_0000;
        match self.small_magnitude() {
            Some(magnitude) => if negative {
                -(magnitude as i64)
            } else {
                magnitude as i64
            },
            None => if negative {
                i64::MIN
            } else {
                i64::MAX
            },
        }
    }

    /// Whether the number is zero or more, and adding its whole part to `secs` gives a number of
    /// seconds that a clock can show.
    pub fn is_addable(self, secs: u64) -> (res: bool)
        ensures
            res == addable(secs, self),
    {
        if self.is_below_zero() {
            return false;
        }
        match self.small_magnitude() {
            Some(magnitude) => secs <= i64::MAX as u64 && magnitude <= i64::MAX as u64 - secs,
            None => false,
        }
    }
}

/// Whether `offset` is zero or more, and adding its whole part to `secs` gives a number of seconds
/// that a clock can show.
pub open spec fn addable(secs: u64, offset: Offset) -> bool {
    !offset.below_zero() && secs + offset.magnitude() <= i64::MAX
}

/// What is no number counts as more than a clock can show.
proof fn lemma_nan_is_vast(offset: Offset)
    requires
        offset.is_nan(),
    ensures
        offset.magnitude() > i64::MAX,
{
    let scale = pow2(972);
    lemma2_to64();
    lemma_pow2_adds(11, 961);
    lemma_pow2_pos(961);
    assert(scale >= 2048);
    assert(offset.significand() * scale > i64::MAX) by (nonlinear_arith)
        requires
            offset.significand() >= 0x10_0000_0000_0000,
            scale >= 2048,
    ;
}

/// Offsets that are the same are cut to the same whole number, and can be added to the same seconds:
/// it makes no difference by which bits a value is shown to be no number.
pub proof fn law_same_offsets_act_the_same(one: Offset, other: Offset, secs: u64)
    requires
        one.same(other),
    ensures
        one.whole() == other.whole(),
        addable(secs, one) == addable(secs, other),
{
    if one.is_nan() && other.is_nan() {
        lemma_nan_is_vast(one);
        lemma_nan_is_vast(other);
    }
}

/// Cutting an offset drops its fraction and keeps its sign: the whole part is the number of whole
/// units in the significant bits, and what has more than 63 bits is held at the nearest end.
pub proof fn law_cutting_drops_the_fraction(offset: Offset)
    ensures
        offset.is_nan() ==> offset.whole() == 0,
        !offset.is_nan() ==> {
            &&& offset.magnitude() < 0x8000_0000_0000_0000 ==> offset.whole() == if offset.bits
                >= 0x8000_0000_0000_0000 {
                -offset.magnitude()
            } else {
                offset.magnitude() as int
            }
            &&& offset.magnitude() >= 0x8000_0000_0000_0000 ==> offset.whole() == if offset.bits
                >= 0x8000_0000_0000_0000 {
                i64::MIN as int
            } else {
                i64::MAX as int
            }
        },
        offset.exponent() >= 1075 ==> offset.magnitude() == offset.significand() * pow2(
            (offset.exponent() - 1075) as nat,
        ),
        1 <= offset.exponent() < 1075 ==> {
            let unit = pow2((1075 - offset.exponent()) as nat);
            unit * offset.magnitude() <= offset.significand() < unit * offset.magnitude() + unit
        },
        offset.exponent() == 0 ==> offset.magnitude() == 0,
{
    if 1 <= offset.exponent() < 1075 {
        let unit = pow2((1075 - offset.exponent()) as nat);
        lemma_pow2_pos((1075 - offset.exponent()) as nat);
        vstd::arithmetic::div_mod::lemma_fundamental_div_mod(
            offset.significand() as int,
            unit as int,
        );
        vstd::arithmetic::div_mod::lemma_mod_bound(offset.significand() as int, unit as int);
    } else if offset.exponent() == 0 {
        lemma2_to64();
        lemma_pow2_strictly_increases(64, 1074);
        vstd::arithmetic::div_mod::lemma_basic_div(
            offset.significand() as int,
            pow2(1074) as int,
        );
    }
}

/// The parts of an offset make up its bits.
pub proof fn law_parts_make_up_the_bits(offset: Offset)
    ensures
        offset.bits == (if offset.negative() {
            0x8000_0000_0000_0000int
        } else {
            0int
        }) + offset.exponent() * 0x10_0000_0000_0000 + offset.mantissa(),
        offset.exponent() < 0x800,
        offset.mantissa() < 0x10_0000_0000_0000,
        offset.significand() == offset.mantissa() + if offset.exponent() == 0 {
            0int
        } else {
            0x10_0000_0000_0000
        },
        offset.is_nan() <==> offset.exponent() == 0x7ff && offset.mantissa() > 0,
        offset.below_zero() <==> offset.negative() && !offset.is_nan() && (offset.exponent() > 0
            || offset.mantissa() > 0),
{
}

}
