//! Double-precision numbers held as their IEEE 754 binary64 encoding.
//!
//! The pool model receives prices and parameters as 64-bit encodings and
//! decides on them without any hardware arithmetic: whether a number is
//! greater than zero, equal to zero or not a number at all is read off the
//! encoding, and each such reading is proved against the value that the
//! standard assigns to the encoding.

use vstd::prelude::*;
use vstd::arithmetic::power2::pow2;
use vstd::arithmetic::power2::lemma_pow2_pos;
use vstd::arithmetic::power2::lemma_pow2_adds;
use vstd::arithmetic::power2::lemma2_to64_rest;

verus! {

/// The sign bit of an encoding.
pub const SIGN_BIT: u64 = 0x8000_0000_0000_0000;

/// The encoding of positive infinity: every exponent bit set, no fraction bit.
pub const INFINITY_BITS: u64 = 0x7ff0_0000_0000_0000;

/// The encoding of the number one.
pub const ONE_BITS: u64 = 0x3ff0_0000_0000_0000;

/// The encoding of the number two.
pub const TWO_BITS: u64 = 0x4000_0000_0000_0000;

/// The encoding of the binary64 number nearest to one over the square root
/// of two pi, 0.3989422804014327.
pub const INV_SQRT_TWO_PI_BITS: u64 = 0x3fd9_8845_33d4_3651;

/// Two to the power 52: the number of fractions that share one exponent.
pub const FRACTION_SPAN: u64 = 0x10_0000_0000_0000;

/// What an encoding stands for.
///
/// A finite number is given by its sign and by its magnitude counted in
/// units of two to the power -1074, the distance between neighbouring
/// subnormal numbers; every finite binary64 number is a whole multiple of
/// that unit.
pub ghost enum Reading {
    NotANumber,
    Infinite { negative: bool },
    Finite { negative: bool, magnitude: nat },
}

impl Reading {
    pub open spec fn is_nan(self) -> bool {
        self is NotANumber
    }

    pub open spec fn is_finite(self) -> bool {
        self is Finite
    }

    /// Positive or negative zero.
    pub open spec fn is_zero(self) -> bool {
        self matches Reading::Finite { magnitude, .. } && magnitude == 0
    }

    /// Strictly greater than zero; positive infinity counts.
    pub open spec fn is_positive(self) -> bool {
        match self {
            Reading::NotANumber => false,
            Reading::Infinite { negative } => !negative,
            Reading::Finite { negative, magnitude } => !negative && magnitude > 0,
        }
    }

    /// Strictly less than zero; negative infinity counts.
    pub open spec fn is_negative(self) -> bool {
        match self {
            Reading::NotANumber => false,
            Reading::Infinite { negative } => negative,
            Reading::Finite { negative, magnitude } => negative && magnitude > 0,
        }
    }

    /// Greater than or equal to zero.
    pub open spec fn is_non_negative(self) -> bool {
        self.is_zero() || self.is_positive()
    }
}

/// The number of units of two to the power -1074 in the magnitude of a
/// finite encoding with the given exponent and fraction fields.
pub open spec fn magnitude_of(exponent: nat, fraction: nat) -> nat {
    if exponent == 0 {
        fraction
    } else {
        (FRACTION_SPAN as nat + fraction) * pow2((exponent - 1) as nat)
    }
}

/// A binary64 number, held as its encoding.
///
/// `==` on this type compares encodings: the two zeros differ, and a
/// not-a-number encoding equals itself.
#[derive(Clone, Copy, Debug, PartialEq, Eq, Structural)]
pub struct Binary64 {
    pub bits: u64,
}

impl View for Binary64 {
    type V = Reading;

    open spec fn view(&self) -> Reading {
        if self.exponent_field() == 0x7ff {
            if self.fraction_field() == 0 {
                Reading::Infinite { negative: self.sign_field() }
            } else {
                Reading::NotANumber
            }
        } else {
            Reading::Finite {
                negative: self.sign_field(),
                magnitude: magnitude_of(self.exponent_field(), self.fraction_field()),
            }
        }
    }
}

impl Binary64 {
    /// The top bit: set for negative numbers and for negative zero.
    pub open spec fn sign_field(self) -> bool {
        self.bits >= SIGN_BIT
    }

    /// The eleven bits below the sign.
    pub open spec fn exponent_field(self) -> nat {
        ((self.bits as nat) / (FRACTION_SPAN as nat)) % 0x800
    }

    /// The low 52 bits.
    pub open spec fn fraction_field(self) -> nat {
        (self.bits as nat) % (FRACTION_SPAN as nat)
    }

    /// The encoding with its sign bit cleared.
    pub open spec fn unsigned_bits(self) -> nat {
        if self.bits >= SIGN_BIT {
            (self.bits - SIGN_BIT) as nat
        } else {
            self.bits as nat
        }
    }

    pub fn from_bits(bits: u64) -> (r: Binary64)
        ensures
            r.bits == bits,
    {
        Binary64 { bits }
    }

    pub fn to_bits(self) -> (r: u64)
        ensures
            r == self.bits,
    {
        self.bits
    }

    /// Positive zero.
    pub fn zero() -> (r: Binary64)
        ensures
            r.bits == 0,
            r@ == (Reading::Finite { negative: false, magnitude: 0 }),
            r@.is_zero(),
    {
        Binary64 { bits: 0 }
    }

    /// The number one: 2^52 units of 2^-1022, that is 2^1074 units of 2^-1074.
    pub fn one() -> (r: Binary64)
        ensures
            r.bits == ONE_BITS,
            r@ == (Reading::Finite { negative: false, magnitude: pow2(1074) }),
            r@.is_positive(),
    {
        let r = Binary64 { bits: ONE_BITS };
        proof {
            lemma2_to64_rest();
            lemma_pow2_adds(52, 1022);
            lemma_pow2_pos(1074);
            assert(r.exponent_field() == 1023);
            assert(r.fraction_field() == 0);
        }
        r
    }

    /// The number two: 2^1075 units of 2^-1074.
    pub fn two() -> (r: Binary64)
        ensures
            r.bits == TWO_BITS,
            r@ == (Reading::Finite { negative: false, magnitude: pow2(1075) }),
            r@.is_positive(),
    {
        let r = Binary64 { bits: TWO_BITS };
        proof {
            lemma2_to64_rest();
            lemma_pow2_adds(52, 1023);
            lemma_pow2_pos(1075);
            assert(r.exponent_field() == 1024);
            assert(r.fraction_field() == 0);
        }
        r
    }

    /// The encoding with the other sign.
    pub open spec fn negated_bits(self) -> u64 {
        if self.bits >= SIGN_BIT {
            (self.bits - SIGN_BIT) as u64
        } else {
            (self.bits + SIGN_BIT) as u64
        }
    }

    /// What the encoding with the other sign stands for.
    pub open spec fn negated_reading(self) -> Reading {
        match self@ {
            Reading::NotANumber => Reading::NotANumber,
            Reading::Infinite { negative } => (Reading::Infinite { negative: !negative }),
            Reading::Finite { negative, magnitude } => (Reading::Finite {
                negative: !negative,
                magnitude,
            }),
        }
    }

    /// The number with the other sign. Negation is exact: it changes the
    /// sign and nothing else, and leaves what is not a number not a number.
    pub fn negated(self) -> (r: Binary64)
        ensures
            r.bits == self.negated_bits(),
            r@ == self.negated_reading(),
    {
        proof {
            self.lemma_negated();
        }
        if self.bits >= SIGN_BIT {
            Binary64 { bits: self.bits - SIGN_BIT }
        } else {
            Binary64 { bits: self.bits + SIGN_BIT }
        }
    }

    /// Changing the sign bit changes the sign that is read and nothing else.
    pub proof fn lemma_negated(self)
        ensures
            (Binary64 { bits: self.negated_bits() })@ == self.negated_reading(),
            (Binary64 { bits: self.negated_bits() }).sign_field() == !self.sign_field(),
    {
        let r = Binary64 { bits: self.negated_bits() };
        self.lemma_fields();
        r.lemma_fields();
        assert(r.exponent_field() == self.exponent_field() && r.fraction_field()
            == self.fraction_field()) by (nonlinear_arith)
            requires
                r.unsigned_bits() == self.unsigned_bits(),
                r.unsigned_bits() == r.exponent_field() * FRACTION_SPAN + r.fraction_field(),
                self.unsigned_bits() == self.exponent_field() * FRACTION_SPAN
                    + self.fraction_field(),
                r.fraction_field() < FRACTION_SPAN,
                self.fraction_field() < FRACTION_SPAN,
        ;
    }

    fn magnitude_bits(self) -> (r: u64)
        ensures
            r == self.unsigned_bits(),
            r < SIGN_BIT,
    {
        if self.bits >= SIGN_BIT {
            self.bits - SIGN_BIT
        } else {
            self.bits
        }
    }

    pub fn is_nan(self) -> (r: bool)
        ensures
            r == self@.is_nan(),
    {
        proof {
            self.lemma_fields();
        }
        self.magnitude_bits() > INFINITY_BITS
    }

    pub fn is_finite(self) -> (r: bool)
        ensures
            r == self@.is_finite(),
    {
        proof {
            self.lemma_fields();
        }
        self.magnitude_bits() < INFINITY_BITS
    }

    pub fn is_zero(self) -> (r: bool)
        ensures
            r == self@.is_zero(),
    {
        proof {
            self.lemma_fields();
            self.lemma_magnitude();
        }
        self.magnitude_bits() == 0
    }

    /// Whether the number is greater than zero.
    pub fn is_positive(self) -> (r: bool)
        ensures
            r == self@.is_positive(),
    {
        proof {
            self.lemma_fields();
            self.lemma_magnitude();
        }
        0 < self.bits && self.bits <= INFINITY_BITS
    }

    /// Whether the number is less than zero.
    pub fn is_negative(self) -> (r: bool)
        ensures
            r == self@.is_negative(),
    {
        proof {
            self.lemma_fields();
            self.lemma_magnitude();
        }
        self.bits > SIGN_BIT && self.magnitude_bits() <= INFINITY_BITS
    }

    /// Whether the number is greater than or equal to zero.
    pub fn is_non_negative(self) -> (r: bool)
        ensures
            r == self@.is_non_negative(),
    {
        proof {
            self.lemma_fields();
            self.lemma_magnitude();
        }
        self.bits <= INFINITY_BITS || self.bits == SIGN_BIT
    }

    /// The encoding without its sign is the exponent field times 2^52 plus
    /// the fraction field.
    pub proof fn lemma_fields(self)
        ensures
            self.unsigned_bits() == self.exponent_field() * FRACTION_SPAN + self.fraction_field(),
            self.exponent_field() < 0x800,
            self.fraction_field() < FRACTION_SPAN,
    {
        let b = self.bits as nat;
        let span = FRACTION_SPAN as nat;
        let q = b / span;
        assert(b == q * span + b % span) by (nonlinear_arith)
            requires
                q == b / span,
                span == 0x10_0000_0000_0000,
        ;
        assert(q < 0x1000) by (nonlinear_arith)
            requires
                q == b / span,
                span == 0x10_0000_0000_0000,
                b < 0x1_0000_0000_0000_0000,
        ;
        if self.bits >= SIGN_BIT {
            assert(q >= 0x800) by (nonlinear_arith)
                requires
                    q == b / span,
                    span == 0x10_0000_0000_0000,
                    b >= 0x8000_0000_0000_0000,
            ;
            assert(q % 0x800 == q - 0x800);
        } else {
            assert(q < 0x800) by (nonlinear_arith)
                requires
                    q == b / span,
                    span == 0x10_0000_0000_0000,
                    b < 0x8000_0000_0000_0000,
            ;
            assert(q % 0x800 == q);
        }
    }

    /// A finite encoding has magnitude zero exactly when both of its fields
    /// are zero.
    pub proof fn lemma_magnitude(self)
        ensures
            magnitude_of(self.exponent_field(), self.fraction_field()) == 0 <==> (
            self.exponent_field() == 0 && self.fraction_field() == 0),
    {
        let e = self.exponent_field();
        let f = self.fraction_field();
        if e != 0 {
            lemma_pow2_pos((e - 1) as nat);
            let p = pow2((e - 1) as nat);
            assert((FRACTION_SPAN as nat + f) * p > 0) by (nonlinear_arith)
                requires
                    p > 0,
                    FRACTION_SPAN as nat + f > 0,
            ;
        }
    }
}

} // verus!
