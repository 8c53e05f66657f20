//! Exact non-negative rationals over 64-bit numerators and denominators.

use core::cmp::Ordering;
use vstd::prelude::*;
use vstd::std_specs::cmp::{PartialEqSpecImpl, PartialOrdSpecImpl};

use crate::error::JogoError;

verus! {

/// A non-negative rational number `numerator / denominator`.
///
/// The denominator is never zero. Two fractions are compared by
/// cross-multiplication in a wider integer type, so `1/2` equals `2/4`.
#[derive(Clone, Copy, Debug)]
pub struct Fraction {
    numerator: u64,
    denominator: u64,
}

impl Fraction {
    /// The numerator, as a mathematical integer.
    pub closed spec fn numer(self) -> nat {
        self.numerator as nat
    }

    /// The denominator, as a mathematical integer.
    pub closed spec fn denom(self) -> nat {
        self.denominator as nat
    }

    /// What holds of every fraction that executable code can hold: the
    /// denominator is not zero.
    #[verifier::type_invariant]
    pub open spec fn valid(self) -> bool {
        self.denom() > 0
    }

    /// `floor(self * x)`, without any bound.
    pub open spec fn mul_floor(self, x: nat) -> nat {
        self.numer() * x / self.denom()
    }

    /// Whether the two fractions denote the same rational number.
    pub open spec fn same_value(self, other: Fraction) -> bool {
        self.numer() * other.denom() == self.denom() * other.numer()
    }

    /// Whether `self` denotes a smaller rational number than `other`.
    pub open spec fn less_than(self, other: Fraction) -> bool {
        self.numer() * other.denom() < self.denom() * other.numer()
    }

    /// The product of two fractions has the value of every fraction whose
    /// numerator is the product of the numerators and whose denominator is
    /// the product of the denominators.
    pub proof fn lemma_product_value(a: Fraction, b: Fraction, product: Fraction, other: Fraction)
        requires
            product.numer() == a.numer() * b.numer(),
            product.denom() == a.denom() * b.denom(),
            other.numer() == a.numer() * b.numer(),
            other.denom() == a.denom() * b.denom(),
        ensures
            product.same_value(other),
    {
        assert(product.numer() * other.denom() == product.denom() * other.numer())
            by (nonlinear_arith)
            requires
                product.numer() == other.numer(),
                product.denom() == other.denom(),
        ;
    }

    /// The fraction `numerator / denominator`; `InvalidFraction` exactly when
    /// the denominator is zero.
    pub fn new(numerator: u64, denominator: u64) -> (out: Result<Fraction, JogoError>)
        ensures
            denominator == 0 <==> out is Err,
            out matches Err(e) ==> e == JogoError::InvalidFraction,
            out matches Ok(f) ==> f.numer() == numerator && f.denom() == denominator && f.valid(),
    {
        if denominator == 0 {
            Err(JogoError::InvalidFraction)
        } else {
            Ok(Fraction { numerator, denominator })
        }
    }

    /// The fraction `0 / 1`.
    pub fn zero() -> (out: Fraction)
        ensures
            out.numer() == 0,
            out.denom() == 1,
    {
        Fraction { numerator: 0, denominator: 1 }
    }

    /// The fraction `1 / 1`.
    pub fn one() -> (out: Fraction)
        ensures
            out.numer() == 1,
            out.denom() == 1,
    {
        Fraction { numerator: 1, denominator: 1 }
    }

    /// The numerator.
    pub fn numerator(&self) -> (n: u64)
        ensures
            n == self.numer(),
    {
        self.numerator
    }

    /// The denominator, which is never zero.
    pub fn denominator(&self) -> (d: u64)
        ensures
            d == self.denom(),
            d > 0,
    {
        proof {
            use_type_invariant(self);
        }
        self.denominator
    }

    /// The product of two fractions, numerator by numerator and denominator
    /// by denominator; `FractionOverflow` exactly when one of the two
    /// products does not fit in 64 bits.
    pub fn try_mul(self, other: Fraction) -> (out: Result<Fraction, JogoError>)
        ensures
            out is Ok <==> self.numer() * other.numer() <= u64::MAX && self.denom() * other.denom()
                <= u64::MAX,
            out matches Err(e) ==> e == JogoError::FractionOverflow,
            out matches Ok(f) ==> f.numer() == self.numer() * other.numer() && f.denom()
                == self.denom() * other.denom() && f.valid(),
    {
        proof {
            use_type_invariant(self);
            use_type_invariant(other);
        }
        let numerator = self.numerator.checked_mul(other.numerator);
        let denominator = self.denominator.checked_mul(other.denominator);
        match (numerator, denominator) {
            (Some(numerator), Some(denominator)) => {
                assert(denominator != 0) by (nonlinear_arith)
                    requires
                        denominator == self.denominator * other.denominator,
                        self.denominator != 0,
                        other.denominator != 0,
                ;
                Ok(Fraction { numerator, denominator })
            },
            _ => Err(JogoError::FractionOverflow),
        }
    }

    /// `floor(self * other)` where it fits in 64 bits, `None` where it does
    /// not. The product is taken in 128 bits, so it never overflows.
    pub fn checked_mul_u64(self, other: u64) -> (out: Option<u64>)
        ensures
            self.valid(),
            out is Some <==> self.mul_floor(other as nat) <= u64::MAX,
            out matches Some(v) ==> v == self.mul_floor(other as nat),
    {
        proof {
            use_type_invariant(self);
        }
        let wide: u128 = widening_mul(self.numerator, other) / (self.denominator as u128);
        if wide > u64::MAX as u128 {
            None
        } else {
            Some(wide as u64)
        }
    }

    /// `floor(self * other)`.
    pub fn mul_u64(self, other: u64) -> (out: u64)
        requires
            self.mul_floor(other as nat) <= u64::MAX,
        ensures
            out == self.mul_floor(other as nat),
    {
        proof {
            use_type_invariant(self);
        }
        let wide: u128 = widening_mul(self.numerator, other) / (self.denominator as u128);
        wide as u64
    }

    /// `min(floor(self * other), cap)`: the product, held to a ceiling.
    pub fn mul_u64_capped(self, other: u64, cap: u64) -> (out: u64)
        ensures
            out == if self.mul_floor(other as nat) <= cap {
                self.mul_floor(other as nat)
            } else {
                cap as nat
            },
    {
        proof {
            use_type_invariant(self);
        }
        let wide: u128 = widening_mul(self.numerator, other) / (self.denominator as u128);
        if wide <= cap as u128 {
            wide as u64
        } else {
            cap
        }
    }

    /// The two cross products by which `self` and `other` are compared.
    fn cross(&self, other: &Fraction) -> (out: (u128, u128))
        ensures
            out.0 == self.numer() * other.denom(),
            out.1 == self.denom() * other.numer(),
    {
        (
            widening_mul(self.numerator, other.denominator),
            widening_mul(self.denominator, other.numerator),
        )
    }
}

/// The product of two 64-bit numbers in 128 bits.
pub fn widening_mul(a: u64, b: u64) -> (out: u128)
    ensures
        out == a * b,
{
    assert(a * b <= u64::MAX * u64::MAX) by (nonlinear_arith)
        requires
            a <= u64::MAX,
            b <= u64::MAX,
    ;
    (a as u128) * (b as u128)
}

impl PartialEq for Fraction {
    fn eq(&self, other: &Self) -> (same: bool) {
        let (left, right) = self.cross(other);
        left == right
    }
}

impl PartialEqSpecImpl for Fraction {
    open spec fn obeys_eq_spec() -> bool {
        true
    }

    open spec fn eq_spec(&self, other: &Self) -> bool {
        self.same_value(*other)
    }
}

impl PartialOrd for Fraction {
    fn partial_cmp(&self, other: &Self) -> (order: Option<Ordering>) {
        let (left, right) = self.cross(other);
        if left < right {
            Some(Ordering::Less)
        } else if left == right {
            Some(Ordering::Equal)
        } else {
            Some(Ordering::Greater)
        }
    }
}

impl PartialOrdSpecImpl for Fraction {
    open spec fn obeys_partial_cmp_spec() -> bool {
        true
    }

    open spec fn partial_cmp_spec(&self, other: &Self) -> Option<Ordering> {
        if self.less_than(*other) {
            Some(Ordering::Less)
        } else if self.same_value(*other) {
            Some(Ordering::Equal)
        } else {
            Some(Ordering::Greater)
        }
    }
}

} // verus!
