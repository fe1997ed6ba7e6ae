//! Exact fractions: the numbers in which layouts are measured.

use vstd::prelude::*;

verus! {

/// A fraction of two mathematical integers, standing for the number `num / den`.
///
/// The relations below compare by cross-multiplication and mean what their
/// names say whenever both denominators are positive.
pub struct Rational {
    pub num: int,
    pub den: int,
}

impl Rational {
    /// The fraction `num / den`.
    pub open spec fn of(num: int, den: int) -> Rational {
        Rational { num, den }
    }

    /// The fraction `n / 1`.
    pub open spec fn whole(n: int) -> Rational {
        Rational { num: n, den: 1 }
    }

    /// Whether the denominator is positive.
    pub open spec fn is_proper(self) -> bool {
        self.den > 0
    }

    /// Whether both stand for the same number.
    pub open spec fn same(self, other: Rational) -> bool {
        self.num * other.den == other.num * self.den
    }

    /// Whether `self` is at most `other`.
    pub open spec fn le(self, other: Rational) -> bool {
        self.num * other.den <= other.num * self.den
    }

    /// The smaller of the two; `self` where they are the same number.
    pub open spec fn min(self, other: Rational) -> Rational {
        if self.le(other) {
            self
        } else {
            other
        }
    }

    /// The sum.
    pub open spec fn plus(self, other: Rational) -> Rational {
        Rational { num: self.num * other.den + other.num * self.den, den: self.den * other.den }
    }

    /// The difference.
    pub open spec fn minus(self, other: Rational) -> Rational {
        Rational { num: self.num * other.den - other.num * self.den, den: self.den * other.den }
    }

    /// The product.
    pub open spec fn times(self, other: Rational) -> Rational {
        Rational { num: self.num * other.num, den: self.den * other.den }
    }

    /// Half of it.
    pub open spec fn halved(self) -> Rational {
        Rational { num: self.num, den: 2 * self.den }
    }
}

/// A non-negative fraction of machine integers with a positive denominator.
#[derive(Clone, Copy, Debug)]
pub struct Ratio {
    num: u128,
    den: u128,
}

impl View for Ratio {
    type V = Rational;

    closed spec fn view(&self) -> Rational {
        Rational { num: self.num as int, den: self.den as int }
    }
}

impl Ratio {
    #[verifier::type_invariant]
    spec fn has_positive_denominator(self) -> bool {
        self.den > 0
    }

    /// The fraction `num / den`, unless `den` is zero.
    pub fn new(num: u128, den: u128) -> (r: Option<Ratio>)
        ensures
            den == 0 ==> r is None,
            den > 0 ==> r is Some && r->Some_0@ == Rational::of(num as int, den as int),
    {
        if den == 0 {
            None
        } else {
            Some(Ratio { num, den })
        }
    }

    /// The numerator.
    pub fn numer(&self) -> (n: u128)
        ensures
            n == self@.num,
    {
        self.num
    }

    /// The denominator, which is never zero.
    pub fn denom(&self) -> (d: u128)
        ensures
            d == self@.den,
            d > 0,
    {
        proof {
            use_type_invariant(self);
        }
        self.den
    }

    /// The largest whole number that is not above the fraction.
    pub fn floor(&self) -> (n: u128)
        ensures
            n == self@.num / self@.den,
            Rational::whole(n as int).le(self@),
            !Rational::whole(n + 1).le(self@),
    {
        proof {
            use_type_invariant(self);
            lemma_floor_brackets(self.num as int, self.den as int);
        }
        self.num / self.den
    }

    /// The whole number that the fraction equals, if it equals one.
    pub fn as_whole(&self) -> (r: Option<u128>)
        ensures
            r is Some <==> self@.num % self@.den == 0,
            r matches Some(n) ==> n == self@.num / self@.den,
            forall|n: int|
                self@.same(#[trigger] Rational::whole(n)) <==> 0 <= n <= u128::MAX && r == Some(
                    n as u128,
                ),
    {
        proof {
            use_type_invariant(self);
            lemma_floor_brackets(self.num as int, self.den as int);
        }
        let q: u128 = self.num / self.den;
        proof {
            assert forall|n: int| self@.same(Rational::whole(n)) implies self.num % self.den
                == 0 && n == q by {
                lemma_multiple_has_no_remainder(n, self.den as int);
                lemma_quotient_of_multiple(n, self.den as int);
            }
            if self.num % self.den == 0 {
                lemma_exact_quotient(self.num as int, self.den as int);
            }
        }
        if self.num % self.den == 0 {
            Some(q)
        } else {
            None
        }
    }
}

/// Two ratios with the same numerator and the same denominator are one ratio.
pub proof fn lemma_ratio_is_its_view(a: Ratio, b: Ratio)
    requires
        a@ == b@,
    ensures
        a == b,
{
}

/// `num / den` is the one whole number `q` with `q * den <= num < (q + 1) * den`.
proof fn lemma_floor_brackets(num: int, den: int)
    requires
        num >= 0,
        den > 0,
    ensures
        (num / den) * den <= num,
        num < (num / den + 1) * den,
        num / den >= 0,
{
    vstd::arithmetic::div_mod::lemma_fundamental_div_mod(num, den);
    vstd::arithmetic::div_mod::lemma_mod_bound(num, den);
    vstd::arithmetic::div_mod::lemma_div_pos_is_pos(num, den);
    assert((num / den + 1) * den == (num / den) * den + den) by (nonlinear_arith);
    assert(den * (num / den) == (num / den) * den) by (nonlinear_arith);
}

/// A number that its divisor divides is the quotient times the divisor.
proof fn lemma_exact_quotient(num: int, den: int)
    requires
        den > 0,
        num % den == 0,
    ensures
        num == (num / den) * den,
{
    vstd::arithmetic::div_mod::lemma_fundamental_div_mod(num, den);
    assert(den * (num / den) == (num / den) * den) by (nonlinear_arith);
}

/// A multiple of `den` divided by `den` is the factor.
proof fn lemma_quotient_of_multiple(n: int, den: int)
    requires
        den > 0,
    ensures
        (n * den) / den == n,
{
    vstd::arithmetic::div_mod::lemma_fundamental_div_mod_converse(n * den, den, n, 0);
}

/// A multiple of `den` leaves no remainder when divided by `den`.
proof fn lemma_multiple_has_no_remainder(n: int, den: int)
    requires
        den > 0,
    ensures
        (n * den) % den == 0,
{
    vstd::arithmetic::div_mod::lemma_mod_multiples_basic(n, den);
}

} // verus!
