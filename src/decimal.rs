use vstd::prelude::*;

verus! {

/// Atomic units in one whole: a `Decimal` carries 18 fractional digits.
pub const DECIMAL_FRACTIONAL: u128 = 1_000_000_000_000_000_000;

/// A non-negative fixed-point number with 18 fractional digits, held as its
/// count of atomic units (`atomics / 10^18`). One whole is 100%.
#[derive(Clone, Copy, Debug, PartialEq, Eq, Structural, PartialOrd, Ord, Hash, Default)]
pub struct Decimal {
    pub atomics: u128,
}

/// Why a checked operation failed.
#[derive(Clone, Copy, Debug, PartialEq, Eq, Structural)]
pub enum OverflowOperation {
    Add,
    Sub,
    Mul,
}

/// A checked operation whose exact result does not fit its type.
#[derive(Clone, Copy, Debug, PartialEq, Eq, Structural)]
pub struct OverflowError {
    pub operation: OverflowOperation,
}

impl Decimal {
    /// The value in atomic units.
    pub open spec fn value(self) -> int {
        self.atomics as int
    }

    pub fn zero() -> (r: Decimal)
        ensures
            r.atomics == 0,
    {
        Decimal { atomics: 0 }
    }

    /// One whole, that is 100%.
    pub fn one() -> (r: Decimal)
        ensures
            r.atomics == DECIMAL_FRACTIONAL,
    {
        Decimal { atomics: DECIMAL_FRACTIONAL }
    }

    /// `x` percent.
    pub fn percent(x: u64) -> (r: Decimal)
        ensures
            r.atomics == x as int * 10_000_000_000_000_000,
    {
        assert(x as int * 10_000_000_000_000_000 <= u128::MAX) by (nonlinear_arith)
            requires
                x <= u64::MAX,
        ;
        Decimal { atomics: x as u128 * 10_000_000_000_000_000u128 }
    }

    /// The number with the given count of atomic units.
    pub fn raw(atomics: u128) -> (r: Decimal)
        ensures
            r.atomics == atomics,
    {
        Decimal { atomics }
    }

    pub fn is_zero(&self) -> (r: bool)
        ensures
            r == (self.atomics == 0),
    {
        self.atomics == 0
    }

    /// The exact sum, or an overflow error where it exceeds the range.
    pub fn checked_add(self, other: Decimal) -> (r: Result<Decimal, OverflowError>)
        ensures
            self.value() + other.value() <= u128::MAX ==> r == Ok::<Decimal, OverflowError>(
                Decimal { atomics: (self.atomics + other.atomics) as u128 },
            ),
            self.value() + other.value() > u128::MAX ==> r == Err::<Decimal, OverflowError>(
                OverflowError { operation: OverflowOperation::Add },
            ),
    {
        match self.atomics.checked_add(other.atomics) {
            Some(a) => Ok(Decimal { atomics: a }),
            None => Err(OverflowError { operation: OverflowOperation::Add }),
        }
    }
}

/// `floor(amount * fraction / 10^18)`, the amount scaled by a fraction of at
/// most one whole.
pub open spec fn mul_floor_spec(amount: int, fraction: int) -> int {
    (amount * fraction) / (DECIMAL_FRACTIONAL as int)
}

proof fn lemma_mul_floor_split(a: int, p: int, d: int)
    requires
        a >= 0,
        0 <= p <= d,
        d > 0,
    ensures
        (a * p) / d == (a / d) * p + ((a % d) * p) / d,
        (a % d) * p < d * d,
        (a / d) * p <= a,
        (a * p) / d <= a,
{
    let q = a / d;
    let r = a % d;
    vstd::arithmetic::div_mod::lemma_fundamental_div_mod(a, d);
    assert(a * p == (q * p) * d + r * p) by (nonlinear_arith)
        requires
            a == d * q + r,
    ;
    assert(r * p >= 0) by (nonlinear_arith)
        requires
            r >= 0,
            p >= 0,
    ;
    vstd::arithmetic::div_mod::lemma_hoist_over_denominator(r * p, q * p, d as nat);
    assert((q * p) * d == q * p * d);
    assert(r * p < d * d) by (nonlinear_arith)
        requires
            0 <= r < d,
            0 <= p <= d,
    ;
    assert(q * p <= q * d) by (nonlinear_arith)
        requires
            q >= 0,
            p <= d,
    ;
    assert(q >= 0) by (nonlinear_arith)
        requires
            a >= 0,
            d > 0,
            q == a / d,
    ;
    assert(a * p <= a * d) by (nonlinear_arith)
        requires
            a >= 0,
            p <= d,
    ;
    vstd::arithmetic::div_mod::lemma_div_is_ordered(a * p, a * d, d);
    vstd::arithmetic::div_mod::lemma_div_multiples_vanish(a, d);
}

/// Scales `amount` by `fraction` (at most one whole), rounding down, without
/// intermediate overflow.
pub fn mul_floor(amount: u128, fraction: Decimal) -> (r: u128)
    requires
        fraction.atomics <= DECIMAL_FRACTIONAL,
    ensures
        r == mul_floor_spec(amount as int, fraction.value()),
        r <= amount,
{
    let d = DECIMAL_FRACTIONAL;
    let p = fraction.atomics;
    let q = amount / d;
    let rem = amount % d;
    proof {
        lemma_mul_floor_split(amount as int, p as int, d as int);
        assert(d * d <= u128::MAX);
    }
    let low = rem * p / d;
    let high = q * p;
    proof {
        assert(low as int == ((amount as int % d as int) * p as int) / d as int);
    }
    high + low
}

} // verus!
