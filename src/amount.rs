//! Exact monetary amounts.
//!
//! An [`Amount`] counts whole multiples of 10^-28 of a currency unit, so sums,
//! differences and comparisons of amounts are exact integer operations. The
//! only rounding operation, a product of two amounts, is delegated to
//! `rust_decimal`, which works on a mantissa and a decimal scale.
use vstd::prelude::*;

verus! {

/// Number of fraction digits that an [`Amount`] carries.
pub const FRACTION_DIGITS: u32 = 28;

/// Largest mantissa magnitude of a decimal in parts form (96 bits).
pub const MAX_MANTISSA: i128 = 79228162514264337593543950335;

/// 10 to the power `n`.
pub open spec fn pow10(n: nat) -> int
    decreases n,
{
    if n == 0 {
        1
    } else {
        10 * pow10((n - 1) as nat)
    }
}

/// Strips trailing decimal zeros from a non-negative mantissa `m` with `s`
/// fraction digits, keeping the value it denotes.
pub open spec fn trim(m: nat, s: nat) -> (nat, nat)
    decreases s,
{
    if s > 0 && m % 10 == 0 {
        trim(m / 10, (s - 1) as nat)
    } else {
        (m, s)
    }
}

/// The shortest (mantissa, scale) form of a count of 10^-28 units.
pub open spec fn canonical(units: int) -> (int, nat) {
    let t = trim(abs(units), FRACTION_DIGITS as nat);
    (if units < 0 { -(t.0 as int) } else { t.0 as int }, t.1)
}

pub open spec fn abs(x: int) -> nat {
    if x < 0 { (-x) as nat } else { x as nat }
}

/// The parts form of `units`, when its mantissa fits in 96 bits.
pub open spec fn parts_of(units: int) -> Option<(int, nat)> {
    let c = canonical(units);
    if -MAX_MANTISSA <= c.0 <= MAX_MANTISSA {
        Some(c)
    } else {
        None
    }
}

pub open spec fn fits_i128(x: int) -> bool {
    i128::MIN <= x <= i128::MAX
}

/// The count of 10^-28 units that the decimal `m` * 10^-`s` denotes, when it
/// fits in an `i128`.
pub open spec fn units_of_parts(m: int, s: nat) -> Option<int> {
    if s <= FRACTION_DIGITS && fits_i128(m * pow10((FRACTION_DIGITS - s) as nat)) {
        Some(m * pow10((FRACTION_DIGITS - s) as nat))
    } else {
        None
    }
}

/// What `rust_decimal` returns for the checked product of the decimals
/// `am` * 10^-`asc` and `bm` * 10^-`bsc`, in parts form.
pub uninterp spec fn decimal_product(am: int, asc: int, bm: int, bsc: int) -> Option<(int, int)>;

/// The product of two amounts, rounded as `rust_decimal` rounds it; `None`
/// when an operand or the result cannot be held. A zero operand gives zero.
pub open spec fn rounded_product(a: int, b: int) -> Option<int> {
    if a == 0 || b == 0 {
        Some(0)
    } else {
        rounded_nonzero_product(a, b)
    }
}

pub open spec fn rounded_nonzero_product(a: int, b: int) -> Option<int> {
    match (parts_of(a), parts_of(b)) {
        (Some(pa), Some(pb)) => match decimal_product(pa.0, pa.1 as int, pb.0, pb.1 as int) {
            Some(p) => if 0 <= p.1 {
                units_of_parts(p.0, p.1 as nat)
            } else {
                None
            },
            None => None,
        },
        _ => None,
    }
}

/// `a * n * b`, rounded as `rust_decimal` rounds it, with `a * n` kept as a
/// decimal rather than converted to an amount; `None` when an operand or a
/// product cannot be held. A zero factor gives zero.
pub open spec fn rounded_triple_product(a: int, n: int, b: int) -> Option<int> {
    if a == 0 || n == 0 || b == 0 {
        Some(0)
    } else {
        match (parts_of(a), parts_of(b)) {
            (Some(pa), Some(pb)) => match decimal_product(pa.0, pa.1 as int, n, 0) {
                Some(p) => if 0 <= p.1 <= FRACTION_DIGITS && -MAX_MANTISSA <= p.0 <= MAX_MANTISSA {
                    match decimal_product(p.0, p.1, pb.0, pb.1 as int) {
                        Some(q) => if 0 <= q.1 {
                            units_of_parts(q.0, q.1 as nat)
                        } else {
                            None
                        },
                        None => None,
                    }
                } else {
                    None
                },
                None => None,
            },
            _ => None,
        }
    }
}

pub proof fn lemma_pow10_positive(n: nat)
    ensures
        pow10(n) > 0,
    decreases n,
{
    if n > 0 {
        lemma_pow10_positive((n - 1) as nat);
    }
}

pub proof fn lemma_pow10_monotonic(n: nat, m: nat)
    requires
        n <= m,
    ensures
        pow10(n) <= pow10(m),
    decreases m,
{
    if n < m {
        lemma_pow10_monotonic(n, (m - 1) as nat);
        lemma_pow10_positive((m - 1) as nat);
    }
}

pub proof fn lemma_trim_scale(m: nat, s: nat)
    ensures
        trim(m, s).1 <= s,
    decreases s,
{
    if s > 0 && m % 10 == 0 {
        lemma_trim_scale(m / 10, (s - 1) as nat);
    }
}

pub proof fn lemma_pow10_28()
    ensures
        pow10(28) == 10000000000000000000000000000,
{
    reveal_with_fuel(pow10, 29);
}

/// 10 to the power `n`, for `n` up to 28.
fn pow10_exec(n: u32) -> (r: i128)
    requires
        n <= FRACTION_DIGITS,
    ensures
        r == pow10(n as nat),
        r > 0,
{
    proof {
        lemma_pow10_28();
    }
    let mut r: i128 = 1;
    let mut i: u32 = 0;
    while i < n
        invariant
            i <= n <= 28,
            r == pow10(i as nat),
            pow10(28) == 10000000000000000000000000000,
        decreases n - i,
    {
        proof {
            lemma_pow10_monotonic(i as nat, 27);
            lemma_pow10_positive(i as nat);
            assert(pow10(28) == 10 * pow10(27));
            assert(r <= pow10(27));
        }
        r = r * 10;
        i = i + 1;
    }
    proof {
        lemma_pow10_positive(n as nat);
    }
    r
}

/// Relies on `rust_decimal::Decimal::checked_mul`: the product of two valid
/// decimals, `None` on overflow. Any decimal it returns has a scale of at most
/// 28 and a 96-bit mantissa; a product of non-zero operands that fits in 96
/// bits at the summed scale (at most 28) is exact.
#[verifier::external_body]
fn decimal_mul(am: i128, asc: u32, bm: i128, bsc: u32) -> (r: Option<(i128, u32)>)
    requires
        asc <= FRACTION_DIGITS,
        bsc <= FRACTION_DIGITS,
        -MAX_MANTISSA <= am <= MAX_MANTISSA,
        -MAX_MANTISSA <= bm <= MAX_MANTISSA,
    ensures
        match r {
            Some(p) => {
                &&& decimal_product(am as int, asc as int, bm as int, bsc as int) == Some(
                    (p.0 as int, p.1 as int),
                )
                &&& p.1 <= FRACTION_DIGITS
                &&& -MAX_MANTISSA <= p.0 <= MAX_MANTISSA
            },
            None => decimal_product(am as int, asc as int, bm as int, bsc as int).is_none(),
        },
        am != 0 && bm != 0 && asc + bsc <= FRACTION_DIGITS && -MAX_MANTISSA <= am * bm
            <= MAX_MANTISSA ==> r == Some(((am * bm) as i128, (asc + bsc) as u32)),
{
    let a = rust_decimal::Decimal::from_i128_with_scale(am, asc);
    let b = rust_decimal::Decimal::from_i128_with_scale(bm, bsc);
    a.checked_mul(b).map(|d| (d.mantissa(), d.scale()))
}

/// An exact signed amount of money, counted in units of 10^-28.
#[derive(Clone, Copy, Debug, PartialEq, Eq, Structural)]
pub struct Amount {
    pub units: i128,
}

impl Amount {
    pub open spec fn value(&self) -> int {
        self.units as int
    }

    /// Zero.
    pub fn zero() -> (r: Amount)
        ensures
            r.value() == 0,
    {
        Amount { units: 0 }
    }

    /// The decimal `mantissa` * 10^-`scale`, if it can be held.
    pub fn from_parts(mantissa: i128, scale: u32) -> (r: Option<Amount>)
        ensures
            match units_of_parts(mantissa as int, scale as nat) {
                Some(u) => r == Some(Amount { units: u as i128 }),
                None => r.is_none(),
            },
    {
        if scale > FRACTION_DIGITS {
            return None;
        }
        let p = pow10_exec(FRACTION_DIGITS - scale);
        match mantissa.checked_mul(p) {
            Some(u) => Some(Amount { units: u }),
            None => None,
        }
    }

    /// The shortest (mantissa, scale) form of this amount, when its mantissa
    /// fits in 96 bits.
    pub fn to_parts(&self) -> (r: Option<(i128, u32)>)
        ensures
            match parts_of(self.value()) {
                Some(p) => r matches Some(q) && q.0 as int == p.0 && q.1 as nat == p.1,
                None => r.is_none(),
            },
            r matches Some(p) ==> p.1 <= FRACTION_DIGITS && -MAX_MANTISSA <= p.0 <= MAX_MANTISSA,
    {
        proof {
            lemma_trim_scale(abs(self.value()), FRACTION_DIGITS as nat);
        }
        if self.units == i128::MIN {
            assert(abs(self.value()) % 10 != 0);
            assert(canonical(self.value()).0 == self.value());
            return None;
        }
        let negative = self.units < 0;
        let mut m: u128 = if negative {
            (-self.units) as u128
        } else {
            self.units as u128
        };
        let mut s: u32 = FRACTION_DIGITS;
        while s > 0 && m % 10 == 0
            invariant
                s <= FRACTION_DIGITS,
                m <= abs(self.value()),
                trim(m as nat, s as nat) == trim(abs(self.value()), FRACTION_DIGITS as nat),
            decreases s,
        {
            m = m / 10;
            s = s - 1;
        }
        assert(trim(m as nat, s as nat) == (m as nat, s as nat));
        if m > MAX_MANTISSA as u128 {
            return None;
        }
        let mm: i128 = m as i128;
        Some((if negative { -mm } else { mm }, s))
    }

    /// The product of two amounts, rounded by `rust_decimal` to at most 28
    /// fraction digits.
    pub fn mul_rounded(&self, other: &Amount) -> (r: Option<Amount>)
        ensures
            match rounded_product(self.value(), other.value()) {
                Some(u) => r == Some(Amount { units: u as i128 }),
                None => r.is_none(),
            },
    {
        if self.units == 0 || other.units == 0 {
            return Some(Amount::zero());
        }
        let pa = match self.to_parts() {
            Some(p) => p,
            None => return None,
        };
        let pb = match other.to_parts() {
            Some(p) => p,
            None => return None,
        };
        assert(parts_of(self.value()) == Some((pa.0 as int, pa.1 as nat)));
        assert(parts_of(other.value()) == Some((pb.0 as int, pb.1 as nat)));
        match decimal_mul(pa.0, pa.1, pb.0, pb.1) {
            Some(p) => {
                assert(decimal_product(pa.0 as int, pa.1 as int, pb.0 as int, pb.1 as int) == Some(
                    (p.0 as int, p.1 as int),
                ));
                Amount::from_parts(p.0, p.1)
            },
            None => None,
        }
    }

    /// `self * n * other`, rounded by `rust_decimal` to at most 28 fraction
    /// digits; the intermediate product stays a decimal.
    pub fn mul_count_rounded(&self, n: i64, other: &Amount) -> (r: Option<Amount>)
        ensures
            match rounded_triple_product(self.value(), n as int, other.value()) {
                Some(u) => r == Some(Amount { units: u as i128 }),
                None => r.is_none(),
            },
    {
        if self.units == 0 || n == 0 || other.units == 0 {
            return Some(Amount::zero());
        }
        let pa = match self.to_parts() {
            Some(p) => p,
            None => return None,
        };
        let pb = match other.to_parts() {
            Some(p) => p,
            None => return None,
        };
        assert(parts_of(self.value()) == Some((pa.0 as int, pa.1 as nat)));
        assert(parts_of(other.value()) == Some((pb.0 as int, pb.1 as nat)));
        assert(-MAX_MANTISSA <= n <= MAX_MANTISSA);
        let p = match decimal_mul(pa.0, pa.1, n as i128, 0) {
            Some(p) => p,
            None => return None,
        };
        assert(decimal_product(pa.0 as int, pa.1 as int, n as int, 0) == Some(
            (p.0 as int, p.1 as int),
        ));
        match decimal_mul(p.0, p.1, pb.0, pb.1) {
            Some(q) => {
                assert(decimal_product(p.0 as int, p.1 as int, pb.0 as int, pb.1 as int) == Some(
                    (q.0 as int, q.1 as int),
                ));
                Amount::from_parts(q.0, q.1)
            },
            None => None,
        }
    }

    /// Exact sum, `None` when it does not fit.
    pub fn checked_add(&self, other: &Amount) -> (r: Option<Amount>)
        ensures
            fits_i128(self.value() + other.value()) ==> r == Some(
                Amount { units: (self.value() + other.value()) as i128 },
            ),
            !fits_i128(self.value() + other.value()) ==> r.is_none(),
    {
        match self.units.checked_add(other.units) {
            Some(u) => Some(Amount { units: u }),
            None => None,
        }
    }

    /// Exact difference, `None` when it does not fit.
    pub fn checked_sub(&self, other: &Amount) -> (r: Option<Amount>)
        ensures
            fits_i128(self.value() - other.value()) ==> r == Some(
                Amount { units: (self.value() - other.value()) as i128 },
            ),
            !fits_i128(self.value() - other.value()) ==> r.is_none(),
    {
        match self.units.checked_sub(other.units) {
            Some(u) => Some(Amount { units: u }),
            None => None,
        }
    }
}

} // verus!
