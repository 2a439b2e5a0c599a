//! Classification of a wallet's payment situation.
use vstd::prelude::*;
use crate::amount::{abs, Amount};

verus! {

/// The payment-compliance case of a wallet for one statement.
#[derive(Clone, Copy, Debug, PartialEq, Eq, Structural)]
pub enum ClientBalanceCaseType {
    /// Payments cover the purchases and the previous balance.
    UpToDate,
    /// Payments fall short of the debt but reach the minimum payment.
    MinimumCovered,
    /// Payments fall short of the minimum payment.
    Penalty,
    /// No payment was recorded.
    NoPayment,
    /// Regional grace-period rule; declared, not yet supported, and accrues
    /// no interest.
    TwoDaysGrace,
    /// Defensive value for inputs that fit no other case.
    Undetermined,
}

/// Whether the interest rule of a case is implemented. The grace-period
/// rule is not yet supported: it accrues nothing and is flagged.
pub open spec fn case_supported(c: ClientBalanceCaseType) -> bool {
    c != ClientBalanceCaseType::TwoDaysGrace
}

impl ClientBalanceCaseType {
    /// Whether the interest rule of this case is implemented.
    pub fn is_supported(&self) -> (r: bool)
        ensures
            r == case_supported(*self),
    {
        match self {
            ClientBalanceCaseType::TwoDaysGrace => false,
            _ => true,
        }
    }
}

/// The case for the given totals: the first rule that matches wins.
pub open spec fn balance_case(
    purchases: int,
    payments: int,
    previous_balance: int,
    minimum_payment: int,
) -> ClientBalanceCaseType {
    if abs(payments) >= purchases + previous_balance {
        ClientBalanceCaseType::UpToDate
    } else if payments == 0 {
        ClientBalanceCaseType::NoPayment
    } else if abs(payments) >= minimum_payment {
        ClientBalanceCaseType::MinimumCovered
    } else {
        ClientBalanceCaseType::Penalty
    }
}

/// Magnitude of `x`, exactly, as a `u128`.
fn magnitude(x: i128) -> (r: u128)
    ensures
        r == abs(x as int),
{
    if x < 0 {
        ((-(x + 1)) as u128) + 1
    } else {
        x as u128
    }
}

/// Whether `paid` reaches `a + b`, computed without overflow.
fn reaches_sum(paid: u128, a: i128, b: i128) -> (r: bool)
    ensures
        r == (paid as int >= a as int + b as int),
{
    match a.checked_add(b) {
        Some(s) => {
            if s < 0 {
                true
            } else {
                paid >= s as u128
            }
        },
        None => {
            if a > 0 {
                paid >= (a as u128) + (b as u128)
            } else {
                true
            }
        },
    }
}

/// Classifies a wallet from its period totals. `payments` is signed (the
/// ledger keeps payments negative); only its magnitude is compared.
pub fn calculate_client_balance_case(
    purchases: &Amount,
    payments: &Amount,
    previous_balance: &Amount,
    minimum_payment: &Amount,
) -> (r: ClientBalanceCaseType)
    ensures
        r == balance_case(
            purchases.value(),
            payments.value(),
            previous_balance.value(),
            minimum_payment.value(),
        ),
{
    let paid = magnitude(payments.units);
    if reaches_sum(paid, purchases.units, previous_balance.units) {
        ClientBalanceCaseType::UpToDate
    } else if payments.units == 0 {
        ClientBalanceCaseType::NoPayment
    } else if minimum_payment.units < 0 || paid >= minimum_payment.units as u128 {
        ClientBalanceCaseType::MinimumCovered
    } else {
        ClientBalanceCaseType::Penalty
    }
}

} // verus!
