//! Payment allocation and interest accrual for a single transaction.
use vstd::prelude::*;
use crate::amount::{rounded_triple_product, Amount};
use crate::case::{case_supported, ClientBalanceCaseType};
use crate::error::EngineError;
use crate::ledger::TransactionConfirmed;

verus! {

/// Interest details of one transaction.
#[derive(Clone, Copy, Debug, PartialEq, Eq, Structural)]
pub struct InterestForTransaction {
    /// Amount of the transaction.
    pub transaction_amount: Amount,
    /// What remains owed of the transaction once payments are allocated.
    pub effective_transaction_amount: Amount,
    /// True for a purchase, false for a payment.
    pub is_transaction_purchase: bool,
    /// Daily financial interest rate.
    pub daily_interest_rate: Amount,
    /// Financial interest accrued by the transaction.
    pub total_daily_interest: Amount,
    /// True when the wallet is in the penalty case.
    pub is_client_in_penalty: bool,
    /// Daily penalty interest rate.
    pub penalty_interest_rate: Amount,
    /// Penalty interest accrued by the transaction.
    pub total_penalty_interest: Amount,
    /// Day number on which the transaction posted.
    pub balances_date: i32,
}

/// Whether a ledger entry counts as a purchase: anything but a payment does.
pub open spec fn is_purchase_entry(debit_credit: i8) -> bool {
    debit_credit != -1
}

/// The record of a transaction before any allocation or accrual.
pub open spec fn fresh_record(
    s: TransactionConfirmed,
    daily_interest_rate: Amount,
    penalty_interest_rate: Amount,
    client_case: ClientBalanceCaseType,
) -> InterestForTransaction {
    InterestForTransaction {
        transaction_amount: s.amount,
        effective_transaction_amount: s.amount,
        is_transaction_purchase: is_purchase_entry(s.debit_credit),
        daily_interest_rate,
        total_daily_interest: Amount { units: 0 },
        is_client_in_penalty: client_case == ClientBalanceCaseType::Penalty,
        penalty_interest_rate,
        total_penalty_interest: Amount { units: 0 },
        balances_date: s.balances_date,
    }
}

/// One step of the waterfall: the pool left and the amount still owed once a
/// pool of `pool` meets an outstanding amount `owed`.
pub open spec fn allocation(pool: int, owed: int) -> (int, int) {
    if pool >= owed {
        (pool - owed, 0)
    } else if pool > 0 {
        (0, owed - pool)
    } else {
        (0, owed)
    }
}

/// Whether the case accrues financial interest.
pub open spec fn applies_daily(c: ClientBalanceCaseType) -> bool {
    c == ClientBalanceCaseType::NoPayment || c == ClientBalanceCaseType::MinimumCovered || c
        == ClientBalanceCaseType::Penalty
}

/// Whether the case accrues penalty interest.
pub open spec fn applies_penalty(c: ClientBalanceCaseType) -> bool {
    c == ClientBalanceCaseType::NoPayment || c == ClientBalanceCaseType::Penalty
}

/// Interest on `owed` over `days` days at `rate`: `owed * days * rate` when the
/// rate applies and something is owed, zero otherwise; `None` on overflow.
pub open spec fn accrued(owed: int, days: int, rate: int, applies: bool) -> Option<int> {
    if !applies || owed <= 0 {
        Some(0)
    } else {
        rounded_triple_product(owed, days, rate)
    }
}

/// Allocation followed by accrual for one purchase record: the updated record
/// and the pool left, or `None` on overflow.
pub open spec fn accrual_step(
    rec: InterestForTransaction,
    pool: int,
    client_case: ClientBalanceCaseType,
    statement_day: i32,
) -> Option<(InterestForTransaction, int)> {
    let a = allocation(pool, rec.effective_transaction_amount.value());
    let days = statement_day as int - rec.balances_date as int;
    let daily = accrued(a.1, days, rec.daily_interest_rate.value(), applies_daily(client_case));
    let penalty = accrued(
        a.1,
        days,
        rec.penalty_interest_rate.value(),
        applies_penalty(client_case),
    );
    match (daily, penalty) {
        (Some(d), Some(p)) => Some(
            (
                InterestForTransaction {
                    transaction_amount: rec.transaction_amount,
                    effective_transaction_amount: Amount { units: a.1 as i128 },
                    is_transaction_purchase: rec.is_transaction_purchase,
                    daily_interest_rate: rec.daily_interest_rate,
                    total_daily_interest: Amount { units: d as i128 },
                    is_client_in_penalty: rec.is_client_in_penalty,
                    penalty_interest_rate: rec.penalty_interest_rate,
                    total_penalty_interest: Amount { units: p as i128 },
                    balances_date: rec.balances_date,
                },
                a.0,
            ),
        ),
        _ => None,
    }
}

/// One step of the waterfall: a pool of `pool` meets an outstanding amount
/// `owed`. Returns the pool left and what remains owed.
pub fn allocate_payment(pool: &Amount, owed: &Amount) -> (r: (Amount, Amount))
    requires
        pool.value() >= 0,
        owed.value() >= 0,
    ensures
        r.0.value() == allocation(pool.value(), owed.value()).0,
        r.1.value() == allocation(pool.value(), owed.value()).1,
{
    if pool.units >= owed.units {
        (Amount { units: pool.units - owed.units }, Amount::zero())
    } else if pool.units > 0 {
        (Amount::zero(), Amount { units: owed.units - pool.units })
    } else {
        (Amount::zero(), *owed)
    }
}

/// Days elapsed from `purchase_date` to `statement_day` (day numbers);
/// negative for a purchase dated after the statement day.
pub fn calculate_days_amount(purchase_date: i32, statement_day: i32) -> (r: i64)
    ensures
        r == statement_day as int - purchase_date as int,
{
    statement_day as i64 - purchase_date as i64
}

/// Interest on `owed` over `days` days at `rate`, as [`accrued`] states it.
fn accrue(owed: &Amount, days: i64, rate: &Amount, applies: bool) -> (r: Option<Amount>)
    ensures
        match accrued(owed.value(), days as int, rate.value(), applies) {
            Some(v) => r == Some(Amount { units: v as i128 }),
            None => r.is_none(),
        },
{
    if !applies || owed.units <= 0 {
        return Some(Amount::zero());
    }
    owed.mul_count_rounded(days, rate)
}

impl InterestForTransaction {
    /// The record of transaction `s` before allocation and accrual.
    pub fn new(
        s: &TransactionConfirmed,
        daily_interest_rate: &Amount,
        penalty_interest_rate: &Amount,
        client_case: &ClientBalanceCaseType,
    ) -> (r: InterestForTransaction)
        ensures
            r == fresh_record(*s, *daily_interest_rate, *penalty_interest_rate, *client_case),
    {
        InterestForTransaction {
            transaction_amount: s.amount,
            effective_transaction_amount: s.amount,
            is_transaction_purchase: s.debit_credit != -1,
            daily_interest_rate: *daily_interest_rate,
            total_daily_interest: Amount::zero(),
            is_client_in_penalty: *client_case == ClientBalanceCaseType::Penalty,
            penalty_interest_rate: *penalty_interest_rate,
            total_penalty_interest: Amount::zero(),
            balances_date: s.balances_date,
        }
    }

    /// Allocates the remaining payment pool `payments` (a magnitude) to this
    /// purchase, then accrues its interest up to `statement_day` according to
    /// `client_case`. Returns `Ok(false)` for a case whose rule is not yet
    /// supported (the grace period), which accrues nothing. On overflow
    /// nothing is changed.
    pub fn calculate_daily_interest_rate(
        &mut self,
        payments: &mut Amount,
        client_case: &ClientBalanceCaseType,
        statement_day: i32,
    ) -> (r: Result<bool, EngineError>)
        requires
            old(payments).value() >= 0,
            old(self).effective_transaction_amount.value() >= 0,
        ensures
            0 <= final(self).effective_transaction_amount.value()
                <= old(self).effective_transaction_amount.value(),
            final(self).transaction_amount == old(self).transaction_amount,
            0 <= final(payments).value() <= old(payments).value(),
            match accrual_step(*old(self), old(payments).value(), *client_case, statement_day) {
                Some(next) => {
                    &&& r == Ok::<bool, EngineError>(case_supported(*client_case))
                    &&& *final(self) == next.0
                    &&& final(payments).value() == next.1
                },
                None => {
                    &&& r == Err::<bool, EngineError>(EngineError::Overflow)
                    &&& *final(self) == *old(self)
                    &&& *final(payments) == *old(payments)
                },
            },
    {
        let (pool_left, remaining) = allocate_payment(payments, &self.effective_transaction_amount);
        let days = calculate_days_amount(self.balances_date, statement_day);
        let daily = match accrue(
            &remaining,
            days,
            &self.daily_interest_rate,
            applies_daily_exec(client_case),
        ) {
            Some(v) => v,
            None => return Err(EngineError::Overflow),
        };
        let penalty = match accrue(
            &remaining,
            days,
            &self.penalty_interest_rate,
            applies_penalty_exec(client_case),
        ) {
            Some(v) => v,
            None => return Err(EngineError::Overflow),
        };
        self.effective_transaction_amount = remaining;
        self.total_daily_interest = daily;
        self.total_penalty_interest = penalty;
        *payments = pool_left;
        Ok(client_case.is_supported())
    }

    pub fn get_transaction_amount(&self) -> (r: Amount)
        ensures
            r == self.transaction_amount,
    {
        self.transaction_amount
    }

    pub fn get_effective_transaction_amount(&self) -> (r: Amount)
        ensures
            r == self.effective_transaction_amount,
    {
        self.effective_transaction_amount
    }

    pub fn get_is_transaction_purchase(&self) -> (r: bool)
        ensures
            r == self.is_transaction_purchase,
    {
        self.is_transaction_purchase
    }

    pub fn get_daily_interest_rate(&self) -> (r: Amount)
        ensures
            r == self.daily_interest_rate,
    {
        self.daily_interest_rate
    }

    pub fn get_total_daily_interest(&self) -> (r: Amount)
        ensures
            r == self.total_daily_interest,
    {
        self.total_daily_interest
    }

    pub fn get_is_client_in_penalty(&self) -> (r: bool)
        ensures
            r == self.is_client_in_penalty,
    {
        self.is_client_in_penalty
    }

    pub fn get_penalty_interest_rate(&self) -> (r: Amount)
        ensures
            r == self.penalty_interest_rate,
    {
        self.penalty_interest_rate
    }

    pub fn get_total_penalty_interest(&self) -> (r: Amount)
        ensures
            r == self.total_penalty_interest,
    {
        self.total_penalty_interest
    }

    pub fn get_balances_date(&self) -> (r: i32)
        ensures
            r == self.balances_date,
    {
        self.balances_date
    }
}

fn applies_daily_exec(c: &ClientBalanceCaseType) -> (r: bool)
    ensures
        r == applies_daily(*c),
{
    match c {
        ClientBalanceCaseType::NoPayment => true,
        ClientBalanceCaseType::MinimumCovered => true,
        ClientBalanceCaseType::Penalty => true,
        _ => false,
    }
}

fn applies_penalty_exec(c: &ClientBalanceCaseType) -> (r: bool)
    ensures
        r == applies_penalty(*c),
{
    match c {
        ClientBalanceCaseType::NoPayment => true,
        ClientBalanceCaseType::Penalty => true,
        _ => false,
    }
}

} // verus!
