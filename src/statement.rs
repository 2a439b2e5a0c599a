//! The wallet statement: aggregation, classification, the oldest-first
//! payment waterfall with interest accrual, and the fold into totals.
use vstd::prelude::*;
use std::collections::HashMap;
use crate::amount::{abs, fits_i128, rounded_product, Amount};
use crate::case::{balance_case, case_supported, calculate_client_balance_case, ClientBalanceCaseType};
use crate::error::EngineError;
use crate::interest::{accrual_step, fresh_record, InterestForTransaction};
use crate::ordering::{sort_by_balances_date, sorted_by_date};
use crate::ledger::{AccountIdType, TransactionConfirmed, TransactionsIdType, WalletIdType};

verus! {

broadcast use vstd::std_specs::hash::group_hash_axioms;

/// Interest details of a wallet's transactions, by transaction id.
pub type InterestsForTransactions = HashMap<TransactionsIdType, InterestForTransaction>;

/// Share of the period's purchases that the minimum payment asks for
/// (0.25, in units of 10^-28).
pub const MINIMUM_PAYMENT_SHARE: i128 = 2500000000000000000000000000;

/// Sum of the purchase amounts (`debit_credit == 1`) among the first `n`
/// transactions.
pub open spec fn purchases_upto(txs: Seq<TransactionConfirmed>, n: int) -> int
    decreases n,
{
    if n <= 0 {
        0
    } else {
        purchases_upto(txs, n - 1) + if txs[n - 1].debit_credit == 1 {
            txs[n - 1].amount.value()
        } else {
            0
        }
    }
}

/// Sum of the payment amounts (`debit_credit == -1`) among the first `n`
/// transactions.
pub open spec fn payments_upto(txs: Seq<TransactionConfirmed>, n: int) -> int
    decreases n,
{
    if n <= 0 {
        0
    } else {
        payments_upto(txs, n - 1) + if txs[n - 1].debit_credit == -1 {
            txs[n - 1].amount.value()
        } else {
            0
        }
    }
}

pub open spec fn amounts_non_negative(txs: Seq<TransactionConfirmed>) -> bool {
    forall|i: int| 0 <= i < txs.len() ==> #[trigger] txs[i].amount.value() >= 0
}

/// The state of the single pass once the first `n` transactions are
/// processed: their records, the pool left, and the two interest totals; or
/// `None` on overflow.
pub open spec fn pass(
    txs: Seq<TransactionConfirmed>,
    n: int,
    client_case: ClientBalanceCaseType,
    statement_day: i32,
    daily_rate: Amount,
    penalty_rate: Amount,
    pool: int,
) -> Option<(Seq<InterestForTransaction>, int, int, int)>
    decreases n,
{
    if n <= 0 {
        Some((Seq::empty(), pool, 0, 0))
    } else {
        match pass(txs, n - 1, client_case, statement_day, daily_rate, penalty_rate, pool) {
            None => None,
            Some(st) => {
                let rec = fresh_record(txs[n - 1], daily_rate, penalty_rate, client_case);
                let next = if rec.is_transaction_purchase {
                    accrual_step(rec, st.1, client_case, statement_day)
                } else {
                    Some((rec, st.1))
                };
                match next {
                    None => None,
                    Some(nx) => {
                        let d = st.2 + nx.0.total_daily_interest.value();
                        let p = st.3 + nx.0.total_penalty_interest.value();
                        if fits_i128(d) && fits_i128(p) {
                            Some((st.0.push(nx.0), nx.1, d, p))
                        } else {
                            None
                        }
                    },
                }
            },
        }
    }
}

/// The detail map of the first `n` transactions: each id mapped to its record.
pub open spec fn details_upto(
    txs: Seq<TransactionConfirmed>,
    recs: Seq<InterestForTransaction>,
    n: int,
) -> Map<TransactionsIdType, InterestForTransaction>
    decreases n,
{
    if n <= 0 {
        Map::empty()
    } else {
        details_upto(txs, recs, n - 1).insert(txs[n - 1].id, recs[n - 1])
    }
}

/// What a statement holds, as mathematical values.
pub struct StatementModel {
    pub previous_balance: int,
    pub total_purchases: int,
    pub total_payments: int,
    pub minimum_payment: int,
    pub client_case: ClientBalanceCaseType,
    pub records: Seq<InterestForTransaction>,
    pub total_daily_interest: int,
    pub total_penalty_interest: int,
    pub balance: int,
}

/// The statement of a wallet whose entries are `txs`, in the order in which
/// payments are allocated.
///
/// Purchases count positive and payments negative: `total_payments` is the
/// payment override minus the sum of the payment amounts. The payment pool
/// is the magnitude of `total_payments`. An empty ledger is in the
/// `NoPayment` case; otherwise [`balance_case`] decides.
pub open spec fn ledger_model(
    txs: Seq<TransactionConfirmed>,
    payment_override: int,
    previous_balance: int,
    statement_day: i32,
    daily_rate: Amount,
    penalty_rate: Amount,
) -> Result<StatementModel, EngineError> {
    let n = txs.len() as int;
    let purchases = purchases_upto(txs, n);
    let paid = payments_upto(txs, n);
    let payments = payment_override - paid;
    if !amounts_non_negative(txs) {
        Err(EngineError::MalformedInput)
    } else if !fits_i128(purchases) || !fits_i128(paid) || !fits_i128(payments) || !fits_i128(
        abs(payments) as int,
    ) {
        Err(EngineError::Overflow)
    } else {
        match rounded_product(purchases, MINIMUM_PAYMENT_SHARE as int) {
            None => Err(EngineError::Overflow),
            Some(minimum) => {
                let client_case = if n == 0 {
                    ClientBalanceCaseType::NoPayment
                } else {
                    balance_case(purchases, payments, previous_balance, minimum)
                };
                match pass(
                    txs,
                    n,
                    client_case,
                    statement_day,
                    daily_rate,
                    penalty_rate,
                    abs(payments) as int,
                ) {
                    None => Err(EngineError::Overflow),
                    Some(st) => {
                        let interest = st.3 + st.2;
                        let balance = interest + purchases + payments;
                        if !fits_i128(interest) || !fits_i128(interest + purchases) || !fits_i128(
                            balance,
                        ) {
                            Err(EngineError::Overflow)
                        } else {
                            Ok(
                                StatementModel {
                                    previous_balance,
                                    total_purchases: purchases,
                                    total_payments: payments,
                                    minimum_payment: minimum,
                                    client_case,
                                    records: st.0,
                                    total_daily_interest: st.2,
                                    total_penalty_interest: st.3,
                                    balance,
                                },
                            )
                        }
                    },
                }
            },
        }
    }
}

/// The statement of a wallet: its entries are sorted stably by posting day,
/// then [`ledger_model`] applies.
pub open spec fn statement_model(
    txs: Seq<TransactionConfirmed>,
    payment_override: int,
    previous_balance: int,
    statement_day: i32,
    daily_rate: Amount,
    penalty_rate: Amount,
) -> Result<StatementModel, EngineError> {
    ledger_model(
        sorted_by_date(txs),
        payment_override,
        previous_balance,
        statement_day,
        daily_rate,
        penalty_rate,
    )
}

/// The statement of one wallet for one statement day.
pub struct WalletStatementsResult {
    /// Purchases, payments and interest of the period, summed.
    pub balance: Amount,
    /// Balance carried in from before the period.
    pub previous_balance: Amount,
    /// Minimum payment for the statement.
    pub minimum_payment: Amount,
    /// Sum of the period's purchases.
    pub total_purchases: Amount,
    /// Payments of the period, negative, override included.
    pub total_payments: Amount,
    /// Sum of the financial interest of all transactions.
    pub total_daily_interest: Amount,
    /// Sum of the penalty interest of all transactions.
    pub total_penalty_interest: Amount,
    /// Day number against which elapsed days are counted.
    pub statement_day: i32,
    /// The wallet's payment case.
    pub client_case: ClientBalanceCaseType,
    /// False when the case's interest rule is not yet supported (the grace
    /// period); its transactions then accrue nothing.
    pub case_supported: bool,
    /// Interest details of each transaction, by transaction id.
    pub transactions_details: InterestsForTransactions,
}

/// The statements of the wallets of one account.
pub struct AccountStatementsResult {
    pub accounts_id: AccountIdType,
    pub wallet_statements: HashMap<WalletIdType, WalletStatementsResult>,
}

impl WalletStatementsResult {
    /// Whether this statement holds what model `m` of `txs` describes.
    pub open spec fn holds(&self, m: StatementModel, txs: Seq<TransactionConfirmed>) -> bool {
        &&& self.balance.value() == m.balance
        &&& self.previous_balance.value() == m.previous_balance
        &&& self.minimum_payment.value() == m.minimum_payment
        &&& self.total_purchases.value() == m.total_purchases
        &&& self.total_payments.value() == m.total_payments
        &&& self.total_daily_interest.value() == m.total_daily_interest
        &&& self.total_penalty_interest.value() == m.total_penalty_interest
        &&& self.client_case == m.client_case
        &&& self.case_supported == case_supported(m.client_case)
        &&& self.transactions_details@ == details_upto(txs, m.records, txs.len() as int)
    }
}

pub proof fn lemma_sums_monotonic(txs: Seq<TransactionConfirmed>, i: int, j: int)
    requires
        amounts_non_negative(txs),
        0 <= i <= j <= txs.len(),
    ensures
        0 <= purchases_upto(txs, i) <= purchases_upto(txs, j),
        0 <= payments_upto(txs, i) <= payments_upto(txs, j),
    decreases j,
{
    if i < j {
        lemma_sums_monotonic(txs, i, j - 1);
        assert(txs[j - 1].amount.value() >= 0);
    } else {
        lemma_sums_non_negative(txs, i);
    }
}

proof fn lemma_sums_non_negative(txs: Seq<TransactionConfirmed>, i: int)
    requires
        amounts_non_negative(txs),
        0 <= i <= txs.len(),
    ensures
        0 <= purchases_upto(txs, i),
        0 <= payments_upto(txs, i),
    decreases i,
{
    if i > 0 {
        lemma_sums_non_negative(txs, i - 1);
        assert(txs[i - 1].amount.value() >= 0);
    }
}

proof fn lemma_pass_fails_onward(
    txs: Seq<TransactionConfirmed>,
    i: int,
    n: int,
    client_case: ClientBalanceCaseType,
    statement_day: i32,
    daily_rate: Amount,
    penalty_rate: Amount,
    pool: int,
)
    requires
        0 <= i <= n,
        pass(txs, i, client_case, statement_day, daily_rate, penalty_rate, pool).is_none(),
    ensures
        pass(txs, n, client_case, statement_day, daily_rate, penalty_rate, pool).is_none(),
    decreases n - i,
{
    if i < n {
        lemma_pass_fails_onward(
            txs,
            i + 1,
            n,
            client_case,
            statement_day,
            daily_rate,
            penalty_rate,
            pool,
        );
    }
}

proof fn lemma_details_prefix(
    txs: Seq<TransactionConfirmed>,
    recs: Seq<InterestForTransaction>,
    more: Seq<InterestForTransaction>,
    n: int,
)
    requires
        0 <= n <= recs.len(),
        n <= more.len(),
        forall|k: int| 0 <= k < n ==> recs[k] == more[k],
    ensures
        details_upto(txs, recs, n) == details_upto(txs, more, n),
    decreases n,
{
    if n > 0 {
        lemma_details_prefix(txs, recs, more, n - 1);
    }
}

/// Sum of the amounts of the entries whose `debit_credit` equals `sign`;
/// `None` when it does not fit.
fn sum_entries(transactions: &Vec<TransactionConfirmed>, sign: i8) -> (r: Option<Amount>)
    requires
        amounts_non_negative(transactions@),
        sign == 1 || sign == -1,
    ensures
        ({
            let total = if sign == 1 {
                purchases_upto(transactions@, transactions@.len() as int)
            } else {
                payments_upto(transactions@, transactions@.len() as int)
            };
            &&& fits_i128(total) ==> r == Some(Amount { units: total as i128 })
            &&& !fits_i128(total) ==> r.is_none()
        }),
{
    let ghost txs = transactions@;
    let ghost n = txs.len() as int;
    let mut total = Amount::zero();
    let mut i: usize = 0;
    while i < transactions.len()
        invariant
            txs == transactions@,
            n == txs.len(),
            amounts_non_negative(txs),
            sign == 1 || sign == -1,
            0 <= i <= n,
            total.value() == if sign == 1 {
                purchases_upto(txs, i as int)
            } else {
                payments_upto(txs, i as int)
            },
        decreases n - i,
    {
        let tx = &transactions[i];
        if tx.debit_credit == sign {
            match total.checked_add(&tx.amount) {
                Some(t) => total = t,
                None => {
                    proof {
                        lemma_sums_monotonic(txs, i as int + 1, n);
                    }
                    return None;
                },
            }
        }
        i = i + 1;
    }
    Some(total)
}

/// Whether every transaction carries a non-negative amount.
fn all_amounts_non_negative(transactions: &Vec<TransactionConfirmed>) -> (r: bool)
    ensures
        r == amounts_non_negative(transactions@),
{
    let mut i: usize = 0;
    while i < transactions.len()
        invariant
            0 <= i <= transactions@.len(),
            forall|k: int| 0 <= k < i ==> #[trigger] transactions@[k].amount.value() >= 0,
        decreases transactions@.len() - i,
    {
        if transactions[i].amount.units < 0 {
            assert(transactions@[i as int].amount.value() < 0);
            return false;
        }
        i = i + 1;
    }
    true
}

/// The statement of a wallet whose entries come in the order in which
/// payments are allocated.
fn statement_of_ledger(
    transactions: &Vec<TransactionConfirmed>,
    payment_override: &Amount,
    previous_balance: &Amount,
    statement_day: i32,
    daily_interest_rate: &Amount,
    penalty_interest_rate: &Amount,
) -> (r: Result<WalletStatementsResult, EngineError>)
    ensures
        match ledger_model(
            transactions@,
            payment_override.value(),
            previous_balance.value(),
            statement_day,
            *daily_interest_rate,
            *penalty_interest_rate,
        ) {
            Ok(m) => r matches Ok(st) && st.holds(m, transactions@) && st.statement_day
                == statement_day,
            Err(e) => r == Err::<WalletStatementsResult, EngineError>(e),
        },
{
    let ghost txs = transactions@;
    let ghost n = txs.len() as int;
    if !all_amounts_non_negative(transactions) {
        return Err(EngineError::MalformedInput);
    }
    let purchases = match sum_entries(transactions, 1) {
        Some(v) => v,
        None => return Err(EngineError::Overflow),
    };
    let paid = match sum_entries(transactions, -1) {
        Some(v) => v,
        None => return Err(EngineError::Overflow),
    };
    let payments = match payment_override.checked_sub(&paid) {
        Some(v) => v,
        None => return Err(EngineError::Overflow),
    };
    if payments.units == i128::MIN {
        return Err(EngineError::Overflow);
    }
    let pool_start = Amount { units: if payments.units < 0 { -payments.units } else { payments.units } };
    let minimum_payment = match purchases.mul_rounded(&Amount { units: MINIMUM_PAYMENT_SHARE }) {
        Some(v) => v,
        None => return Err(EngineError::Overflow),
    };
    let client_case = if transactions.len() == 0 {
        ClientBalanceCaseType::NoPayment
    } else {
        calculate_client_balance_case(&purchases, &payments, previous_balance, &minimum_payment)
    };
    let mut pool = pool_start;
    let mut total_daily = Amount::zero();
    let mut total_penalty = Amount::zero();
    let mut details: HashMap<TransactionsIdType, InterestForTransaction> = HashMap::new();
    let ghost mut recs: Seq<InterestForTransaction> = Seq::empty();
    let mut i: usize = 0;
    while i < transactions.len()
        invariant
            txs == transactions@,
            n == txs.len(),
            0 <= i <= n,
            amounts_non_negative(txs),
            purchases.value() == purchases_upto(txs, n),
            paid.value() == payments_upto(txs, n),
            payments.value() == payment_override.value() - paid.value(),
            payments.value() != i128::MIN,
            pool_start.value() == abs(payments.value()) as int,
            rounded_product(purchases.value(), MINIMUM_PAYMENT_SHARE as int) == Some(
                minimum_payment.value(),
            ),
            client_case == if n == 0 {
                ClientBalanceCaseType::NoPayment
            } else {
                balance_case(
                    purchases.value(),
                    payments.value(),
                    previous_balance.value(),
                    minimum_payment.value(),
                )
            },
            pool.value() >= 0,
            pass(
                txs,
                i as int,
                client_case,
                statement_day,
                *daily_interest_rate,
                *penalty_interest_rate,
                pool_start.value(),
            ) == Some((recs, pool.value(), total_daily.value(), total_penalty.value())),
            recs.len() == i,
            details@ == details_upto(txs, recs, i as int),
        decreases n - i,
    {
        let tx = &transactions[i];
        let mut rec = InterestForTransaction::new(
            tx,
            daily_interest_rate,
            penalty_interest_rate,
            &client_case,
        );
        assert(txs[i as int].amount.value() >= 0);
        if rec.is_transaction_purchase {
            match rec.calculate_daily_interest_rate(&mut pool, &client_case, statement_day) {
                Ok(_) => {},
                Err(_) => {
                    proof {
                        assert(pass(
                            txs,
                            i as int + 1,
                            client_case,
                            statement_day,
                            *daily_interest_rate,
                            *penalty_interest_rate,
                            pool_start.value(),
                        ).is_none());
                        lemma_pass_fails_onward(
                            txs,
                            i as int + 1,
                            n,
                            client_case,
                            statement_day,
                            *daily_interest_rate,
                            *penalty_interest_rate,
                            pool_start.value(),
                        );
                    }
                    return Err(EngineError::Overflow);
                },
            }
        }
        let next_daily = total_daily.checked_add(&rec.total_daily_interest);
        let next_penalty = total_penalty.checked_add(&rec.total_penalty_interest);
        match (next_daily, next_penalty) {
            (Some(d), Some(p)) => {
                total_daily = d;
                total_penalty = p;
            },
            _ => {
                proof {
                    assert(pass(
                        txs,
                        i as int + 1,
                        client_case,
                        statement_day,
                        *daily_interest_rate,
                        *penalty_interest_rate,
                        pool_start.value(),
                    ).is_none());
                    lemma_pass_fails_onward(
                        txs,
                        i as int + 1,
                        n,
                        client_case,
                        statement_day,
                        *daily_interest_rate,
                        *penalty_interest_rate,
                        pool_start.value(),
                    );
                }
                return Err(EngineError::Overflow);
            },
        }
        details.insert(tx.id, rec);
        proof {
            lemma_details_prefix(txs, recs, recs.push(rec), i as int);
            recs = recs.push(rec);
        }
        i = i + 1;
    }
    let interest = match total_penalty.checked_add(&total_daily) {
        Some(v) => v,
        None => return Err(EngineError::Overflow),
    };
    let with_purchases = match interest.checked_add(&purchases) {
        Some(v) => v,
        None => return Err(EngineError::Overflow),
    };
    let balance = match with_purchases.checked_add(&payments) {
        Some(v) => v,
        None => return Err(EngineError::Overflow),
    };
    Ok(
        WalletStatementsResult {
            balance,
            previous_balance: *previous_balance,
            minimum_payment,
            total_purchases: purchases,
            total_payments: payments,
            total_daily_interest: total_daily,
            total_penalty_interest: total_penalty,
            statement_day,
            client_case,
            case_supported: client_case.is_supported(),
            transactions_details: details,
        },
    )
}

/// Computes the statement of a wallet from its confirmed transactions, in any
/// order: they are sorted stably by posting day, and payments are allocated
/// to purchases in that order.
///
/// `payment_override` is added to the (negative) payments before allocation;
/// `previous_balance` is the balance carried in; the rates are daily rates.
pub fn compute_wallet_statement(
    transactions: &Vec<TransactionConfirmed>,
    payment_override: &Amount,
    previous_balance: &Amount,
    statement_day: i32,
    daily_interest_rate: &Amount,
    penalty_interest_rate: &Amount,
) -> (r: Result<WalletStatementsResult, EngineError>)
    ensures
        match statement_model(
            transactions@,
            payment_override.value(),
            previous_balance.value(),
            statement_day,
            *daily_interest_rate,
            *penalty_interest_rate,
        ) {
            Ok(m) => r matches Ok(st) && st.holds(m, sorted_by_date(transactions@))
                && st.statement_day == statement_day,
            Err(e) => r == Err::<WalletStatementsResult, EngineError>(e),
        },
{
    let sorted = sort_by_balances_date(transactions);
    statement_of_ledger(
        &sorted,
        payment_override,
        previous_balance,
        statement_day,
        daily_interest_rate,
        penalty_interest_rate,
    )
}

impl WalletStatementsResult {
    /// A statement with the given details, statement day and previous
    /// balance, and every total zero; its case is not yet determined.
    pub fn new(
        interests_for_transaction: InterestsForTransactions,
        statement_day: i32,
        previous_balance: Amount,
    ) -> (r: Self)
        ensures
            r.balance.value() == 0,
            r.previous_balance == previous_balance,
            r.minimum_payment.value() == 0,
            r.total_purchases.value() == 0,
            r.total_payments.value() == 0,
            r.total_daily_interest.value() == 0,
            r.total_penalty_interest.value() == 0,
            r.statement_day == statement_day,
            r.client_case == ClientBalanceCaseType::Undetermined,
            r.case_supported,
            r.transactions_details@ == interests_for_transaction@,
    {
        WalletStatementsResult {
            balance: Amount::zero(),
            previous_balance,
            minimum_payment: Amount::zero(),
            total_purchases: Amount::zero(),
            total_payments: Amount::zero(),
            total_daily_interest: Amount::zero(),
            total_penalty_interest: Amount::zero(),
            statement_day,
            client_case: ClientBalanceCaseType::Undetermined,
            case_supported: true,
            transactions_details: interests_for_transaction,
        }
    }

    pub fn get_balance(&self) -> (r: Amount)
        ensures
            r == self.balance,
    {
        self.balance
    }

    pub fn get_previous_balance(&self) -> (r: Amount)
        ensures
            r == self.previous_balance,
    {
        self.previous_balance
    }

    pub fn get_minimum_payment(&self) -> (r: Amount)
        ensures
            r == self.minimum_payment,
    {
        self.minimum_payment
    }

    pub fn get_total_purchases(&self) -> (r: Amount)
        ensures
            r == self.total_purchases,
    {
        self.total_purchases
    }

    pub fn get_total_payments(&self) -> (r: Amount)
        ensures
            r == self.total_payments,
    {
        self.total_payments
    }

    pub fn get_transactions_details(&self) -> (r: &InterestsForTransactions)
        ensures
            r@ == self.transactions_details@,
    {
        &self.transactions_details
    }

    pub fn get_total_daily_interest(&self) -> (r: Amount)
        ensures
            r == self.total_daily_interest,
    {
        self.total_daily_interest
    }

    pub fn get_total_penalty_interest(&self) -> (r: Amount)
        ensures
            r == self.total_penalty_interest,
    {
        self.total_penalty_interest
    }

    pub fn get_statement_day(&self) -> (r: i32)
        ensures
            r == self.statement_day,
    {
        self.statement_day
    }

    pub fn get_client_case(&self) -> (r: ClientBalanceCaseType)
        ensures
            r == self.client_case,
    {
        self.client_case
    }
}

} // verus!
