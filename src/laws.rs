//! Properties that every statement satisfies.
use vstd::prelude::*;
use crate::amount::{abs, Amount};
use crate::case::{balance_case, ClientBalanceCaseType};
use crate::interest::{is_purchase_entry, InterestForTransaction};
use crate::ledger::TransactionConfirmed;
use crate::ordering::{distinct_days, lemma_sort_ignores_input_order, lemma_sorted_by_date, sorted_by_date};
use crate::statement::{amounts_non_negative, pass, statement_model};

verus! {

/// Sum of the financial interest of a sequence of records.
pub open spec fn sum_daily(recs: Seq<InterestForTransaction>) -> int
    decreases recs.len(),
{
    if recs.len() == 0 {
        0
    } else {
        sum_daily(recs.drop_last()) + recs.last().total_daily_interest.value()
    }
}

/// Sum of the penalty interest of a sequence of records.
pub open spec fn sum_penalty(recs: Seq<InterestForTransaction>) -> int
    decreases recs.len(),
{
    if recs.len() == 0 {
        0
    } else {
        sum_penalty(recs.drop_last()) + recs.last().total_penalty_interest.value()
    }
}

/// What is still owed of each record lies between zero and its amount.
pub open spec fn owed_within_amount(recs: Seq<InterestForTransaction>) -> bool {
    forall|k: int|
        0 <= k < recs.len() ==> 0 <= (#[trigger] recs[k]).effective_transaction_amount.value()
            <= recs[k].transaction_amount.value()
}

/// Payments reach a purchase only once every older purchase is paid off.
pub open spec fn oldest_paid_first(recs: Seq<InterestForTransaction>) -> bool {
    forall|i: int, j: int|
        0 <= i < j < recs.len() && (#[trigger] recs[i]).is_transaction_purchase
            && (#[trigger] recs[j]).is_transaction_purchase
            && recs[j].effective_transaction_amount.value() < recs[j].transaction_amount.value()
            ==> recs[i].effective_transaction_amount.value() == 0
}

/// Everything the single pass keeps true, by induction on its length.
proof fn lemma_pass_invariants(
    txs: Seq<TransactionConfirmed>,
    n: int,
    client_case: ClientBalanceCaseType,
    statement_day: i32,
    daily_rate: Amount,
    penalty_rate: Amount,
    pool: int,
)
    requires
        amounts_non_negative(txs),
        0 <= n <= txs.len(),
        pool >= 0,
    ensures
        pass(txs, n, client_case, statement_day, daily_rate, penalty_rate, pool) matches Some(st)
            ==> {
            &&& st.0.len() == n
            &&& st.1 >= 0
            &&& owed_within_amount(st.0)
            &&& oldest_paid_first(st.0)
            &&& st.1 > 0 ==> forall|k: int|
                0 <= k < n && (#[trigger] st.0[k]).is_transaction_purchase
                    ==> st.0[k].effective_transaction_amount.value() == 0
            &&& forall|k: int|
                0 <= k < n ==> (#[trigger] st.0[k]).transaction_amount == txs[k].amount
                    && st.0[k].is_transaction_purchase == is_purchase_entry(txs[k].debit_credit)
            &&& st.2 == sum_daily(st.0)
            &&& st.3 == sum_penalty(st.0)
        },
    decreases n,
{
    if n > 0 {
        lemma_pass_invariants(
            txs,
            n - 1,
            client_case,
            statement_day,
            daily_rate,
            penalty_rate,
            pool,
        );
        let prev = pass(txs, n - 1, client_case, statement_day, daily_rate, penalty_rate, pool);
        let cur = pass(txs, n, client_case, statement_day, daily_rate, penalty_rate, pool);
        if let Some(st) = cur {
            let ps = prev.unwrap();
            let rec = st.0[n - 1];
            assert(st.0 =~= ps.0.push(rec));
            assert(st.0.drop_last() =~= ps.0);
            assert(forall|k: int| 0 <= k < n - 1 ==> st.0[k] == ps.0[k]);
            assert(txs[n - 1].amount.value() >= 0);
            assert(st.0.len() == n);
            assert(owed_within_amount(st.0));
            assert(oldest_paid_first(st.0)) by {
                assert forall|i: int, j: int|
                    0 <= i < j < st.0.len() && (#[trigger] st.0[i]).is_transaction_purchase
                        && (#[trigger] st.0[j]).is_transaction_purchase
                        && st.0[j].effective_transaction_amount.value()
                        < st.0[j].transaction_amount.value() implies st.0[i].effective_transaction_amount.value()
                    == 0 by {
                    if j < n - 1 {
                        assert(ps.0[i] == st.0[i] && ps.0[j] == st.0[j]);
                    } else {
                        assert(ps.1 > 0);
                        assert(ps.0[i] == st.0[i]);
                    }
                }
            }
        }
    }
}

/// After allocation, what remains owed of every transaction lies between zero
/// and the transaction's amount.
pub proof fn lemma_effective_amount_within_bounds(
    txs: Seq<TransactionConfirmed>,
    payment_override: int,
    previous_balance: int,
    statement_day: i32,
    daily_rate: Amount,
    penalty_rate: Amount,
)
    requires
        statement_model(
            txs,
            payment_override,
            previous_balance,
            statement_day,
            daily_rate,
            penalty_rate,
        ) is Ok,
    ensures
        ({
            let m = statement_model(
                txs,
                payment_override,
                previous_balance,
                statement_day,
                daily_rate,
                penalty_rate,
            )->Ok_0;
            &&& m.records.len() == txs.len()
            &&& owed_within_amount(m.records)
        }),
{
    let s = sorted_by_date(txs);
    lemma_sorted_by_date(txs);
    let payments = payment_override - crate::statement::payments_upto(s, s.len() as int);
    let m = statement_model(
        txs,
        payment_override,
        previous_balance,
        statement_day,
        daily_rate,
        penalty_rate,
    )->Ok_0;
    lemma_pass_invariants(
        s,
        s.len() as int,
        m.client_case,
        statement_day,
        daily_rate,
        penalty_rate,
        abs(payments) as int,
    );
}

/// The payment pool pays purchases off oldest first: if a purchase received
/// any payment, every older purchase is fully paid.
pub proof fn lemma_oldest_purchase_paid_first(
    txs: Seq<TransactionConfirmed>,
    payment_override: int,
    previous_balance: int,
    statement_day: i32,
    daily_rate: Amount,
    penalty_rate: Amount,
)
    requires
        statement_model(
            txs,
            payment_override,
            previous_balance,
            statement_day,
            daily_rate,
            penalty_rate,
        ) is Ok,
    ensures
        oldest_paid_first(
            statement_model(
                txs,
                payment_override,
                previous_balance,
                statement_day,
                daily_rate,
                penalty_rate,
            )->Ok_0.records,
        ),
{
    let s = sorted_by_date(txs);
    lemma_sorted_by_date(txs);
    let payments = payment_override - crate::statement::payments_upto(s, s.len() as int);
    let m = statement_model(
        txs,
        payment_override,
        previous_balance,
        statement_day,
        daily_rate,
        penalty_rate,
    )->Ok_0;
    lemma_pass_invariants(
        s,
        s.len() as int,
        m.client_case,
        statement_day,
        daily_rate,
        penalty_rate,
        abs(payments) as int,
    );
}

/// The statement's interest totals are the sums of the per-transaction
/// interest.
pub proof fn lemma_totals_are_sums(
    txs: Seq<TransactionConfirmed>,
    payment_override: int,
    previous_balance: int,
    statement_day: i32,
    daily_rate: Amount,
    penalty_rate: Amount,
)
    requires
        statement_model(
            txs,
            payment_override,
            previous_balance,
            statement_day,
            daily_rate,
            penalty_rate,
        ) is Ok,
    ensures
        ({
            let m = statement_model(
                txs,
                payment_override,
                previous_balance,
                statement_day,
                daily_rate,
                penalty_rate,
            )->Ok_0;
            &&& m.total_daily_interest == sum_daily(m.records)
            &&& m.total_penalty_interest == sum_penalty(m.records)
        }),
{
    let s = sorted_by_date(txs);
    lemma_sorted_by_date(txs);
    let payments = payment_override - crate::statement::payments_upto(s, s.len() as int);
    let m = statement_model(
        txs,
        payment_override,
        previous_balance,
        statement_day,
        daily_rate,
        penalty_rate,
    )->Ok_0;
    lemma_pass_invariants(
        s,
        s.len() as int,
        m.client_case,
        statement_day,
        daily_rate,
        penalty_rate,
        abs(payments) as int,
    );
}

/// With no payment at all, the case is `NoPayment`, except when purchases and
/// previous balance add up to nothing owed, where `UpToDate` comes first.
pub proof fn lemma_zero_payments_case(purchases: int, previous_balance: int, minimum_payment: int)
    ensures
        balance_case(purchases, 0, previous_balance, minimum_payment) == if purchases
            + previous_balance <= 0 {
            ClientBalanceCaseType::UpToDate
        } else {
            ClientBalanceCaseType::NoPayment
        },
{
}

/// Payments are allocated by posting day, not by input order: two orderings
/// of the same transactions, posted on pairwise distinct days, give the same
/// statement.
pub proof fn lemma_statement_ignores_input_order(
    txs: Seq<TransactionConfirmed>,
    reordered: Seq<TransactionConfirmed>,
    payment_override: int,
    previous_balance: int,
    statement_day: i32,
    daily_rate: Amount,
    penalty_rate: Amount,
)
    requires
        reordered.to_multiset() == txs.to_multiset(),
        distinct_days(txs),
    ensures
        statement_model(
            reordered,
            payment_override,
            previous_balance,
            statement_day,
            daily_rate,
            penalty_rate,
        ) == statement_model(
            txs,
            payment_override,
            previous_balance,
            statement_day,
            daily_rate,
            penalty_rate,
        ),
{
    lemma_sort_ignores_input_order(txs, reordered);
}

} // verus!
