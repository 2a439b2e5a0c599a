use rust_decimal::Decimal;
use wallet_interest::amount::Amount;
use wallet_interest::case::{calculate_client_balance_case, ClientBalanceCaseType};
use wallet_interest::error::EngineError;
use wallet_interest::interest::{allocate_payment, calculate_days_amount, InterestForTransaction};
use wallet_interest::ledger::{TransactionConfirmed, Wallet};
use wallet_interest::ordering::{is_chronological, sort_by_balances_date};
use wallet_interest::statement::{compute_wallet_statement, WalletStatementsResult};

const DAY0: i32 = 738_000;

fn amt(mantissa: i128, scale: u32) -> Amount {
    Amount::from_parts(mantissa, scale).unwrap()
}

fn from_decimal(d: Decimal) -> Amount {
    amt(d.mantissa(), d.scale())
}

fn tx(id: u64, day: i32, debit_credit: i8, amount: Amount) -> TransactionConfirmed {
    TransactionConfirmed {
        id,
        wallet: Wallet::ghost_with_id(129, 858),
        balances_date: day,
        transaction_code: 1,
        debit_credit,
        amount,
        authorization_amount: None,
        part: 0,
        reference: 0,
        is_arbitration: false,
        transactions_pending_id: None,
        installment_number: 1,
        installments_count: 1,
    }
}

fn rate(numerator: i64, scale: u32) -> Amount {
    from_decimal(Decimal::new(numerator, scale) / Decimal::new(365, 0))
}

fn run(txs: &Vec<TransactionConfirmed>, statement_day: i32) -> Result<WalletStatementsResult, EngineError> {
    compute_wallet_statement(txs, &Amount::zero(), &Amount::zero(), statement_day, &rate(1, 1), &rate(2, 1))
}

fn detail(st: &WalletStatementsResult, id: u64) -> InterestForTransaction {
    *st.get_transactions_details().get(&id).unwrap()
}

#[test]
fn no_payment_accrues_daily_interest_on_full_amount() {
    let txs = vec![tx(1, DAY0, 1, amt(100, 0))];
    let st = run(&txs, DAY0 + 10).unwrap();
    assert_eq!(st.client_case, ClientBalanceCaseType::NoPayment);
    let expected = Decimal::new(100, 0) * Decimal::new(10, 0) * (Decimal::new(1, 1) / Decimal::new(365, 0));
    assert_eq!(st.total_daily_interest, from_decimal(expected));
    let d = detail(&st, 1);
    assert_eq!(d.get_effective_transaction_amount(), amt(100, 0));
    assert_eq!(d.get_total_daily_interest(), from_decimal(expected));
    // 100 * 10 * 0.1 / 365 is about 0.27397
    let units = st.total_daily_interest.units;
    assert!(units > 2_739_000_000_000_000_000_000_000_000 && units < 2_740_000_000_000_000_000_000_000_000);
}

#[test]
fn forced_no_payment_case_on_record() {
    let t = tx(1, DAY0, 1, amt(100, 0));
    let daily = rate(1, 1);
    let penalty = rate(2, 1);
    let case = ClientBalanceCaseType::NoPayment;
    let mut rec = InterestForTransaction::new(&t, &daily, &penalty, &case);
    let mut pool = Amount::zero();
    rec.calculate_daily_interest_rate(&mut pool, &case, DAY0 + 10).unwrap();
    let expected = Decimal::new(1000, 0) * (Decimal::new(1, 1) / Decimal::new(365, 0));
    assert_eq!(rec.total_daily_interest, from_decimal(expected));
    assert_eq!(rec.effective_transaction_amount, amt(100, 0));
    assert!(rec.total_penalty_interest.units > 0);
    assert_eq!(pool, Amount::zero());
}

#[test]
fn full_payment_clears_purchase() {
    let txs = vec![tx(1, DAY0, 1, amt(100, 0)), tx(2, DAY0 + 1, -1, amt(100, 0))];
    let st = run(&txs, DAY0 + 10).unwrap();
    assert_eq!(st.client_case, ClientBalanceCaseType::UpToDate);
    let d = detail(&st, 1);
    assert_eq!(d.effective_transaction_amount, Amount::zero());
    assert_eq!(d.total_daily_interest, Amount::zero());
    assert_eq!(d.total_penalty_interest, Amount::zero());
    assert_eq!(st.total_daily_interest, Amount::zero());
    assert_eq!(st.total_penalty_interest, Amount::zero());
}

#[test]
fn partial_payment_reaches_oldest_purchase_only() {
    let txs = vec![
        tx(1, DAY0, 1, amt(100, 0)),
        tx(2, DAY0 + 1, 1, amt(50, 0)),
        tx(3, DAY0 + 2, -1, amt(60, 0)),
    ];
    let st = run(&txs, DAY0 + 10).unwrap();
    assert_eq!(detail(&st, 1).effective_transaction_amount, amt(40, 0));
    assert_eq!(detail(&st, 2).effective_transaction_amount, amt(50, 0));
    assert_eq!(detail(&st, 3).effective_transaction_amount, amt(60, 0));
    assert!(!detail(&st, 3).is_transaction_purchase);
    assert_eq!(st.total_purchases, amt(150, 0));
    assert_eq!(st.total_payments, amt(-60, 0));
    assert_eq!(st.minimum_payment, amt(3750, 2));
    assert_eq!(st.client_case, ClientBalanceCaseType::MinimumCovered);
    assert_eq!(detail(&st, 1).total_penalty_interest, Amount::zero());
}

#[test]
fn empty_ledger_gives_zero_statement() {
    let txs: Vec<TransactionConfirmed> = Vec::new();
    let st = run(&txs, DAY0).unwrap();
    assert_eq!(st.client_case, ClientBalanceCaseType::NoPayment);
    assert!(st.transactions_details.is_empty());
    assert_eq!(st.total_purchases, Amount::zero());
    assert_eq!(st.total_payments, Amount::zero());
    assert_eq!(st.minimum_payment, Amount::zero());
    assert_eq!(st.total_daily_interest, Amount::zero());
    assert_eq!(st.total_penalty_interest, Amount::zero());
    assert_eq!(st.balance, Amount::zero());
}

#[test]
fn effective_amounts_stay_within_bounds() {
    let txs = vec![
        tx(1, DAY0, 1, amt(3000, 2)),
        tx(2, DAY0 + 3, 1, amt(1250, 2)),
        tx(3, DAY0 + 4, -1, amt(3500, 2)),
        tx(4, DAY0 + 6, 1, amt(800, 2)),
    ];
    let st = run(&txs, DAY0 + 30).unwrap();
    for id in 1..=4u64 {
        let d = detail(&st, id);
        assert!(d.effective_transaction_amount.units >= 0);
        assert!(d.effective_transaction_amount.units <= d.transaction_amount.units);
    }
}

#[test]
fn older_purchases_are_paid_first() {
    let txs = vec![
        tx(1, DAY0, 1, amt(30, 0)),
        tx(2, DAY0 + 1, 1, amt(20, 0)),
        tx(3, DAY0 + 2, 1, amt(10, 0)),
        tx(4, DAY0 + 3, -1, amt(35, 0)),
    ];
    let st = run(&txs, DAY0 + 5).unwrap();
    assert_eq!(detail(&st, 1).effective_transaction_amount, Amount::zero());
    assert_eq!(detail(&st, 2).effective_transaction_amount, amt(15, 0));
    assert_eq!(detail(&st, 3).effective_transaction_amount, amt(10, 0));
}

#[test]
fn classifier_is_repeatable() {
    let a = calculate_client_balance_case(&amt(100, 0), &amt(-10, 0), &Amount::zero(), &amt(25, 0));
    let b = calculate_client_balance_case(&amt(100, 0), &amt(-10, 0), &Amount::zero(), &amt(25, 0));
    assert_eq!(a, b);
    assert_eq!(a, ClientBalanceCaseType::Penalty);
}

#[test]
fn classifier_precedence() {
    let zero = Amount::zero();
    assert_eq!(calculate_client_balance_case(&amt(100, 0), &zero, &zero, &amt(25, 0)), ClientBalanceCaseType::NoPayment);
    assert_eq!(calculate_client_balance_case(&zero, &zero, &zero, &zero), ClientBalanceCaseType::UpToDate);
    assert_eq!(calculate_client_balance_case(&amt(100, 0), &amt(-100, 0), &zero, &amt(25, 0)), ClientBalanceCaseType::UpToDate);
    assert_eq!(calculate_client_balance_case(&amt(100, 0), &amt(-30, 0), &zero, &amt(25, 0)), ClientBalanceCaseType::MinimumCovered);
    assert_eq!(calculate_client_balance_case(&amt(100, 0), &amt(-30, 0), &amt(50, 0), &amt(25, 0)), ClientBalanceCaseType::MinimumCovered);
    assert_eq!(calculate_client_balance_case(&amt(100, 0), &amt(-120, 0), &amt(50, 0), &amt(25, 0)), ClientBalanceCaseType::MinimumCovered);
}

#[test]
fn classifier_on_extreme_values() {
    let max = Amount { units: i128::MAX };
    let min = Amount { units: i128::MIN };
    assert_eq!(calculate_client_balance_case(&max, &min, &max, &Amount::zero()), ClientBalanceCaseType::MinimumCovered);
    assert_eq!(calculate_client_balance_case(&max, &min, &Amount::zero(), &Amount::zero()), ClientBalanceCaseType::UpToDate);
}

#[test]
fn statement_totals_are_sums_of_details() {
    let txs = vec![
        tx(1, DAY0, 1, amt(100, 0)),
        tx(2, DAY0 + 2, 1, amt(70, 0)),
        tx(3, DAY0 + 3, -1, amt(10, 0)),
    ];
    let st = run(&txs, DAY0 + 20).unwrap();
    assert_eq!(st.client_case, ClientBalanceCaseType::Penalty);
    let mut daily: i128 = 0;
    let mut penalty: i128 = 0;
    for d in st.transactions_details.values() {
        daily += d.total_daily_interest.units;
        penalty += d.total_penalty_interest.units;
    }
    assert_eq!(daily, st.total_daily_interest.units);
    assert_eq!(penalty, st.total_penalty_interest.units);
    assert!(penalty > 0);
    let balance = st.total_penalty_interest.units + st.total_daily_interest.units + st.total_purchases.units + st.total_payments.units;
    assert_eq!(st.balance.units, balance);
}

#[test]
fn payment_override_joins_the_pool() {
    let txs = vec![tx(1, DAY0, 1, amt(100, 0))];
    let over = amt(-100, 0);
    let st = compute_wallet_statement(&txs, &over, &Amount::zero(), DAY0 + 3, &rate(1, 1), &rate(2, 1)).unwrap();
    assert_eq!(st.client_case, ClientBalanceCaseType::UpToDate);
    assert_eq!(st.total_payments, amt(-100, 0));
    assert_eq!(detail(&st, 1).effective_transaction_amount, Amount::zero());
}

#[test]
fn future_dated_purchase_has_negative_interest() {
    let txs = vec![tx(1, DAY0 + 5, 1, amt(100, 0))];
    let st = run(&txs, DAY0).unwrap();
    assert!(st.total_daily_interest.units < 0);
}

#[test]
fn negative_amount_is_malformed() {
    let txs = vec![tx(1, DAY0, 1, amt(-5, 0))];
    assert!(matches!(run(&txs, DAY0), Err(EngineError::MalformedInput)));
}

#[test]
fn unordered_ledger_is_sorted_by_posting_day() {
    let ordered = vec![
        tx(1, DAY0, 1, amt(100, 0)),
        tx(2, DAY0 + 1, 1, amt(50, 0)),
        tx(3, DAY0 + 2, -1, amt(60, 0)),
    ];
    let shuffled = vec![ordered[2], ordered[1], ordered[0]];
    assert!(!is_chronological(&shuffled));
    let a = run(&ordered, DAY0 + 10).unwrap();
    let b = run(&shuffled, DAY0 + 10).unwrap();
    for id in 1..=3u64 {
        assert_eq!(detail(&a, id), detail(&b, id));
    }
    assert_eq!(detail(&b, 1).effective_transaction_amount, amt(40, 0));
    assert_eq!(detail(&b, 2).effective_transaction_amount, amt(50, 0));
    assert_eq!(a.total_daily_interest, b.total_daily_interest);
    assert_eq!(a.balance, b.balance);
}

#[test]
fn swapped_payments_give_the_same_statement() {
    let p1 = tx(1, DAY0, 1, amt(80, 0));
    let q1 = tx(2, DAY0 + 1, -1, amt(10, 0));
    let q2 = tx(3, DAY0 + 2, -1, amt(15, 0));
    let a = run(&vec![p1, q1, q2], DAY0 + 9).unwrap();
    let b = run(&vec![p1, q2, q1], DAY0 + 9).unwrap();
    assert_eq!(a.total_payments, b.total_payments);
    assert_eq!(detail(&a, 1), detail(&b, 1));
    assert_eq!(detail(&b, 1).effective_transaction_amount, amt(55, 0));
}

#[test]
fn sorting_is_stable_on_equal_days() {
    let txs = vec![tx(1, DAY0 + 1, 1, amt(1, 0)), tx(2, DAY0, 1, amt(2, 0)), tx(3, DAY0 + 1, 1, amt(3, 0)), tx(4, DAY0, -1, amt(4, 0))];
    let sorted = sort_by_balances_date(&txs);
    let ids: Vec<u64> = sorted.iter().map(|t| t.id).collect();
    assert_eq!(ids, vec![2, 4, 1, 3]);
    assert!(is_chronological(&sorted));
}

#[test]
fn grace_period_case_is_flagged_and_accrues_nothing() {
    let t = tx(1, DAY0, 1, amt(100, 0));
    let case = ClientBalanceCaseType::TwoDaysGrace;
    let mut rec = InterestForTransaction::new(&t, &rate(1, 1), &rate(2, 1), &case);
    let mut pool = amt(30, 0);
    assert_eq!(rec.calculate_daily_interest_rate(&mut pool, &case, DAY0 + 10), Ok(false));
    assert_eq!(rec.effective_transaction_amount, amt(70, 0));
    assert_eq!(rec.total_daily_interest, Amount::zero());
    assert_eq!(rec.total_penalty_interest, Amount::zero());
    assert!(!case.is_supported());
    let st = run(&vec![t], DAY0 + 10).unwrap();
    assert!(st.case_supported);
}

#[test]
fn day_count_between_dates() {
    assert_eq!(calculate_days_amount(DAY0, DAY0 + 30), 30);
    assert_eq!(calculate_days_amount(DAY0 + 5, DAY0), -5);
}

#[test]
fn large_outstanding_amount_accrues_without_overflow() {
    let txs = vec![tx(1, DAY0, 1, amt(600_000_000, 0))];
    let st = run(&txs, DAY0 + 30).unwrap();
    let expected = Decimal::new(600_000_000, 0) * Decimal::new(30, 0) * (Decimal::new(1, 1) / Decimal::new(365, 0));
    assert_eq!(st.total_daily_interest, from_decimal(expected));
}

#[test]
fn oversized_sum_overflows() {
    let big = Amount { units: i128::MAX / 2 + 1 };
    let txs = vec![tx(1, DAY0, 1, big), tx(2, DAY0, 1, big)];
    assert!(matches!(run(&txs, DAY0), Err(EngineError::Overflow)));
}

#[test]
fn other_debit_credit_values_count_as_purchases() {
    let txs = vec![tx(1, DAY0, 0, amt(40, 0)), tx(2, DAY0 + 1, -1, amt(10, 0))];
    let st = run(&txs, DAY0 + 2).unwrap();
    assert!(detail(&st, 1).is_transaction_purchase);
    assert_eq!(detail(&st, 1).effective_transaction_amount, amt(30, 0));
    assert_eq!(st.total_purchases, Amount::zero());
}

#[test]
fn rounded_product_goes_through_decimal() {
    let p = amt(25, 1).mul_rounded(&amt(4, 0)).unwrap();
    assert_eq!(p, amt(10, 0));
    let third = from_decimal(Decimal::new(1, 0) / Decimal::new(3, 0));
    let q = third.mul_rounded(&amt(3, 0)).unwrap();
    assert_eq!(q, from_decimal((Decimal::new(1, 0) / Decimal::new(3, 0)) * Decimal::new(3, 0)));
}

#[test]
fn parts_round_trip() {
    let a = amt(12345, 3);
    assert_eq!(a.units, 12_345 * 10i128.pow(25));
    assert_eq!(a.to_parts(), Some((12345, 3)));
    assert_eq!(amt(1200, 2).to_parts(), Some((12, 0)));
    assert_eq!(amt(-50, 1).to_parts(), Some((-5, 0)));
    assert_eq!(Amount::from_parts(1, 29), None);
    assert_eq!(Amount { units: i128::MIN }.to_parts(), None);
}

#[test]
fn new_statement_is_zeroed() {
    let st = WalletStatementsResult::new(std::collections::HashMap::new(), DAY0, amt(7, 0));
    assert_eq!(st.get_previous_balance(), amt(7, 0));
    assert_eq!(st.get_total_purchases(), Amount::zero());
    assert_eq!(st.get_statement_day(), DAY0);
    assert_eq!(st.get_client_case(), ClientBalanceCaseType::Undetermined);
}

#[test]
fn waterfall_step_cases() {
    assert_eq!(allocate_payment(&amt(60, 0), &amt(100, 0)), (Amount::zero(), amt(40, 0)));
    assert_eq!(allocate_payment(&amt(100, 0), &amt(100, 0)), (Amount::zero(), Amount::zero()));
    assert_eq!(allocate_payment(&amt(150, 0), &amt(100, 0)), (amt(50, 0), Amount::zero()));
    assert_eq!(allocate_payment(&Amount::zero(), &amt(100, 0)), (Amount::zero(), amt(100, 0)));
}
