//! Ledger records read by the interest engine, and reference data that
//! accompanies them.
use vstd::prelude::*;
use vstd::string::StringExecFns;
use crate::amount::Amount;

verus! {

/// Identifier of an account.
pub type AccountIdType = u32;

/// Identifier of a wallet, a currency-scoped sub-account.
pub type WalletIdType = u32;

/// Identifier of a currency.
pub type CurrenciesIdType = u16;

/// Identifier of a product.
pub type ProductIdType = u16;

/// Identifier of a confirmed transaction.
pub type TransactionsIdType = u64;

/// Identifier of a transaction code.
pub type TransactionCodeType = u16;

/// Identifier of a transaction category.
pub type TransactionCategoriesIdType = u8;

/// A wallet of an account.
#[derive(Clone, Copy, Debug, Default, PartialEq, Eq, Structural)]
pub struct Wallet {
    pub id: WalletIdType,
    pub currencies_id: CurrenciesIdType,
    pub charge_priority: i16,
}

impl Wallet {
    /// A wallet known only by its identifier and currency.
    pub fn ghost_with_id(id: WalletIdType, currencies_id: CurrenciesIdType) -> (r: Self)
        ensures
            r == (Wallet { id, currencies_id, charge_priority: 0 }),
    {
        Self { id, currencies_id, charge_priority: 0 }
    }

    /// A wallet whose fields are all zero.
    pub fn new_empty() -> (r: Self)
        ensures
            r == (Wallet { id: 0, currencies_id: 0, charge_priority: 0 }),
    {
        Self { id: 0, currencies_id: 0, charge_priority: 0 }
    }
}

/// One confirmed ledger entry of a wallet.
///
/// `balances_date` is the day the entry posted, as a day number (days counted
/// from the first day of the common era). `debit_credit` is `1` for a purchase
/// and `-1` for a payment.
#[derive(Clone, Copy, Debug)]
pub struct TransactionConfirmed {
    pub id: TransactionsIdType,
    pub wallet: Wallet,
    pub balances_date: i32,
    pub transaction_code: TransactionCodeType,
    pub debit_credit: i8,
    pub amount: Amount,
    pub authorization_amount: Option<Amount>,
    pub part: usize,
    pub reference: usize,
    pub is_arbitration: bool,
    pub transactions_pending_id: Option<TransactionsIdType>,
    pub installment_number: u8,
    pub installments_count: u8,
}

/// A currency of the reference data.
#[derive(Clone, Debug)]
pub struct Currencies {
    pub id: CurrenciesIdType,
    pub iso_3: String,
    pub name: String,
}

/// A transaction code of the reference data.
#[derive(Clone, Debug)]
pub struct TransactionCodes {
    pub id: TransactionCodeType,
    pub transaction_categories_id: TransactionCategoriesIdType,
    pub name: String,
    pub description: String,
}

/// An account and one of its wallets, as listed for a statement run.
#[derive(Clone, Copy, Debug, PartialEq, Eq, Structural)]
pub struct AccountDataFromDb {
    pub id: AccountIdType,
    pub wallet_id: WalletIdType,
}

/// Process identifiers of a statement configuration.
#[derive(Clone, Copy, Debug, PartialEq, Eq, Structural)]
pub struct Pids {
    pub pid0: u64,
    pub pid1: u64,
}

/// Process numbers of a statement configuration.
#[derive(Clone, Copy, Debug, PartialEq, Eq, Structural)]
pub struct Processes {
    pub process2: u64,
    pub process3: u64,
    pub process4: u64,
    pub process5: u64,
}

/// A statement configuration of a product.
#[derive(Clone, Debug)]
pub struct FullQuery {
    pub products_id: ProductIdType,
    pub pids_json: Option<Pids>,
    pub processes_json: Option<Processes>,
    pub created_at: String,
    pub updated_at: String,
}

/// The message for a row that lacks an expected field.
pub fn expect_sql_field(field_name: &str, struct_name: &str) -> (r: String)
    ensures
        r@ == "Expected field "@ + field_name@ + " AT "@ + struct_name@,
{
    let mut message = "Expected field ".to_owned();
    message.append(field_name);
    message.append(" AT ");
    message.append(struct_name);
    message
}

/// Whether a currency is one that the reference report lists (US dollar,
/// Peruvian sol, Argentine peso).
pub fn is_reported_currency(currency: &Currencies) -> (r: bool)
    ensures
        r == (currency.id == 840 || currency.id == 604 || currency.id == 32),
{
    currency.id == 840 || currency.id == 604 || currency.id == 32
}

/// How many times the reference report lists a transaction code: once for
/// the interest category (4), once more for an extended code (1000 and up).
pub fn transaction_code_listings(code: &TransactionCodes) -> (r: u8)
    ensures
        r == (if code.transaction_categories_id == 4 { 1int } else { 0int }) + (if code.id
            >= 1000 { 1int } else { 0int }),
{
    let mut n: u8 = 0;
    if code.transaction_categories_id == 4 {
        n = n + 1;
    }
    if code.id >= 1000 {
        n = n + 1;
    }
    n
}

} // verus!
