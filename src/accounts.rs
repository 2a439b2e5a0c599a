//! Accounts and wallets gathered for a statement run, with the last
//! statements known for each.
use vstd::prelude::*;
use vstd::string::StringExecFns;
use std::collections::HashMap;
use crate::amount::Amount;
use crate::ledger::{AccountDataFromDb, AccountIdType, CurrenciesIdType, Wallet, WalletIdType};

verus! {

broadcast use vstd::std_specs::hash::group_hash_axioms;

/// Day number of 1970-01-01, counted from the first day of the common era.
pub const EPOCH_DAY: i32 = 719163;

/// Day number of 2022-01-01, counted from the first day of the common era.
pub const FIRST_ACCOUNT_STATEMENT_DAY: i32 = 738156;

/// The last statement of an account. Days are day numbers; times are
/// seconds since the Unix epoch.
#[derive(Clone, Copy, Debug, PartialEq, Eq, Structural)]
pub struct LastAccountStatement {
    pub accounts_id: AccountIdType,
    pub balances_date: i32,
    pub wallets_id: WalletIdType,
    pub balance: Amount,
    pub created_at: i64,
    pub updated_at: i64,
}

/// The last statement of a wallet. Days are day numbers; times are seconds
/// since the Unix epoch.
#[derive(Clone, Copy, Debug, PartialEq, Eq, Structural)]
pub struct LastWalletStatement {
    pub wallet_id: WalletIdType,
    pub balances_date: i32,
    pub accounts_id: AccountIdType,
    pub balance: Amount,
    pub minimum_payment: Amount,
    pub created_at: i64,
    pub updated_at: i64,
}

/// A wallet joined with its last statement.
#[derive(Clone, Copy, Debug, PartialEq, Eq, Structural)]
pub struct WalletData {
    pub wallets_id: WalletIdType,
    pub currencies_id: CurrenciesIdType,
    pub charge_priority: i16,
    pub balances_date: i32,
    pub accounts_id: AccountIdType,
    pub balance: Amount,
    pub minimum_payment: Amount,
    pub created_at: i64,
    pub updated_at: i64,
}

/// An account with its last statement and its wallets.
pub struct AccountData {
    pub id: AccountIdType,
    pub last_account_statement: Option<LastAccountStatement>,
    pub wallets_data: HashMap<WalletIdType, (Wallet, Option<LastWalletStatement>)>,
}

/// An [`AccountData`] as mathematical values.
pub struct AccountDataView {
    pub id: AccountIdType,
    pub last_account_statement: Option<LastAccountStatement>,
    pub wallets_data: Map<WalletIdType, (Wallet, Option<LastWalletStatement>)>,
}

impl View for AccountData {
    type V = AccountDataView;

    open spec fn view(&self) -> AccountDataView {
        AccountDataView {
            id: self.id,
            last_account_statement: self.last_account_statement,
            wallets_data: self.wallets_data@,
        }
    }
}

/// The accounts of a map, each seen as mathematical values.
pub open spec fn accounts_view(m: Map<AccountIdType, AccountData>) -> Map<
    AccountIdType,
    AccountDataView,
> {
    Map::new(|k: AccountIdType| m.contains_key(k), |k: AccountIdType| m[k]@)
}

impl LastWalletStatement {
    /// A statement of wallet zero, dated 1970-01-01, with zero balances.
    pub fn new_empty() -> (r: LastWalletStatement)
        ensures
            r == (LastWalletStatement {
                wallet_id: 0,
                balances_date: EPOCH_DAY,
                accounts_id: 0,
                balance: Amount { units: 0 },
                minimum_payment: Amount { units: 0 },
                created_at: 0,
                updated_at: 0,
            }),
    {
        LastWalletStatement {
            wallet_id: 0,
            balances_date: EPOCH_DAY,
            accounts_id: 0,
            balance: Amount::zero(),
            minimum_payment: Amount::zero(),
            created_at: 0,
            updated_at: 0,
        }
    }

    /// When the statement was made.
    pub fn get_statement_day(&self) -> (r: i64)
        ensures
            r == self.created_at,
    {
        self.created_at
    }
}

impl LastAccountStatement {
    /// A statement of account zero, dated 2022-01-01, with a zero balance.
    pub fn new_empty() -> (r: LastAccountStatement)
        ensures
            r == (LastAccountStatement {
                accounts_id: 0,
                balances_date: FIRST_ACCOUNT_STATEMENT_DAY,
                wallets_id: 0,
                balance: Amount { units: 0 },
                created_at: 0,
                updated_at: 0,
            }),
    {
        LastAccountStatement {
            accounts_id: 0,
            balances_date: FIRST_ACCOUNT_STATEMENT_DAY,
            wallets_id: 0,
            balance: Amount::zero(),
            created_at: 0,
            updated_at: 0,
        }
    }

    pub fn get_balances_date(&self) -> (r: i32)
        ensures
            r == self.balances_date,
    {
        self.balances_date
    }
}

/// The character of decimal digit `d`.
pub open spec fn digit_char(d: nat) -> char {
    if d == 0 {
        '0'
    } else if d == 1 {
        '1'
    } else if d == 2 {
        '2'
    } else if d == 3 {
        '3'
    } else if d == 4 {
        '4'
    } else if d == 5 {
        '5'
    } else if d == 6 {
        '6'
    } else if d == 7 {
        '7'
    } else if d == 8 {
        '8'
    } else {
        '9'
    }
}

/// The decimal digits of `n`, without leading zeros.
pub open spec fn decimal(n: nat) -> Seq<char>
    decreases n,
{
    if n < 10 {
        seq![digit_char(n)]
    } else {
        decimal(n / 10).push(digit_char(n % 10))
    }
}

/// The decimal forms of `ids`, separated by commas.
pub open spec fn comma_list(ids: Seq<AccountIdType>) -> Seq<char>
    decreases ids.len(),
{
    if ids.len() == 0 {
        Seq::empty()
    } else if ids.len() == 1 {
        decimal(ids[0] as nat)
    } else {
        comma_list(ids.drop_last()) + seq![','] + decimal(ids.last() as nat)
    }
}

fn digit_str(d: u32) -> (r: &'static str)
    requires
        d < 10,
    ensures
        r@ == seq![digit_char(d as nat)],
{
    proof {
        reveal_strlit("0");
        reveal_strlit("1");
        reveal_strlit("2");
        reveal_strlit("3");
        reveal_strlit("4");
        reveal_strlit("5");
        reveal_strlit("6");
        reveal_strlit("7");
        reveal_strlit("8");
        reveal_strlit("9");
    }
    if d == 0 {
        "0"
    } else if d == 1 {
        "1"
    } else if d == 2 {
        "2"
    } else if d == 3 {
        "3"
    } else if d == 4 {
        "4"
    } else if d == 5 {
        "5"
    } else if d == 6 {
        "6"
    } else if d == 7 {
        "7"
    } else if d == 8 {
        "8"
    } else {
        "9"
    }
}

/// Appends the decimal digits of `n` to `s`.
fn push_decimal(s: &mut String, n: u32)
    ensures
        final(s)@ == old(s)@ + decimal(n as nat),
    decreases n,
{
    if n >= 10 {
        push_decimal(s, n / 10);
    }
    s.append(digit_str(n % 10));
    assert(final(s)@ =~= old(s)@ + decimal(n as nat));
}

/// The entry of a newly listed account: no statement yet, and the one wallet
/// it was listed with, empty.
pub open spec fn fresh_account(a: AccountDataFromDb) -> AccountDataView {
    AccountDataView {
        id: a.id,
        last_account_statement: None,
        wallets_data: Map::empty().insert(
            a.wallet_id,
            (Wallet { id: 0, currencies_id: 0, charge_priority: 0 }, None),
        ),
    }
}

/// `v` with one more empty wallet, `wallet_id`.
pub open spec fn with_empty_wallet(v: AccountDataView, wallet_id: WalletIdType) -> AccountDataView {
    AccountDataView {
        id: v.id,
        last_account_statement: v.last_account_statement,
        wallets_data: v.wallets_data.insert(
            wallet_id,
            (Wallet { id: 0, currencies_id: 0, charge_priority: 0 }, None),
        ),
    }
}

/// The account ids and the account map once the first `n` listed entries
/// are taken in: a new id is appended and gets a fresh entry; a known id
/// gets one more empty wallet.
pub open spec fn listing_upto(
    accts: Seq<AccountDataFromDb>,
    n: int,
    ids: Seq<AccountIdType>,
    map: Map<AccountIdType, AccountDataView>,
) -> (Seq<AccountIdType>, Map<AccountIdType, AccountDataView>)
    decreases n,
{
    if n <= 0 {
        (ids, map)
    } else {
        let prev = listing_upto(accts, n - 1, ids, map);
        let a = accts[n - 1];
        if !prev.0.contains(a.id) {
            (prev.0.push(a.id), prev.1.insert(a.id, fresh_account(a)))
        } else {
            (prev.0, prev.1.insert(a.id, with_empty_wallet(prev.1[a.id], a.wallet_id)))
        }
    }
}

/// Every listed id has an entry in the map.
pub open spec fn ids_in_map(ids: Seq<AccountIdType>, map: Map<AccountIdType, AccountDataView>) -> bool {
    forall|k: int| 0 <= k < ids.len() ==> map.contains_key(#[trigger] ids[k])
}

proof fn lemma_listing_keeps_ids(
    accts: Seq<AccountDataFromDb>,
    n: int,
    ids: Seq<AccountIdType>,
    map: Map<AccountIdType, AccountDataView>,
)
    requires
        ids_in_map(ids, map),
    ensures
        ids_in_map(listing_upto(accts, n, ids, map).0, listing_upto(accts, n, ids, map).1),
        ids.is_prefix_of(listing_upto(accts, n, ids, map).0),
    decreases n,
{
    if n > 0 {
        lemma_listing_keeps_ids(accts, n - 1, ids, map);
        let prev = listing_upto(accts, n - 1, ids, map);
        let cur = listing_upto(accts, n, ids, map);
        assert forall|k: int| 0 <= k < cur.0.len() implies cur.1.contains_key(#[trigger] cur.0[k]) by {
            if k < prev.0.len() {
                assert(cur.0[k] == prev.0[k]);
                assert(prev.1.contains_key(prev.0[k]));
            }
        }
    }
}

fn contains_id(ids: &Vec<AccountIdType>, id: AccountIdType) -> (r: bool)
    ensures
        r == ids@.contains(id),
{
    let mut i: usize = 0;
    while i < ids.len()
        invariant
            0 <= i <= ids@.len(),
            forall|k: int| 0 <= k < i ==> ids@[k] != id,
        decreases ids@.len() - i,
    {
        if ids[i] == id {
            assert(ids@[i as int] == id);
            return true;
        }
        i = i + 1;
    }
    false
}

/// Takes in the listed accounts: appends each new account id to
/// `accounts_id`, gives it a fresh entry in `accounts_map`, and adds each
/// further wallet of a known account to its entry. `accounts_string`, empty
/// on entry, receives the new ids in decimal, separated by commas.
pub fn init_hash_and_string(
    accounts_from_db: &Vec<AccountDataFromDb>,
    accounts_id: &mut Vec<AccountIdType>,
    accounts_map: &mut HashMap<AccountIdType, AccountData>,
    accounts_string: &mut String,
)
    requires
        ids_in_map(old(accounts_id)@, accounts_view(old(accounts_map)@)),
        old(accounts_string)@.len() == 0,
    ensures
        ({
            let r = listing_upto(
                accounts_from_db@,
                accounts_from_db@.len() as int,
                old(accounts_id)@,
                accounts_view(old(accounts_map)@),
            );
            &&& final(accounts_id)@ == r.0
            &&& accounts_view(final(accounts_map)@) == r.1
            &&& final(accounts_string)@ == comma_list(r.0.skip(old(accounts_id)@.len() as int))
        }),
{
    let ghost accts = accounts_from_db@;
    let ghost ids0 = accounts_id@;
    let ghost map0 = accounts_view(accounts_map@);
    let start = accounts_id.len();
    let mut i: usize = 0;
    while i < accounts_from_db.len()
        invariant
            accts == accounts_from_db@,
            0 <= i <= accts.len(),
            ids_in_map(ids0, map0),
            ids0.is_prefix_of(accounts_id@),
            start == ids0.len(),
            listing_upto(accts, i as int, ids0, map0) == (
                accounts_id@,
                accounts_view(accounts_map@),
            ),
            accounts_string@ == comma_list(accounts_id@.skip(ids0.len() as int)),
        decreases accts.len() - i,
    {
        proof {
            lemma_listing_keeps_ids(accts, i as int, ids0, map0);
        }
        let account = &accounts_from_db[i];
        let ghost before_ids = accounts_id@;
        let ghost before_map = accounts_view(accounts_map@);
        if !contains_id(accounts_id, account.id) {
            let mut wallet_empty_map: HashMap<WalletIdType, (Wallet, Option<LastWalletStatement>)> =
                HashMap::new();
            wallet_empty_map.insert(account.wallet_id, (Wallet::new_empty(), None));
            accounts_map.insert(
                account.id,
                AccountData {
                    id: account.id,
                    last_account_statement: None,
                    wallets_data: wallet_empty_map,
                },
            );
            let listed_before = accounts_id.len() > start;
            accounts_id.push(account.id);
            if listed_before {
                proof {
                    reveal_strlit(",");
                }
                accounts_string.append(",");
            }
            push_decimal(accounts_string, account.id);
            proof {
                let new_ids = accounts_id@.skip(ids0.len() as int);
                assert(new_ids.drop_last() =~= before_ids.skip(ids0.len() as int));
                assert(accounts_view(accounts_map@) =~= before_map.insert(
                    account.id,
                    fresh_account(*account),
                ));
                if new_ids.len() == 1 {
                    assert(before_ids.skip(ids0.len() as int).len() == 0);
                }
                assert(accounts_string@ =~= comma_list(new_ids));
            }
        } else {
            let removed = accounts_map.remove(&account.id);
            proof {
                assert(before_ids.contains(account.id));
                let k = choose|k: int| 0 <= k < before_ids.len() && before_ids[k] == account.id;
                assert(before_map.contains_key(before_ids[k]));
            }
            match removed {
                Some(mut data) => {
                    data.wallets_data.insert(account.wallet_id, (Wallet::new_empty(), None));
                    accounts_map.insert(account.id, data);
                    proof {
                        assert(accounts_view(accounts_map@) =~= before_map.insert(
                            account.id,
                            with_empty_wallet(before_map[account.id], account.wallet_id),
                        ));
                    }
                },
                None => {},
            }
        }
        i = i + 1;
    }
}


/// The account map once the first `n` account statements are attached, each
/// to its account when the map holds it.
pub open spec fn statements_upto(
    stmts: Seq<LastAccountStatement>,
    n: int,
    map: Map<AccountIdType, AccountDataView>,
) -> Map<AccountIdType, AccountDataView>
    decreases n,
{
    if n <= 0 {
        map
    } else {
        let prev = statements_upto(stmts, n - 1, map);
        let st = stmts[n - 1];
        if prev.contains_key(st.accounts_id) {
            let v = prev[st.accounts_id];
            prev.insert(
                st.accounts_id,
                AccountDataView {
                    id: v.id,
                    last_account_statement: Some(st),
                    wallets_data: v.wallets_data,
                },
            )
        } else {
            prev
        }
    }
}

/// The wallet entry that a joined wallet row gives.
pub open spec fn wallet_entry(wd: WalletData) -> (Wallet, Option<LastWalletStatement>) {
    (
        Wallet {
            id: wd.wallets_id,
            currencies_id: wd.currencies_id,
            charge_priority: wd.charge_priority,
        },
        Some(
            LastWalletStatement {
                wallet_id: wd.wallets_id,
                balances_date: wd.balances_date,
                accounts_id: wd.accounts_id,
                balance: wd.balance,
                minimum_payment: wd.minimum_payment,
                created_at: wd.created_at,
                updated_at: wd.updated_at,
            },
        ),
    )
}

/// The account map once the first `n` wallet rows are applied, each to a
/// wallet that its account already lists.
pub open spec fn wallets_upto(
    rows: Seq<WalletData>,
    n: int,
    map: Map<AccountIdType, AccountDataView>,
) -> Map<AccountIdType, AccountDataView>
    decreases n,
{
    if n <= 0 {
        map
    } else {
        let prev = wallets_upto(rows, n - 1, map);
        let wd = rows[n - 1];
        if prev.contains_key(wd.accounts_id) && prev[wd.accounts_id].wallets_data.contains_key(
            wd.wallets_id,
        ) {
            let v = prev[wd.accounts_id];
            prev.insert(
                wd.accounts_id,
                AccountDataView {
                    id: v.id,
                    last_account_statement: v.last_account_statement,
                    wallets_data: v.wallets_data.insert(wd.wallets_id, wallet_entry(wd)),
                },
            )
        } else {
            prev
        }
    }
}

/// Attaches each account statement to its account, then fills each wallet
/// that an account lists with its data and last statement. Rows for accounts
/// or wallets not in the map are ignored.
pub fn fill_hash_map(
    accounts_statements: Vec<LastAccountStatement>,
    wallets_data: Vec<WalletData>,
    accounts_map: &mut HashMap<AccountIdType, AccountData>,
)
    ensures
        accounts_view(final(accounts_map)@) == wallets_upto(
            wallets_data@,
            wallets_data@.len() as int,
            statements_upto(
                accounts_statements@,
                accounts_statements@.len() as int,
                accounts_view(old(accounts_map)@),
            ),
        ),
{
    let ghost map0 = accounts_view(accounts_map@);
    let mut i: usize = 0;
    while i < accounts_statements.len()
        invariant
            0 <= i <= accounts_statements@.len(),
            accounts_view(accounts_map@) == statements_upto(accounts_statements@, i as int, map0),
        decreases accounts_statements@.len() - i,
    {
        let statement = accounts_statements[i];
        let ghost before = accounts_view(accounts_map@);
        match accounts_map.remove(&statement.accounts_id) {
            Some(mut data) => {
                data.last_account_statement = Some(statement);
                accounts_map.insert(statement.accounts_id, data);
                proof {
                    let v = before[statement.accounts_id];
                    assert(accounts_view(accounts_map@) =~= before.insert(
                        statement.accounts_id,
                        AccountDataView {
                            id: v.id,
                            last_account_statement: Some(statement),
                            wallets_data: v.wallets_data,
                        },
                    ));
                }
            },
            None => {
                assert(accounts_view(accounts_map@) =~= before);
            },
        }
        i = i + 1;
    }
    let ghost map1 = accounts_view(accounts_map@);
    let mut j: usize = 0;
    while j < wallets_data.len()
        invariant
            0 <= j <= wallets_data@.len(),
            accounts_view(accounts_map@) == wallets_upto(wallets_data@, j as int, map1),
        decreases wallets_data@.len() - j,
    {
        let row = wallets_data[j];
        let ghost before = accounts_view(accounts_map@);
        match accounts_map.remove(&row.accounts_id) {
            Some(mut data) => {
                let ghost data_before = data@;
                match data.wallets_data.remove(&row.wallets_id) {
                    Some(_) => {
                        let wallet = Wallet {
                            id: row.wallets_id,
                            currencies_id: row.currencies_id,
                            charge_priority: row.charge_priority,
                        };
                        let wallet_statement = LastWalletStatement {
                            wallet_id: row.wallets_id,
                            balances_date: row.balances_date,
                            accounts_id: row.accounts_id,
                            balance: row.balance,
                            minimum_payment: row.minimum_payment,
                            created_at: row.created_at,
                            updated_at: row.updated_at,
                        };
                        data.wallets_data.insert(row.wallets_id, (wallet, Some(wallet_statement)));
                        accounts_map.insert(row.accounts_id, data);
                        proof {
                            assert(data@.wallets_data =~= data_before.wallets_data.insert(
                                row.wallets_id,
                                wallet_entry(row),
                            ));
                            assert(accounts_view(accounts_map@) =~= before.insert(
                                row.accounts_id,
                                AccountDataView {
                                    id: data_before.id,
                                    last_account_statement: data_before.last_account_statement,
                                    wallets_data: data_before.wallets_data.insert(
                                        row.wallets_id,
                                        wallet_entry(row),
                                    ),
                                },
                            ));
                        }
                    },
                    None => {
                        accounts_map.insert(row.accounts_id, data);
                        proof {
                            assert(data@.wallets_data =~= data_before.wallets_data);
                            assert(accounts_view(accounts_map@) =~= before);
                        }
                    },
                }
            },
            None => {
                assert(accounts_view(accounts_map@) =~= before);
            },
        }
        j = j + 1;
    }
}

} // verus!
