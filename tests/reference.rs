use std::collections::HashMap;
use wallet_interest::accounts::{
    fill_hash_map, init_hash_and_string, AccountData, LastAccountStatement, LastWalletStatement, WalletData,
    EPOCH_DAY,
};
use wallet_interest::amount::Amount;
use wallet_interest::codes::{ResponseCodes, SystemErrorCodes};
use wallet_interest::ledger::{
    expect_sql_field, is_reported_currency, transaction_code_listings, AccountDataFromDb, Currencies,
    TransactionCodes, Wallet,
};

#[test]
fn response_codes_read_back() {
    assert_eq!(ResponseCodes::from_code(51), Some(ResponseCodes::InsufficientFunds));
    assert_eq!(ResponseCodes::from_code(0), Some(ResponseCodes::Approved));
    assert_eq!(ResponseCodes::from_code(96), Some(ResponseCodes::SystemError));
    assert_eq!(ResponseCodes::from_code(2), None);
    assert_eq!(ResponseCodes::from_code(87), None);
    assert_eq!(ResponseCodes::StolenCard.code(), 43);
    assert_eq!(ResponseCodes::default(), ResponseCodes::SystemError);
}

#[test]
fn system_error_codes() {
    assert_eq!(SystemErrorCodes::DbQuery(36).code(), 2136);
    assert_eq!(SystemErrorCodes::Unknown.code(), 1000);
    assert_eq!(SystemErrorCodes::NoCollectingBalances.code(), 7300);
    assert_eq!(SystemErrorCodes::from_u16(2136), Some(SystemErrorCodes::DbQuery(36)));
    assert_eq!(SystemErrorCodes::from_u16(1050), Some(SystemErrorCodes::Unknown));
    assert_eq!(SystemErrorCodes::from_u16(1599), None);
    assert_eq!(SystemErrorCodes::from_u16(9999), None);
    assert_eq!(SystemErrorCodes::TcpConn.as_response_code(), ResponseCodes::SystemError);
}

#[test]
fn sql_field_message() {
    assert_eq!(expect_sql_field("ID", "currencies"), "Expected field ID AT currencies");
}

#[test]
fn wallet_constructors() {
    let w = Wallet::ghost_with_id(4, 840);
    assert_eq!((w.id, w.currencies_id, w.charge_priority), (4, 840, 0));
    assert_eq!(Wallet::new_empty(), Wallet { id: 0, currencies_id: 0, charge_priority: 0 });
}

#[test]
fn reference_report_filters() {
    let c = |id| Currencies { id, iso_3: "USD".to_string(), name: "Dollar".to_string() };
    assert!(is_reported_currency(&c(840)));
    assert!(is_reported_currency(&c(32)));
    assert!(!is_reported_currency(&c(858)));
    let t = |id, cat| TransactionCodes { id, transaction_categories_id: cat, name: String::new(), description: String::new() };
    assert_eq!(transaction_code_listings(&t(1001, 4)), 2);
    assert_eq!(transaction_code_listings(&t(10, 4)), 1);
    assert_eq!(transaction_code_listings(&t(10, 0)), 0);
}

#[test]
fn empty_last_statements() {
    let w = LastWalletStatement::new_empty();
    assert_eq!(w.balances_date, EPOCH_DAY);
    assert_eq!(w.get_statement_day(), 0);
    let a = LastAccountStatement::new_empty();
    assert_eq!(a.get_balances_date(), 738_156);
    assert_eq!(a.balance, Amount::zero());
}

fn listing() -> (Vec<u32>, HashMap<u32, AccountData>, String) {
    let accounts = vec![
        AccountDataFromDb { id: 2, wallet_id: 1 },
        AccountDataFromDb { id: 2, wallet_id: 2 },
        AccountDataFromDb { id: 3, wallet_id: 3 },
    ];
    let mut ids = Vec::new();
    let mut map = HashMap::new();
    let mut list = String::new();
    init_hash_and_string(&accounts, &mut ids, &mut map, &mut list);
    (ids, map, list)
}

#[test]
fn accounts_listing_groups_wallets() {
    let (ids, map, list) = listing();
    assert_eq!(ids, vec![2, 3]);
    assert_eq!(list, "2,3");
    assert_eq!(map.len(), 2);
    let two = &map[&2];
    assert_eq!(two.wallets_data.len(), 2);
    assert!(two.last_account_statement.is_none());
    assert_eq!(two.wallets_data[&1], (Wallet::new_empty(), None));
    assert_eq!(map[&3].wallets_data.len(), 1);
}

#[test]
fn accounts_listing_with_large_id() {
    let accounts = vec![AccountDataFromDb { id: 4_000_000_000, wallet_id: 9 }, AccountDataFromDb { id: 10, wallet_id: 1 }];
    let mut ids = Vec::new();
    let mut map = HashMap::new();
    let mut list = String::new();
    init_hash_and_string(&accounts, &mut ids, &mut map, &mut list);
    assert_eq!(list, "4000000000,10");
}

#[test]
fn last_statements_fill_the_map() {
    let (_, mut map, _) = listing();
    let acc = LastAccountStatement {
        accounts_id: 2,
        balances_date: 738_900,
        wallets_id: 1,
        balance: Amount::zero(),
        created_at: 5,
        updated_at: 6,
    };
    let stray = LastAccountStatement { accounts_id: 9, ..acc };
    let row = WalletData {
        wallets_id: 2,
        currencies_id: 858,
        charge_priority: 3,
        balances_date: 738_900,
        accounts_id: 2,
        balance: Amount::zero(),
        minimum_payment: Amount::zero(),
        created_at: 7,
        updated_at: 8,
    };
    let unknown_wallet = WalletData { wallets_id: 77, ..row };
    fill_hash_map(vec![acc, stray], vec![row, unknown_wallet], &mut map);
    assert_eq!(map.len(), 2);
    assert_eq!(map[&2].last_account_statement, Some(acc));
    assert!(map[&3].last_account_statement.is_none());
    let (wallet, statement) = map[&2].wallets_data[&2];
    assert_eq!(wallet, Wallet { id: 2, currencies_id: 858, charge_priority: 3 });
    assert_eq!(statement.unwrap().created_at, 7);
    assert_eq!(map[&2].wallets_data.len(), 2);
    assert_eq!(map[&2].wallets_data[&1], (Wallet::new_empty(), None));
}
