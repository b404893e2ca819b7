use full_service::account::{get_result, owner_of_txo};
use full_service::account_id::AccountID;
use full_service::error::{DbFailure, WalletDbError};
use full_service::models::{Account, AccountTxoStatus};

fn sample_account() -> Account {
    Account {
        id: 1,
        account_id_hex: String::from("a1"),
        encrypted_account_key: vec![7, 7],
        main_subaddress_index: 0,
        change_subaddress_index: 1,
        next_subaddress_index: 2,
        first_block: 0,
        next_block: 1,
        name: String::from("Alice's Main Account"),
    }
}

fn status(account: &str, txo: &str) -> AccountTxoStatus {
    AccountTxoStatus {
        account_id_hex: String::from(account),
        txo_id_hex: String::from(txo),
        txo_status: String::from("unspent"),
        txo_type: String::from("received"),
    }
}

#[test]
fn get_returns_the_found_account() {
    let id = AccountID(String::from("a1"));
    let result = get_result(&id, Ok(sample_account()));
    assert_eq!(result.unwrap(), sample_account());
}

#[test]
fn get_of_missing_account_names_the_id() {
    let id = AccountID(String::from("deadbeef"));
    match get_result(&id, Err(DbFailure::NotFound)) {
        Err(WalletDbError::AccountNotFound(s)) => assert_eq!(s, "deadbeef"),
        other => panic!("unexpected {:?}", other),
    }
}

#[test]
fn get_passes_other_failures_on() {
    let id = AccountID(String::from("a1"));
    let failure = DbFailure::Query(diesel::result::Error::AlreadyInTransaction);
    match get_result(&id, Err(failure)) {
        Err(WalletDbError::Database(DbFailure::Query(diesel::result::Error::AlreadyInTransaction))) => {}
        other => panic!("unexpected {:?}", other),
    }
}

#[test]
fn txo_owner_is_the_account_of_its_status() {
    let owner = owner_of_txo("t1", Ok(vec![status("a1", "t1")])).unwrap();
    assert_eq!(owner.0, "a1");
}

#[test]
fn txo_with_several_statuses_is_refused() {
    let result = owner_of_txo("t1", Ok(vec![status("a1", "t1"), status("a2", "t1")]));
    assert!(matches!(result, Err(WalletDbError::MultipleStatusesForTxo)));
}

#[test]
fn missing_txo_names_the_txo() {
    match owner_of_txo("t9", Err(DbFailure::NotFound)) {
        Err(WalletDbError::TxoNotFound(s)) => assert_eq!(s, "t9"),
        other => panic!("unexpected {:?}", other),
    }
}

#[test]
fn txo_lookup_passes_other_failures_on() {
    let failure = DbFailure::Query(diesel::result::Error::RollbackTransaction);
    let result = owner_of_txo("t1", Err(failure));
    assert!(matches!(
        result,
        Err(WalletDbError::Database(DbFailure::Query(diesel::result::Error::RollbackTransaction)))
    ));
}
