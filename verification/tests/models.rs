use full_service::account_id::AccountID;
use full_service::models::NewAccount;

#[test]
fn new_account_row_keeps_small_numbers() {
    let id = AccountID(String::from("abcd"));
    let row = NewAccount::new(&id, vec![1, 2, 3], 0, 1, 2, 0, 1, "Alice's Main Account");
    assert_eq!(row.account_id_hex, "abcd");
    assert_eq!(row.encrypted_account_key, vec![1, 2, 3]);
    assert_eq!(row.main_subaddress_index, 0);
    assert_eq!(row.change_subaddress_index, 1);
    assert_eq!(row.next_subaddress_index, 2);
    assert_eq!(row.first_block, 0);
    assert_eq!(row.next_block, 1);
    assert_eq!(row.name, "Alice's Main Account");
}

#[test]
fn new_account_row_stores_large_numbers_by_their_bits() {
    let id = AccountID(String::from("ff"));
    let row = NewAccount::new(&id, vec![], u64::MAX, 1u64 << 63, i64::MAX as u64, 50, 51, "");
    assert_eq!(row.main_subaddress_index, -1);
    assert_eq!(row.change_subaddress_index, i64::MIN);
    assert_eq!(row.next_subaddress_index, i64::MAX);
    assert_eq!(row.first_block, 50);
    assert_eq!(row.next_block, 51);
    assert_eq!(row.main_subaddress_index as u64, u64::MAX);
    assert_eq!(row.name, "");
}
