//! The rows of the wallet database that the account bookkeeping reads and
//! writes.

use vstd::prelude::*;
use crate::account_id::AccountID;

verus! {

/// A row of the `accounts` table.
#[derive(Debug, Clone, PartialEq, Eq)]
pub struct Account {
    pub id: i32,
    pub account_id_hex: String,
    pub encrypted_account_key: Vec<u8>,
    pub main_subaddress_index: i64,
    pub change_subaddress_index: i64,
    pub next_subaddress_index: i64,
    pub first_block: i64,
    pub next_block: i64,
    pub name: String,
}

/// The values of a row to insert into the `accounts` table; the database
/// assigns its `id`.
#[derive(Debug, Clone, PartialEq, Eq)]
pub struct NewAccount {
    pub account_id_hex: String,
    pub encrypted_account_key: Vec<u8>,
    pub main_subaddress_index: i64,
    pub change_subaddress_index: i64,
    pub next_subaddress_index: i64,
    pub first_block: i64,
    pub next_block: i64,
    pub name: String,
}

pub struct NewAccountView {
    pub account_id_hex: Seq<char>,
    pub encrypted_account_key: Seq<u8>,
    pub main_subaddress_index: int,
    pub change_subaddress_index: int,
    pub next_subaddress_index: int,
    pub first_block: int,
    pub next_block: int,
    pub name: Seq<char>,
}

impl View for NewAccount {
    type V = NewAccountView;

    open spec fn view(&self) -> NewAccountView {
        NewAccountView {
            account_id_hex: self.account_id_hex@,
            encrypted_account_key: self.encrypted_account_key@,
            main_subaddress_index: self.main_subaddress_index as int,
            change_subaddress_index: self.change_subaddress_index as int,
            next_subaddress_index: self.next_subaddress_index as int,
            first_block: self.first_block as int,
            next_block: self.next_block as int,
            name: self.name@,
        }
    }
}

/// A row of the `account_txo_statuses` table.
#[derive(Debug, Clone, PartialEq, Eq)]
pub struct AccountTxoStatus {
    pub account_id_hex: String,
    pub txo_id_hex: String,
    pub txo_status: String,
    pub txo_type: String,
}

/// The signed 64-bit column value that stores an unsigned 64-bit number:
/// the same bits, read in two's complement.
pub open spec fn stored_i64(value: u64) -> int {
    if value <= i64::MAX {
        value as int
    } else {
        value - 0x1_0000_0000_0000_0000
    }
}

/// The number a stored column value stands for: the inverse of `stored_i64`.
pub open spec fn loaded_u64(stored: i64) -> int {
    if stored >= 0 {
        stored as int
    } else {
        stored + 0x1_0000_0000_0000_0000
    }
}

/// Reading back a stored unsigned number gives the number that was stored.
pub proof fn lemma_stored_i64_round_trip(value: u64)
    ensures
        i64::MIN <= stored_i64(value) <= i64::MAX,
        loaded_u64(stored_i64(value) as i64) == value,
{
}

/// The column value for an unsigned number: its bits as `i64`.
fn to_stored(value: u64) -> (stored: i64)
    ensures
        stored == stored_i64(value),
{
    let stored = value as i64;
    assert(value <= 0x7fff_ffff_ffff_ffffu64 ==> stored as int == value as int) by (bit_vector)
        requires
            stored == value as i64,
    ;
    assert(value > 0x7fff_ffff_ffff_ffffu64 ==> stored as int == value as int - 0x1_0000_0000_0000_0000)
        by (bit_vector)
        requires
            stored == value as i64,
    ;
    stored
}

/// The row that records a new account: the account id as text, the
/// serialized account key, the name, and each index and block number stored
/// as the `i64` with the same bits.
pub open spec fn new_account_row(
    account_id_hex: Seq<char>,
    encrypted_account_key: Seq<u8>,
    main_subaddress_index: u64,
    change_subaddress_index: u64,
    next_subaddress_index: u64,
    first_block: u64,
    next_block: u64,
    name: Seq<char>,
) -> NewAccountView {
    NewAccountView {
        account_id_hex,
        encrypted_account_key,
        main_subaddress_index: stored_i64(main_subaddress_index),
        change_subaddress_index: stored_i64(change_subaddress_index),
        next_subaddress_index: stored_i64(next_subaddress_index),
        first_block: stored_i64(first_block),
        next_block: stored_i64(next_block),
        name,
    }
}

impl NewAccount {
    /// The row that records a new account, as `new_account_row` describes.
    pub fn new(
        account_id: &AccountID,
        encrypted_account_key: Vec<u8>,
        main_subaddress_index: u64,
        change_subaddress_index: u64,
        next_subaddress_index: u64,
        first_block: u64,
        next_block: u64,
        name: &str,
    ) -> (row: NewAccount)
        ensures
            row@ == new_account_row(
                account_id@,
                encrypted_account_key@,
                main_subaddress_index,
                change_subaddress_index,
                next_subaddress_index,
                first_block,
                next_block,
                name@,
            ),
    {
        NewAccount {
            account_id_hex: account_id.to_string(),
            encrypted_account_key,
            main_subaddress_index: to_stored(main_subaddress_index),
            change_subaddress_index: to_stored(change_subaddress_index),
            next_subaddress_index: to_stored(next_subaddress_index),
            first_block: to_stored(first_block),
            next_block: to_stored(next_block),
            name: String::from_str(name),
        }
    }
}

} // verus!
