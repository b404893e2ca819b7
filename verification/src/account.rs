//! What the account lookups answer, given what the database returned.

use vstd::prelude::*;
use crate::account_id::AccountID;
use crate::error::{DbFailure, WalletDbError};
use crate::models::{Account, AccountTxoStatus};

verus! {

/// The answer to a lookup of the account with id `account_id`, given the row
/// the database returned for it: the row itself; `AccountNotFound` with the
/// id's text when there is none; any other failure unchanged.
pub open spec fn get_answers(
    account_id: Seq<char>,
    found: Result<Account, DbFailure>,
    result: Result<Account, WalletDbError>,
) -> bool {
    match found {
        Ok(account) => result == Ok::<Account, WalletDbError>(account),
        Err(DbFailure::NotFound) => result matches Err(WalletDbError::AccountNotFound(text))
            && text@ == account_id,
        Err(DbFailure::Query(e)) => result == Err::<Account, WalletDbError>(
            WalletDbError::Database(DbFailure::Query(e)),
        ),
    }
}

/// The answer to a lookup of the account `account_id`, as `get_answers`
/// describes.
pub fn get_result(account_id: &AccountID, found: Result<Account, DbFailure>) -> (result: Result<
    Account,
    WalletDbError,
>)
    ensures
        get_answers(account_id@, found, result),
{
    match found {
        Ok(account) => Ok(account),
        Err(DbFailure::NotFound) => Err(WalletDbError::AccountNotFound(account_id.to_string())),
        Err(e) => Err(WalletDbError::Database(e)),
    }
}

/// The account that owns the txo `txo_id_hex`, given the account txo statuses
/// the database returned for it: the account of the one status; 
/// `MultipleStatusesForTxo` when there are several; `TxoNotFound` with the txo
/// id when the database reports none; any other failure unchanged.
pub fn owner_of_txo(txo_id_hex: &str, statuses: Result<Vec<AccountTxoStatus>, DbFailure>) -> (result:
    Result<AccountID, WalletDbError>)
    requires
        statuses matches Ok(rows) ==> rows.len() >= 1,
    ensures
        (match statuses {
            Ok(rows) => if rows.len() > 1 {
                result matches Err(WalletDbError::MultipleStatusesForTxo)
            } else {
                result matches Ok(id) && id.0@ == rows[0].account_id_hex@
            },
            Err(DbFailure::NotFound) => result matches Err(WalletDbError::TxoNotFound(text))
                && text@ == txo_id_hex@,
            Err(DbFailure::Query(e)) => result == Err::<AccountID, WalletDbError>(
                WalletDbError::Database(DbFailure::Query(e)),
            ),
        }),
{
    match statuses {
        Ok(rows) => {
            if rows.len() > 1 {
                Err(WalletDbError::MultipleStatusesForTxo)
            } else {
                Ok(AccountID(rows[0].account_id_hex.clone()))
            }
        },
        Err(DbFailure::NotFound) => Err(WalletDbError::TxoNotFound(String::from_str(txo_id_hex))),
        Err(e) => Err(WalletDbError::Database(e)),
    }
}

} // verus!
