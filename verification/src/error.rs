//! Errors of the account bookkeeping.

use vstd::prelude::*;

verus! {

/// A query error of the database layer, carried through unchanged.
#[verifier::external_type_specification]
#[verifier::external_body]
pub struct ExQueryError(diesel::result::Error);

/// How a single database statement failed.
#[derive(Debug)]
pub enum DbFailure {
    /// A query that had to return a row returned none.
    NotFound,
    /// Any other failure of the database layer.
    Query(diesel::result::Error),
}

/// The errors the account bookkeeping reports.
#[derive(Debug)]
pub enum WalletDbError {
    /// A statement failed in the database layer.
    Database(DbFailure),
    /// No account has the given account id.
    AccountNotFound(String),
    /// No account txo status names the given txo id.
    TxoNotFound(String),
    /// More than one account txo status names the same txo id.
    MultipleStatusesForTxo,
    /// Several txos carry the same key image.
    DuplicateEntries(String),
}

/// `WalletDbError` with its texts taken as character sequences.
pub enum WalletDbErrorView {
    Database(DbFailure),
    AccountNotFound(Seq<char>),
    TxoNotFound(Seq<char>),
    MultipleStatusesForTxo,
    DuplicateEntries(Seq<char>),
}

impl View for WalletDbError {
    type V = WalletDbErrorView;

    open spec fn view(&self) -> WalletDbErrorView {
        match self {
            WalletDbError::Database(f) => WalletDbErrorView::Database(*f),
            WalletDbError::AccountNotFound(s) => WalletDbErrorView::AccountNotFound(s@),
            WalletDbError::TxoNotFound(s) => WalletDbErrorView::TxoNotFound(s@),
            WalletDbError::MultipleStatusesForTxo => WalletDbErrorView::MultipleStatusesForTxo,
            WalletDbError::DuplicateEntries(s) => WalletDbErrorView::DuplicateEntries(s@),
        }
    }
}

} // verus!
