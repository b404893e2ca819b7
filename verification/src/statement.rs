//! The statements the account bookkeeping hands out to whoever holds the
//! database connection, and the outcomes it is handed back.

use vstd::prelude::*;
use crate::error::{WalletDbError, WalletDbErrorView};
use crate::models::{NewAccount, NewAccountView};

verus! {

/// A statement against the wallet database.
#[derive(Debug, Clone, PartialEq, Eq)]
pub enum Statement {
    BeginTransaction,
    CommitTransaction,
    /// Insert this row into the `accounts` table.
    InsertAccount(NewAccount),
    /// Assign the account's subaddress at `subaddress_index`, with `comment`.
    CreateAssignedSubaddress { subaddress_index: u64, comment: String },
    /// Load the txos whose key image is `key_image`.
    FindTxosByKeyImage { key_image: Vec<u8> },
    /// Set the spent block height of the txo `txo_id_hex`.
    MarkTxoSpent { txo_id_hex: String, spent_block_height: i64 },
    /// Set the status of the txo `txo_id_hex` for the account `account_id_hex`.
    SetTxoStatus { account_id_hex: String, txo_id_hex: String, txo_status: String },
    /// Bring the transactions that involve the txo `txo_id_hex` up to date.
    UpdateTransactionsForTxo { txo_id_hex: String, spent_block_height: i64 },
    /// Set the next block to scan for the account `account_id_hex`.
    SetNextBlock { account_id_hex: String, next_block: i64 },
    /// Set the name of the account `account_id_hex`.
    SetAccountName { account_id_hex: String, name: String },
    /// Delete the account `account_id_hex`.
    DeleteAccount { account_id_hex: String },
}

pub enum StatementView {
    BeginTransaction,
    CommitTransaction,
    InsertAccount(NewAccountView),
    CreateAssignedSubaddress(u64, Seq<char>),
    FindTxosByKeyImage(Seq<u8>),
    MarkTxoSpent(Seq<char>, int),
    SetTxoStatus(Seq<char>, Seq<char>, Seq<char>),
    UpdateTransactionsForTxo(Seq<char>, int),
    SetNextBlock(Seq<char>, int),
    SetAccountName(Seq<char>, Seq<char>),
    DeleteAccount(Seq<char>),
}

impl View for Statement {
    type V = StatementView;

    open spec fn view(&self) -> StatementView {
        match self {
            Statement::BeginTransaction => StatementView::BeginTransaction,
            Statement::CommitTransaction => StatementView::CommitTransaction,
            Statement::InsertAccount(row) => StatementView::InsertAccount(row@),
            Statement::CreateAssignedSubaddress { subaddress_index, comment } =>
                StatementView::CreateAssignedSubaddress(*subaddress_index, comment@),
            Statement::FindTxosByKeyImage { key_image } => StatementView::FindTxosByKeyImage(
                key_image@,
            ),
            Statement::MarkTxoSpent { txo_id_hex, spent_block_height } =>
                StatementView::MarkTxoSpent(txo_id_hex@, *spent_block_height as int),
            Statement::SetTxoStatus { account_id_hex, txo_id_hex, txo_status } =>
                StatementView::SetTxoStatus(account_id_hex@, txo_id_hex@, txo_status@),
            Statement::UpdateTransactionsForTxo { txo_id_hex, spent_block_height } =>
                StatementView::UpdateTransactionsForTxo(txo_id_hex@, *spent_block_height as int),
            Statement::SetNextBlock { account_id_hex, next_block } => StatementView::SetNextBlock(
                account_id_hex@,
                *next_block as int,
            ),
            Statement::SetAccountName { account_id_hex, name } => StatementView::SetAccountName(
                account_id_hex@,
                name@,
            ),
            Statement::DeleteAccount { account_id_hex } => StatementView::DeleteAccount(
                account_id_hex@,
            ),
        }
    }
}

/// The outcome of a statement that succeeded.
#[derive(Debug)]
pub enum Outcome {
    /// A statement that returns nothing was carried out.
    Executed,
    /// A search returned the txos with these ids.
    Matches(Vec<String>),
    /// A subaddress was assigned; this is its public address.
    Address(String),
}

pub enum OutcomeView {
    Executed,
    Matches(Seq<Seq<char>>),
    Address(Seq<char>),
}

pub open spec fn outcome_view(outcome: Result<Outcome, WalletDbError>) -> Result<
    OutcomeView,
    WalletDbErrorView,
> {
    match outcome {
        Ok(Outcome::Executed) => Ok(OutcomeView::Executed),
        Ok(Outcome::Matches(ids)) => Ok(OutcomeView::Matches(ids@.map_values(|id: String| id@))),
        Ok(Outcome::Address(a)) => Ok(OutcomeView::Address(a@)),
        Err(e) => Err(e@),
    }
}

/// What an operation asks for next.
#[derive(Debug)]
pub enum Step<T> {
    /// Run this statement and resume with its outcome.
    Run(Statement),
    /// The operation is over, with this result.
    Finished(Result<T, WalletDbError>),
}

pub enum StepView<V> {
    Run(StatementView),
    Finished(Result<V, WalletDbErrorView>),
}

impl<T: View> View for Step<T> {
    type V = StepView<T::V>;

    open spec fn view(&self) -> StepView<T::V> {
        match self {
            Step::Run(s) => StepView::Run(s@),
            Step::Finished(Ok(v)) => StepView::Finished(Ok(v@)),
            Step::Finished(Err(e)) => StepView::Finished(Err(e@)),
        }
    }
}

/// The statement of a step that runs one.
pub open spec fn run_statement<V>(step: StepView<V>) -> StatementView {
    match step {
        StepView::Run(st) => st,
        _ => StatementView::BeginTransaction,
    }
}

} // verus!
