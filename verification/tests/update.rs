use full_service::error::{DbFailure, WalletDbError};
use full_service::statement::{Outcome, Statement, Step};
use full_service::update::AccountUpdate;

fn run(update: (AccountUpdate, Statement)) -> (Vec<Statement>, Result<(), WalletDbError>) {
    let (mut update, mut statement) = update;
    let mut statements = Vec::new();
    loop {
        statements.push(statement.clone());
        match update.resume(Ok(Outcome::Executed)) {
            Step::Run(next) => statement = next,
            Step::Finished(result) => return (statements, result),
        }
    }
}

#[test]
fn rename_sets_the_name_in_a_transaction() {
    let (statements, result) = run(AccountUpdate::rename("a2", String::from("Alice's Secondary Account")));
    assert!(result.is_ok());
    assert_eq!(
        statements,
        vec![
            Statement::BeginTransaction,
            Statement::SetAccountName {
                account_id_hex: "a2".to_string(),
                name: "Alice's Secondary Account".to_string(),
            },
            Statement::CommitTransaction,
        ]
    );
}

#[test]
fn delete_removes_the_account_in_a_transaction() {
    let (statements, result) = run(AccountUpdate::delete("a2"));
    assert!(result.is_ok());
    assert_eq!(
        statements,
        vec![
            Statement::BeginTransaction,
            Statement::DeleteAccount { account_id_hex: "a2".to_string() },
            Statement::CommitTransaction,
        ]
    );
}

#[test]
fn update_stops_when_the_transaction_cannot_begin() {
    let (mut update, _) = AccountUpdate::delete("a2");
    let step = update.resume(Err(WalletDbError::Database(DbFailure::NotFound)));
    assert!(matches!(step, Step::Finished(Err(WalletDbError::Database(DbFailure::NotFound)))));
    assert!(update.is_closed());
}
