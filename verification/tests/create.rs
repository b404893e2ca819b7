use full_service::account_id::AccountID;
use full_service::create::AccountCreation;
use full_service::error::{DbFailure, WalletDbError};
use full_service::models::NewAccount;
use full_service::statement::{Outcome, Statement, Step};

#[test]
fn creation_inserts_assigns_both_subaddresses_and_commits() {
    let id = AccountID(String::from("feed"));
    let (mut creation, first) =
        AccountCreation::new(id, vec![9, 9], 0, 1, 2, 50, 51, "Alice's Secondary Account");
    assert_eq!(first, Statement::BeginTransaction);
    let expected_row = NewAccount::new(
        &AccountID(String::from("feed")),
        vec![9, 9],
        0,
        1,
        2,
        50,
        51,
        "Alice's Secondary Account",
    );
    match creation.resume(Ok(Outcome::Executed)) {
        Step::Run(Statement::InsertAccount(row)) => assert_eq!(row, expected_row),
        other => panic!("unexpected {:?}", other),
    }
    match creation.resume(Ok(Outcome::Executed)) {
        Step::Run(s) => assert_eq!(
            s,
            Statement::CreateAssignedSubaddress { subaddress_index: 0, comment: "Main".to_string() }
        ),
        other => panic!("unexpected {:?}", other),
    }
    assert!(creation.expects_address());
    match creation.resume(Ok(Outcome::Address(String::from("main-b58")))) {
        Step::Run(s) => assert_eq!(
            s,
            Statement::CreateAssignedSubaddress { subaddress_index: 1, comment: "Change".to_string() }
        ),
        other => panic!("unexpected {:?}", other),
    }
    match creation.resume(Ok(Outcome::Address(String::from("change-b58")))) {
        Step::Run(s) => assert_eq!(s, Statement::CommitTransaction),
        other => panic!("unexpected {:?}", other),
    }
    match creation.resume(Ok(Outcome::Executed)) {
        Step::Finished(Ok((account_id, address))) => {
            assert_eq!(account_id.0, "feed");
            assert_eq!(address, "main-b58");
        }
        other => panic!("unexpected {:?}", other),
    }
    assert!(creation.is_closed());
}

#[test]
fn creation_stops_when_the_insert_fails() {
    let id = AccountID(String::from("feed"));
    let (mut creation, _) = AccountCreation::new(id, vec![], 0, 1, 2, 0, 1, "");
    assert!(matches!(creation.resume(Ok(Outcome::Executed)), Step::Run(Statement::InsertAccount(_))));
    let failure = WalletDbError::Database(DbFailure::Query(diesel::result::Error::NotFound));
    assert!(matches!(
        creation.resume(Err(failure)),
        Step::Finished(Err(WalletDbError::Database(DbFailure::Query(_))))
    ));
    assert!(creation.is_closed());
}
