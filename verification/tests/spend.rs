use full_service::error::{DbFailure, WalletDbError};
use full_service::spend::{KeyImageRef, SpendScan};
use full_service::statement::{Outcome, Statement, Step};

fn key(byte: u8) -> KeyImageRef {
    KeyImageRef { serialized: vec![byte; 4], debug_text: format!("KeyImage({})", byte) }
}

/// Runs a scan against a database in which every statement succeeds and the
/// search for a key image returns the txos `matches` lists for its first byte.
fn run(
    scan_and_first: (SpendScan, Statement),
    matches: &dyn Fn(&[u8]) -> Vec<String>,
) -> (Vec<Statement>, Result<(), WalletDbError>) {
    let (mut scan, mut statement) = scan_and_first;
    let mut statements = Vec::new();
    loop {
        statements.push(statement.clone());
        let outcome = match &statement {
            Statement::FindTxosByKeyImage { key_image } => Outcome::Matches(matches(key_image)),
            _ => Outcome::Executed,
        };
        match scan.resume(Ok(outcome)) {
            Step::Run(next) => statement = next,
            Step::Finished(result) => return (statements, result),
        }
    }
}

#[test]
fn spend_marks_single_matches_and_skips_unknown_key_images() {
    let scan = SpendScan::new("acct", 100, vec![key(0), key(1), key(2)]);
    let (statements, result) = run(scan, &|k: &[u8]| match k[0] {
        1 => vec![String::from("t1")],
        2 => vec![String::from("t2")],
        _ => vec![],
    });
    assert!(result.is_ok());
    let mut expected = vec![
        Statement::BeginTransaction,
        Statement::FindTxosByKeyImage { key_image: vec![0; 4] },
        Statement::FindTxosByKeyImage { key_image: vec![1; 4] },
    ];
    for t in ["t1", "t2"] {
        expected.push(Statement::MarkTxoSpent { txo_id_hex: t.to_string(), spent_block_height: 100 });
        expected.push(Statement::SetTxoStatus {
            account_id_hex: "acct".to_string(),
            txo_id_hex: t.to_string(),
            txo_status: "spent".to_string(),
        });
        expected.push(Statement::UpdateTransactionsForTxo {
            txo_id_hex: t.to_string(),
            spent_block_height: 100,
        });
        if t == "t1" {
            expected.push(Statement::FindTxosByKeyImage { key_image: vec![2; 4] });
        }
    }
    expected.push(Statement::SetNextBlock { account_id_hex: "acct".to_string(), next_block: 101 });
    expected.push(Statement::CommitTransaction);
    assert_eq!(statements, expected);
}

#[test]
fn spend_without_key_images_only_advances_next_block() {
    let scan = SpendScan::new("acct", 7, vec![]);
    let (statements, result) = run(scan, &|_k: &[u8]| vec![]);
    assert!(result.is_ok());
    assert_eq!(
        statements,
        vec![
            Statement::BeginTransaction,
            Statement::SetNextBlock { account_id_hex: "acct".to_string(), next_block: 8 },
            Statement::CommitTransaction,
        ]
    );
}

#[test]
fn spend_stops_at_a_key_image_with_several_txos() {
    let scan = SpendScan::new("acct", 5, vec![key(3), key(4)]);
    let (statements, result) = run(scan, &|k: &[u8]| {
        if k[0] == 3 {
            vec![String::from("x"), String::from("y")]
        } else {
            vec![String::from("z")]
        }
    });
    assert_eq!(
        statements,
        vec![Statement::BeginTransaction, Statement::FindTxosByKeyImage { key_image: vec![3; 4] }]
    );
    match result {
        Err(WalletDbError::DuplicateEntries(text)) => assert_eq!(text, "Key Image: KeyImage(3)"),
        other => panic!("unexpected {:?}", other),
    }
}

#[test]
fn spend_ends_on_a_failed_statement() {
    let (mut scan, first) = SpendScan::new("acct", 5, vec![key(1)]);
    assert_eq!(first, Statement::BeginTransaction);
    assert!(!scan.expects_matches());
    let step = scan.resume(Ok(Outcome::Executed));
    assert!(matches!(step, Step::Run(Statement::FindTxosByKeyImage { .. })));
    assert!(scan.expects_matches());
    let step = scan.resume(Ok(Outcome::Matches(vec![String::from("t")])));
    assert!(matches!(step, Step::Run(Statement::MarkTxoSpent { .. })));
    let step = scan.resume(Err(WalletDbError::Database(DbFailure::NotFound)));
    assert!(matches!(step, Step::Finished(Err(WalletDbError::Database(DbFailure::NotFound)))));
    assert!(scan.is_closed());
}

#[test]
fn spend_without_an_unmatched_key_image_writes_the_same() {
    let answers = |k: &[u8]| if k[0] == 1 { vec![String::from("t1")] } else { vec![] };
    let (with, r1) = run(SpendScan::new("acct", 9, vec![key(0), key(1)]), &answers);
    let (without, r2) = run(SpendScan::new("acct", 9, vec![key(1)]), &answers);
    assert!(r1.is_ok() && r2.is_ok());
    let writes = |sts: Vec<Statement>| {
        sts.into_iter()
            .filter(|s| !matches!(s, Statement::FindTxosByKeyImage { .. }))
            .collect::<Vec<_>>()
    };
    assert_eq!(writes(with), writes(without));
}
