//! Creating an account: the row inserted, the subaddresses assigned, and the
//! answer, in the order the database sees them.
//!
//! Like `SpendScan`, an `AccountCreation` hands out one `Statement` at a time
//! and is resumed with its outcome.

use vstd::prelude::*;
use crate::account_id::AccountID;
use crate::error::{WalletDbError, WalletDbErrorView};
use crate::models::{new_account_row, NewAccount, NewAccountView};
use crate::statement::{outcome_view, Outcome, OutcomeView, Statement, StatementView, Step, StepView};

verus! {

/// Which statement the creation waits for.
enum CreationStage {
    Opening(NewAccount),
    Inserting,
    AssigningMain,
    AssigningChange(String),
    Committing(String),
    Closed,
}

pub enum CreationPhase {
    /// Waiting for the transaction to begin; this row is to be inserted.
    Opening(NewAccountView),
    /// Waiting for the row to be inserted.
    Inserting,
    /// Waiting for the main subaddress to be assigned.
    AssigningMain,
    /// Waiting for the change subaddress; the main one has this address.
    AssigningChange(Seq<char>),
    /// Waiting for the commit; the main subaddress has this address.
    Committing(Seq<char>),
    /// The creation is over.
    Closed,
}

impl View for CreationStage {
    type V = CreationPhase;

    closed spec fn view(&self) -> CreationPhase {
        match self {
            CreationStage::Opening(row) => CreationPhase::Opening(row@),
            CreationStage::Inserting => CreationPhase::Inserting,
            CreationStage::AssigningMain => CreationPhase::AssigningMain,
            CreationStage::AssigningChange(a) => CreationPhase::AssigningChange(a@),
            CreationStage::Committing(a) => CreationPhase::Committing(a@),
            CreationStage::Closed => CreationPhase::Closed,
        }
    }
}

/// The creation of one account.
pub struct AccountCreation {
    account_id: AccountID,
    main_subaddress_index: u64,
    change_subaddress_index: u64,
    stage: CreationStage,
}

pub struct AccountCreationView {
    pub account_id: Seq<char>,
    pub main_subaddress_index: u64,
    pub change_subaddress_index: u64,
    pub phase: CreationPhase,
}

impl View for AccountCreation {
    type V = AccountCreationView;

    closed spec fn view(&self) -> AccountCreationView {
        AccountCreationView {
            account_id: self.account_id@,
            main_subaddress_index: self.main_subaddress_index,
            change_subaddress_index: self.change_subaddress_index,
            phase: self.stage@,
        }
    }
}

/// The comment of the main subaddress.
pub open spec fn main_comment() -> Seq<char> {
    "Main"@
}

/// The comment of the change subaddress.
pub open spec fn change_comment() -> Seq<char> {
    "Change"@
}

pub open spec fn with_creation_phase(s: AccountCreationView, p: CreationPhase) -> AccountCreationView {
    AccountCreationView { phase: p, ..s }
}

/// The next phase and step of a creation that receives `outcome`. A failed
/// statement ends it with its error. Otherwise the account row is inserted,
/// the main and then the change subaddress are assigned, the transaction
/// commits, and the creation answers the account id with the main
/// subaddress's address.
pub open spec fn create_next(s: AccountCreationView, outcome: Result<OutcomeView, WalletDbErrorView>) -> (
    CreationPhase,
    StepView<(Seq<char>, Seq<char>)>,
) {
    match outcome {
        Err(e) => (CreationPhase::Closed, StepView::Finished(Err(e))),
        Ok(o) => match s.phase {
            CreationPhase::Opening(row) => (
                CreationPhase::Inserting,
                StepView::Run(StatementView::InsertAccount(row)),
            ),
            CreationPhase::Inserting => (
                CreationPhase::AssigningMain,
                StepView::Run(
                    StatementView::CreateAssignedSubaddress(s.main_subaddress_index, main_comment()),
                ),
            ),
            CreationPhase::AssigningMain => match o {
                OutcomeView::Address(main) => (
                    CreationPhase::AssigningChange(main),
                    StepView::Run(
                        StatementView::CreateAssignedSubaddress(
                            s.change_subaddress_index,
                            change_comment(),
                        ),
                    ),
                ),
                _ => (CreationPhase::Closed, StepView::Finished(Ok((s.account_id, Seq::empty())))),
            },
            CreationPhase::AssigningChange(main) => (
                CreationPhase::Committing(main),
                StepView::Run(StatementView::CommitTransaction),
            ),
            CreationPhase::Committing(main) => (
                CreationPhase::Closed,
                StepView::Finished(Ok((s.account_id, main))),
            ),
            CreationPhase::Closed => (
                CreationPhase::Closed,
                StepView::Finished(Ok((s.account_id, Seq::empty()))),
            ),
        },
    }
}

/// Whether an outcome fits the statement the creation waits for: an address
/// answers the assignment of a subaddress, and only that; the creation
/// searches for nothing.
pub open spec fn creation_fits(phase: CreationPhase, outcome: Result<OutcomeView, WalletDbErrorView>) -> bool {
    outcome matches Ok(o) ==> !(o is Matches) && (o is Address <==> (phase is AssigningMain
        || phase is AssigningChange))
}

impl AccountCreation {
    /// The creation of the account `account_id`, whose row is the one
    /// `new_account_row` describes; its first statement begins a transaction.
    pub fn new(
        account_id: AccountID,
        encrypted_account_key: Vec<u8>,
        main_subaddress_index: u64,
        change_subaddress_index: u64,
        next_subaddress_index: u64,
        first_block: u64,
        next_block: u64,
        name: &str,
    ) -> (res: (AccountCreation, Statement))
        ensures
            res.0@.account_id == account_id@,
            res.0@.main_subaddress_index == main_subaddress_index,
            res.0@.change_subaddress_index == change_subaddress_index,
            res.0@.phase == CreationPhase::Opening(
                new_account_row(
                    account_id@,
                    encrypted_account_key@,
                    main_subaddress_index,
                    change_subaddress_index,
                    next_subaddress_index,
                    first_block,
                    next_block,
                    name@,
                ),
            ),
            res.1@ == StatementView::BeginTransaction,
    {
        let row = NewAccount::new(
            &account_id,
            encrypted_account_key,
            main_subaddress_index,
            change_subaddress_index,
            next_subaddress_index,
            first_block,
            next_block,
            name,
        );
        let creation = AccountCreation {
            account_id,
            main_subaddress_index,
            change_subaddress_index,
            stage: CreationStage::Opening(row),
        };
        (creation, Statement::BeginTransaction)
    }

    /// Whether the creation waits for the address of an assigned subaddress.
    pub fn expects_address(&self) -> (b: bool)
        ensures
            b == (self@.phase is AssigningMain || self@.phase is AssigningChange),
    {
        match self.stage {
            CreationStage::AssigningMain => true,
            CreationStage::AssigningChange(_) => true,
            _ => false,
        }
    }

    /// Whether the creation is over.
    pub fn is_closed(&self) -> (b: bool)
        ensures
            b == self@.phase is Closed,
    {
        match self.stage {
            CreationStage::Closed => true,
            _ => false,
        }
    }

    /// Takes the outcome of the statement last handed out and says what to
    /// do next, as `create_next` describes.
    pub fn resume(&mut self, outcome: Result<Outcome, WalletDbError>) -> (step: Step<(AccountID, String)>)
        requires
            !(old(self)@.phase is Closed),
            creation_fits(old(self)@.phase, outcome_view(outcome)),
        ensures
            final(self)@.account_id == old(self)@.account_id,
            final(self)@.main_subaddress_index == old(self)@.main_subaddress_index,
            final(self)@.change_subaddress_index == old(self)@.change_subaddress_index,
            (final(self)@.phase, step@) == create_next(old(self)@, outcome_view(outcome)),
    {
        let outcome = match outcome {
            Err(e) => {
                self.stage = CreationStage::Closed;
                return Step::Finished(Err(e));
            },
            Ok(o) => o,
        };
        let mut stage = CreationStage::Closed;
        std::mem::swap(&mut stage, &mut self.stage);
        match stage {
            CreationStage::Opening(row) => {
                self.stage = CreationStage::Inserting;
                Step::Run(Statement::InsertAccount(row))
            },
            CreationStage::Inserting => {
                self.stage = CreationStage::AssigningMain;
                Step::Run(
                    Statement::CreateAssignedSubaddress {
                        subaddress_index: self.main_subaddress_index,
                        comment: String::from_str("Main"),
                    },
                )
            },
            CreationStage::AssigningMain => match outcome {
                Outcome::Address(main) => {
                    self.stage = CreationStage::AssigningChange(main);
                    Step::Run(
                        Statement::CreateAssignedSubaddress {
                            subaddress_index: self.change_subaddress_index,
                            comment: String::from_str("Change"),
                        },
                    )
                },
                _ => Step::Finished(Ok((self.account_id.clone_id(), String::new()))),
            },
            CreationStage::AssigningChange(main) => {
                self.stage = CreationStage::Committing(main);
                Step::Run(Statement::CommitTransaction)
            },
            CreationStage::Committing(main) => Step::Finished(Ok((self.account_id.clone_id(), main))),
            CreationStage::Closed => Step::Finished(Ok((self.account_id.clone_id(), String::new()))),
        }
    }
}

/// Creating an account in which every statement succeeds inserts its row,
/// assigns the main and then the change subaddress, commits, and answers the
/// account id with the main subaddress's address.
pub proof fn lemma_creation_sequence(
    s: AccountCreationView,
    row: NewAccountView,
    main_address: Seq<char>,
    change_address: Seq<char>,
)
    requires
        s.phase == CreationPhase::Opening(row),
    ensures
        ({
            let (p1, st1) = create_next(s, Ok(OutcomeView::Executed));
            let (p2, st2) = create_next(with_creation_phase(s, p1), Ok(OutcomeView::Executed));
            let (p3, st3) = create_next(
                with_creation_phase(s, p2),
                Ok(OutcomeView::Address(main_address)),
            );
            let (p4, st4) = create_next(
                with_creation_phase(s, p3),
                Ok(OutcomeView::Address(change_address)),
            );
            let (p5, st5) = create_next(with_creation_phase(s, p4), Ok(OutcomeView::Executed));
            &&& st1 == StepView::<(Seq<char>, Seq<char>)>::Run(StatementView::InsertAccount(row))
            &&& st2 == StepView::<(Seq<char>, Seq<char>)>::Run(
                StatementView::CreateAssignedSubaddress(s.main_subaddress_index, main_comment()),
            )
            &&& st3 == StepView::<(Seq<char>, Seq<char>)>::Run(
                StatementView::CreateAssignedSubaddress(s.change_subaddress_index, change_comment()),
            )
            &&& st4 == StepView::<(Seq<char>, Seq<char>)>::Run(StatementView::CommitTransaction)
            &&& st5 == StepView::<(Seq<char>, Seq<char>)>::Finished(
                Ok((s.account_id, main_address)),
            )
            &&& p5 is Closed
        }),
{
}

/// A creation commits its transaction once, as its last statement: the
/// commit is handed out only after the change subaddress is assigned,
/// whatever follows it ends the creation, and a creation that ends with an
/// error has had no commit succeed.
pub proof fn lemma_creation_commit_is_last(
    s: AccountCreationView,
    outcome: Result<OutcomeView, WalletDbErrorView>,
)
    requires
        !(s.phase is Closed),
        creation_fits(s.phase, outcome),
    ensures
        create_next(s, outcome).1 == StepView::<(Seq<char>, Seq<char>)>::Run(
            StatementView::CommitTransaction,
        ) ==> (s.phase is AssigningChange && create_next(s, outcome).0 is Committing),
        s.phase is Committing ==> create_next(s, outcome).0 is Closed,
        create_next(s, outcome).1 matches StepView::Finished(Err(_)) ==> !(s.phase is Committing
            && outcome is Ok),
{
}

/// A creation handed a failed statement, in any phase, ends with that same
/// error: no account is reported and nothing more is run.
pub proof fn lemma_creation_failure_is_answered(s: AccountCreationView, e: WalletDbErrorView)
    ensures
        create_next(s, Err(e)) == (
            CreationPhase::Closed,
            StepView::<(Seq<char>, Seq<char>)>::Finished(Err(e)),
        ),
{
}

/// A creation answers success only when the commit of its transaction
/// succeeds, and then answers its account id with the address the main
/// subaddress was assigned.
pub proof fn lemma_creation_success_only_on_commit(
    s: AccountCreationView,
    outcome: Result<OutcomeView, WalletDbErrorView>,
    id: Seq<char>,
    address: Seq<char>,
)
    requires
        !(s.phase is Closed),
        creation_fits(s.phase, outcome),
        create_next(s, outcome).1 == StepView::<(Seq<char>, Seq<char>)>::Finished(
            Ok((id, address)),
        ),
    ensures
        s.phase == CreationPhase::Committing(address),
        outcome is Ok,
        id == s.account_id,
{
}

} // verus!
