//! Renaming and deleting an account: one statement, inside a transaction.

use vstd::prelude::*;
use crate::error::{WalletDbError, WalletDbErrorView};
use crate::statement::{outcome_view, Outcome, OutcomeView, Statement, StatementView, Step, StepView};

verus! {

/// Which statement the update waits for.
enum UpdateStage {
    Opening(Statement),
    Applying,
    Committing,
    Closed,
}

pub enum UpdatePhase {
    /// Waiting for the transaction to begin; this statement comes next.
    Opening(StatementView),
    /// Waiting for the statement to be carried out.
    Applying,
    /// Waiting for the commit.
    Committing,
    /// The update is over.
    Closed,
}

impl View for UpdateStage {
    type V = UpdatePhase;

    closed spec fn view(&self) -> UpdatePhase {
        match self {
            UpdateStage::Opening(s) => UpdatePhase::Opening(s@),
            UpdateStage::Applying => UpdatePhase::Applying,
            UpdateStage::Committing => UpdatePhase::Committing,
            UpdateStage::Closed => UpdatePhase::Closed,
        }
    }
}

/// A change of one account, made in a transaction of its own.
pub struct AccountUpdate {
    stage: UpdateStage,
}

impl View for AccountUpdate {
    type V = UpdatePhase;

    closed spec fn view(&self) -> UpdatePhase {
        self.stage@
    }
}

/// The next phase and step of an update that receives `outcome`: a failed
/// statement ends it with its error; otherwise the statement follows the
/// beginning of the transaction, the commit follows the statement, and the
/// update succeeds once the commit does.
pub open spec fn update_next(phase: UpdatePhase, outcome: Result<OutcomeView, WalletDbErrorView>) -> (
    UpdatePhase,
    StepView<()>,
) {
    match outcome {
        Err(e) => (UpdatePhase::Closed, StepView::Finished(Err(e))),
        Ok(_) => match phase {
            UpdatePhase::Opening(st) => (UpdatePhase::Applying, StepView::Run(st)),
            UpdatePhase::Applying => (
                UpdatePhase::Committing,
                StepView::Run(StatementView::CommitTransaction),
            ),
            _ => (UpdatePhase::Closed, StepView::Finished(Ok(()))),
        },
    }
}

/// Whether an outcome fits an update: its statements return nothing.
pub open spec fn update_fits(outcome: Result<OutcomeView, WalletDbErrorView>) -> bool {
    outcome matches Ok(o) ==> o is Executed
}

impl AccountUpdate {
    /// Giving the account `account_id_hex` the name `new_name`; the name is
    /// the only field of an account that can change. The first statement
    /// begins a transaction.
    pub fn rename(account_id_hex: &str, new_name: String) -> (res: (AccountUpdate, Statement))
        ensures
            res.0@ == UpdatePhase::Opening(
                StatementView::SetAccountName(account_id_hex@, new_name@),
            ),
            res.1@ == StatementView::BeginTransaction,
    {
        let statement = Statement::SetAccountName {
            account_id_hex: String::from_str(account_id_hex),
            name: new_name,
        };
        (AccountUpdate { stage: UpdateStage::Opening(statement) }, Statement::BeginTransaction)
    }

    /// Deleting the account `account_id_hex`. The first statement begins a
    /// transaction.
    pub fn delete(account_id_hex: &str) -> (res: (AccountUpdate, Statement))
        ensures
            res.0@ == UpdatePhase::Opening(StatementView::DeleteAccount(account_id_hex@)),
            res.1@ == StatementView::BeginTransaction,
    {
        let statement = Statement::DeleteAccount { account_id_hex: String::from_str(account_id_hex) };
        (AccountUpdate { stage: UpdateStage::Opening(statement) }, Statement::BeginTransaction)
    }

    /// Whether the update is over.
    pub fn is_closed(&self) -> (b: bool)
        ensures
            b == self@ is Closed,
    {
        match self.stage {
            UpdateStage::Closed => true,
            _ => false,
        }
    }

    /// Takes the outcome of the statement last handed out and says what to
    /// do next, as `update_next` describes.
    pub fn resume(&mut self, outcome: Result<Outcome, WalletDbError>) -> (step: Step<()>)
        requires
            !(old(self)@ is Closed),
            update_fits(outcome_view(outcome)),
        ensures
            (final(self)@, step@) == update_next(old(self)@, outcome_view(outcome)),
    {
        if let Err(e) = outcome {
            self.stage = UpdateStage::Closed;
            return Step::Finished(Err(e));
        }
        let mut stage = UpdateStage::Closed;
        std::mem::swap(&mut stage, &mut self.stage);
        match stage {
            UpdateStage::Opening(statement) => {
                self.stage = UpdateStage::Applying;
                Step::Run(statement)
            },
            UpdateStage::Applying => {
                self.stage = UpdateStage::Committing;
                Step::Run(Statement::CommitTransaction)
            },
            _ => Step::Finished(Ok(())),
        }
    }
}

/// An update commits its transaction once, as its last statement: the commit
/// is handed out only after its statement is carried out, whatever follows
/// it ends the update, and an update that ends with an error has had no
/// commit succeed.
pub proof fn lemma_update_commit_is_last(
    phase: UpdatePhase,
    outcome: Result<OutcomeView, WalletDbErrorView>,
)
    requires
        !(phase is Closed),
        !(phase matches UpdatePhase::Opening(st) && st is CommitTransaction),
    ensures
        update_next(phase, outcome).1 == StepView::<()>::Run(StatementView::CommitTransaction) ==> (
        phase is Applying && update_next(phase, outcome).0 is Committing),
        phase is Committing ==> update_next(phase, outcome).0 is Closed,
        update_next(phase, outcome).1 matches StepView::Finished(Err(_)) ==> !(phase is Committing
            && outcome is Ok),
{
}

/// An update handed a failed statement, in any phase, ends with that same
/// error and runs nothing more.
pub proof fn lemma_update_failure_is_answered(phase: UpdatePhase, e: WalletDbErrorView)
    ensures
        update_next(phase, Err(e)) == (UpdatePhase::Closed, StepView::<()>::Finished(Err(e))),
{
}

/// An update that is to run `st`, in which every statement succeeds, hands
/// out `st` after the transaction begins, then the commit, and then succeeds.
pub proof fn lemma_update_runs_its_statement(
    st: StatementView,
    o1: OutcomeView,
    o2: OutcomeView,
    o3: OutcomeView,
)
    ensures
        ({
            let (p1, s1) = update_next(UpdatePhase::Opening(st), Ok(o1));
            let (p2, s2) = update_next(p1, Ok(o2));
            let (p3, s3) = update_next(p2, Ok(o3));
            &&& s1 == StepView::<()>::Run(st)
            &&& s2 == StepView::<()>::Run(StatementView::CommitTransaction)
            &&& s3 == StepView::<()>::Finished(Ok(()))
            &&& p3 is Closed
        }),
{
}

/// An update answers success only when the commit of its transaction
/// succeeds.
pub proof fn lemma_update_success_only_on_commit(
    phase: UpdatePhase,
    outcome: Result<OutcomeView, WalletDbErrorView>,
)
    requires
        !(phase is Closed),
        update_next(phase, outcome).1 == StepView::<()>::Finished(Ok(())),
    ensures
        phase is Committing,
        outcome is Ok,
{
}

} // verus!
