//! Marking an account's txos spent: the decisions taken while the database
//! is searched for each key image of a block, and updated.
//!
//! A `SpendScan` never touches the database itself. It hands out one
//! `Statement` at a time; whoever holds the connection runs it and hands the
//! outcome back with `resume`, until the scan reports that it is finished.

use vstd::prelude::*;
use crate::error::{WalletDbError, WalletDbErrorView};
use crate::statement::{
    outcome_view, run_statement, Outcome, OutcomeView, Statement, StatementView, Step, StepView,
};

verus! {

/// A key image to look for: its serialized form, as stored in the `txos`
/// table, and its debug text, used in error messages.
#[derive(Debug, Clone)]
pub struct KeyImageRef {
    pub serialized: Vec<u8>,
    pub debug_text: String,
}

/// Which statement the scan waits for, and the key image it is at.
enum Stage {
    Opening,
    Searching(usize),
    MarkingTxo(usize, String),
    MarkingStatus(usize, String),
    UpdatingLogs(usize, String),
    AdvancingNextBlock,
    Committing,
    Closed,
}

pub enum Phase {
    /// Waiting for the transaction to begin.
    Opening,
    /// Waiting for the txos with the key image at this position.
    Searching(int),
    /// Waiting for the txo to be marked spent.
    MarkingTxo(int, Seq<char>),
    /// Waiting for the txo's status to be set to spent.
    MarkingStatus(int, Seq<char>),
    /// Waiting for the txo's transactions to be brought up to date.
    UpdatingLogs(int, Seq<char>),
    /// Waiting for the account's next block to be set.
    AdvancingNextBlock,
    /// Waiting for the transaction to commit.
    Committing,
    /// The scan is over.
    Closed,
}

impl View for Stage {
    type V = Phase;

    closed spec fn view(&self) -> Phase {
        match self {
            Stage::Opening => Phase::Opening,
            Stage::Searching(i) => Phase::Searching(*i as int),
            Stage::MarkingTxo(i, t) => Phase::MarkingTxo(*i as int, t@),
            Stage::MarkingStatus(i, t) => Phase::MarkingStatus(*i as int, t@),
            Stage::UpdatingLogs(i, t) => Phase::UpdatingLogs(*i as int, t@),
            Stage::AdvancingNextBlock => Phase::AdvancingNextBlock,
            Stage::Committing => Phase::Committing,
            Stage::Closed => Phase::Closed,
        }
    }
}

/// Marking the txos of one account spent at one block height, for a list of
/// key images, and then moving the account's next block past that height.
pub struct SpendScan {
    account_id_hex: String,
    spent_block_height: i64,
    key_images: Vec<KeyImageRef>,
    stage: Stage,
}

pub struct SpendScanView {
    pub account: Seq<char>,
    pub height: int,
    /// Each key image as (serialized form, debug text).
    pub keys: Seq<(Seq<u8>, Seq<char>)>,
    pub phase: Phase,
}

impl View for SpendScan {
    type V = SpendScanView;

    closed spec fn view(&self) -> SpendScanView {
        SpendScanView {
            account: self.account_id_hex@,
            height: self.spent_block_height as int,
            keys: self.key_images@.map_values(|k: KeyImageRef| (k.serialized@, k.debug_text@)),
            phase: self.stage@,
        }
    }
}

/// The status a txo takes once it is spent.
pub open spec fn spent_status() -> Seq<char> {
    "spent"@
}

/// The error text for a key image that several txos carry.
pub open spec fn duplicate_message(debug_text: Seq<char>) -> Seq<char> {
    "Key Image: "@ + debug_text
}

/// The step after the key image at position `i` is dealt with: the search for
/// the key image at `i`, or, past the last one, setting the account's next
/// block to the block after the spent one.
pub open spec fn search_from(s: SpendScanView, i: int) -> (Phase, StepView<()>) {
    if i < s.keys.len() {
        (Phase::Searching(i), StepView::Run(StatementView::FindTxosByKeyImage(s.keys[i].0)))
    } else {
        (
            Phase::AdvancingNextBlock,
            StepView::Run(StatementView::SetNextBlock(s.account, s.height + 1)),
        )
    }
}

/// The next phase and step of a scan that receives `event`. A failed
/// statement ends the scan with its error. A search with no match moves on
/// to the next key image; one with several matches ends the scan with
/// `DuplicateEntries`; one with a single match marks that txo spent, sets its
/// status to spent and updates its transactions before moving on. After the
/// last key image the account's next block is set, then the transaction is
/// committed and the scan succeeds.
pub open spec fn spend_next(s: SpendScanView, event: Result<OutcomeView, WalletDbErrorView>) -> (
    Phase,
    StepView<()>,
) {
    match event {
        Err(e) => (Phase::Closed, StepView::Finished(Err(e))),
        Ok(ev) => match s.phase {
            Phase::Opening => search_from(s, 0),
            Phase::Searching(i) => match ev {
                OutcomeView::Matches(ids) => if ids.len() == 0 {
                    search_from(s, i + 1)
                } else if ids.len() > 1 {
                    (
                        Phase::Closed,
                        StepView::Finished(
                            Err(WalletDbErrorView::DuplicateEntries(duplicate_message(s.keys[i].1))),
                        ),
                    )
                } else {
                    (
                        Phase::MarkingTxo(i, ids[0]),
                        StepView::Run(StatementView::MarkTxoSpent(ids[0], s.height)),
                    )
                },
                _ => (Phase::Closed, StepView::Finished(Ok(()))),
            },
            Phase::MarkingTxo(i, t) => (
                Phase::MarkingStatus(i, t),
                StepView::Run(StatementView::SetTxoStatus(s.account, t, spent_status())),
            ),
            Phase::MarkingStatus(i, t) => (
                Phase::UpdatingLogs(i, t),
                StepView::Run(StatementView::UpdateTransactionsForTxo(t, s.height)),
            ),
            Phase::UpdatingLogs(i, t) => search_from(s, i + 1),
            Phase::AdvancingNextBlock => (
                Phase::Committing,
                StepView::Run(StatementView::CommitTransaction),
            ),
            Phase::Committing => (Phase::Closed, StepView::Finished(Ok(()))),
            Phase::Closed => (Phase::Closed, StepView::Finished(Ok(()))),
        },
    }
}

/// Whether an outcome fits the statement the scan waits for: the rows of a
/// search answer a search, and only a search; the scan assigns no
/// subaddress.
pub open spec fn fits(phase: Phase, event: Result<OutcomeView, WalletDbErrorView>) -> bool {
    event matches Ok(ev) ==> !(ev is Address) && (ev is Matches <==> phase is Searching)
}

impl SpendScan {
    /// The scan's invariant: the block after the spent one is a valid `i64`,
    /// and the key image it is at exists.
    pub closed spec fn wf(&self) -> bool {
        &&& self.spent_block_height < i64::MAX
        &&& match self.stage@ {
            Phase::Searching(i) => 0 <= i < self.key_images.len(),
            Phase::MarkingTxo(i, _) => 0 <= i < self.key_images.len(),
            Phase::MarkingStatus(i, _) => 0 <= i < self.key_images.len(),
            Phase::UpdatingLogs(i, _) => 0 <= i < self.key_images.len(),
            _ => true,
        }
    }

    /// A scan for the txos of `account_id_hex` spent at `spent_block_height`;
    /// its first statement begins a transaction.
    pub fn new(account_id_hex: &str, spent_block_height: i64, key_images: Vec<KeyImageRef>) -> (res: (
        SpendScan,
        Statement,
    ))
        requires
            spent_block_height < i64::MAX,
        ensures
            res.0.wf(),
            res.0@.account == account_id_hex@,
            res.0@.height == spent_block_height,
            res.0@.keys == key_images@.map_values(|k: KeyImageRef| (k.serialized@, k.debug_text@)),
            res.0@.phase == Phase::Opening,
            res.1@ == StatementView::BeginTransaction,
    {
        let scan = SpendScan {
            account_id_hex: String::from_str(account_id_hex),
            spent_block_height,
            key_images,
            stage: Stage::Opening,
        };
        (scan, Statement::BeginTransaction)
    }

    /// Whether the scan waits for the rows of a search.
    pub fn expects_matches(&self) -> (b: bool)
        ensures
            b == self@.phase is Searching,
    {
        match self.stage {
            Stage::Searching(_) => true,
            _ => false,
        }
    }

    /// Whether the scan is over.
    pub fn is_closed(&self) -> (b: bool)
        ensures
            b == self@.phase is Closed,
    {
        match self.stage {
            Stage::Closed => true,
            _ => false,
        }
    }

    fn search_from(&mut self, i: usize) -> (step: Step<()>)
        requires
            old(self).wf(),
            i <= old(self).key_images.len(),
        ensures
            final(self).wf(),
            final(self)@.account == old(self)@.account,
            final(self)@.height == old(self)@.height,
            final(self)@.keys == old(self)@.keys,
            (final(self)@.phase, step@) == search_from(old(self)@, i as int),
    {
        if i < self.key_images.len() {
            self.stage = Stage::Searching(i);
            Step::Run(
                Statement::FindTxosByKeyImage { key_image: self.key_images[i].serialized.clone() },
            )
        } else {
            self.stage = Stage::AdvancingNextBlock;
            Step::Run(
                Statement::SetNextBlock {
                    account_id_hex: self.account_id_hex.clone(),
                    next_block: self.spent_block_height + 1,
                },
            )
        }
    }

    /// Takes the outcome of the statement last handed out and says what to
    /// do next, as `spend_next` describes.
    pub fn resume(&mut self, event: Result<Outcome, WalletDbError>) -> (step: Step<()>)
        requires
            old(self).wf(),
            !(old(self)@.phase is Closed),
            fits(old(self)@.phase, outcome_view(event)),
        ensures
            final(self).wf(),
            final(self)@.account == old(self)@.account,
            final(self)@.height == old(self)@.height,
            final(self)@.keys == old(self)@.keys,
            (final(self)@.phase, step@) == spend_next(old(self)@, outcome_view(event)),
    {
        let event = match event {
            Err(e) => {
                self.stage = Stage::Closed;
                return Step::Finished(Err(e));
            },
            Ok(ev) => ev,
        };
        let mut stage = Stage::Closed;
        std::mem::swap(&mut stage, &mut self.stage);
        match stage {
            Stage::Opening => self.search_from(0),
            Stage::Searching(i) => {
                let ids = match event {
                    Outcome::Matches(ids) => ids,
                    _ => {
                        return Step::Finished(Ok(()));
                    },
                };
                if ids.len() == 0 {
                    self.search_from(i + 1)
                } else if ids.len() > 1 {
                    let mut message = String::from_str("Key Image: ");
                    message.append(self.key_images[i].debug_text.as_str());
                    Step::Finished(Err(WalletDbError::DuplicateEntries(message)))
                } else {
                    let txo_id_hex = ids[0].clone();
                    self.stage = Stage::MarkingTxo(i, ids[0].clone());
                    Step::Run(
                        Statement::MarkTxoSpent {
                            txo_id_hex,
                            spent_block_height: self.spent_block_height,
                        },
                    )
                }
            },
            Stage::MarkingTxo(i, txo_id_hex) => {
                let step = Step::Run(
                    Statement::SetTxoStatus {
                        account_id_hex: self.account_id_hex.clone(),
                        txo_id_hex: txo_id_hex.clone(),
                        txo_status: String::from_str("spent"),
                    },
                );
                self.stage = Stage::MarkingStatus(i, txo_id_hex);
                step
            },
            Stage::MarkingStatus(i, txo_id_hex) => {
                let step = Step::Run(
                    Statement::UpdateTransactionsForTxo {
                        txo_id_hex: txo_id_hex.clone(),
                        spent_block_height: self.spent_block_height,
                    },
                );
                self.stage = Stage::UpdatingLogs(i, txo_id_hex);
                step
            },
            Stage::UpdatingLogs(i, _) => self.search_from(i + 1),
            Stage::AdvancingNextBlock => {
                self.stage = Stage::Committing;
                Step::Run(Statement::CommitTransaction)
            },
            Stage::Committing => Step::Finished(Ok(())),
            Stage::Closed => Step::Finished(Ok(())),
        }
    }
}

/// The event a search-answering database gives in phase `p`: the matches
/// listed for the key image being searched, or plain success.
pub open spec fn answer(p: Phase, matches: Seq<Seq<Seq<char>>>) -> OutcomeView {
    match p {
        Phase::Searching(i) => OutcomeView::Matches(matches[i]),
        _ => OutcomeView::Executed,
    }
}

pub open spec fn with_phase(s: SpendScanView, p: Phase) -> SpendScanView {
    SpendScanView { phase: p, ..s }
}

/// The statements a scan in state `s` hands out, for at most `fuel + 1`
/// steps, when every statement succeeds and the search for the key image at
/// position `i` returns `matches[i]`; and the result, once it has finished.
pub open spec fn drive(s: SpendScanView, matches: Seq<Seq<Seq<char>>>, fuel: nat) -> (
    Seq<StatementView>,
    Option<Result<(), WalletDbErrorView>>,
)
    decreases fuel,
{
    let (p, step) = spend_next(s, Ok(answer(s.phase, matches)));
    match step {
        StepView::Run(st) => if fuel == 0 {
            (seq![st], None)
        } else {
            let rest = drive(with_phase(s, p), matches, (fuel - 1) as nat);
            (seq![st] + rest.0, rest.1)
        },
        StepView::Finished(r) => (Seq::empty(), Some(r)),
    }
}

/// The statements for the key images from position `i` on, when the search
/// for the key image at position `j` returns `matches[j]`, and the result:
/// a key image without txo is passed over; for one with a single txo, that
/// txo is marked spent, its status set to spent and its transactions
/// updated; one with several txos stops everything with `DuplicateEntries`.
/// After the last key image the account's next block is set to the block
/// after the spent one and the transaction commits.
pub open spec fn plan(s: SpendScanView, i: int, matches: Seq<Seq<Seq<char>>>) -> (
    Seq<StatementView>,
    Result<(), WalletDbErrorView>,
)
    decreases s.keys.len() - i,
{
    if i < 0 || i >= s.keys.len() {
        (
            seq![
                StatementView::SetNextBlock(s.account, s.height + 1),
                StatementView::CommitTransaction,
            ],
            Ok(()),
        )
    } else {
        let ids = matches[i];
        let search = StatementView::FindTxosByKeyImage(s.keys[i].0);
        if ids.len() == 0 {
            let rest = plan(s, i + 1, matches);
            (seq![search] + rest.0, rest.1)
        } else if ids.len() > 1 {
            (seq![search], Err(WalletDbErrorView::DuplicateEntries(duplicate_message(s.keys[i].1))))
        } else {
            let rest = plan(s, i + 1, matches);
            (
                seq![
                    search,
                    StatementView::MarkTxoSpent(ids[0], s.height),
                    StatementView::SetTxoStatus(s.account, ids[0], spent_status()),
                    StatementView::UpdateTransactionsForTxo(ids[0], s.height),
                ] + rest.0,
                rest.1,
            )
        }
    }
}

proof fn lemma_drive_from(s: SpendScanView, i: int, matches: Seq<Seq<Seq<char>>>, fuel: nat)
    requires
        0 <= i <= s.keys.len(),
        fuel >= 4 * (s.keys.len() - i) + 1,
    ensures
        ({
            let (p, step) = search_from(s, i);
            let rest = drive(with_phase(s, p), matches, fuel);
            &&& seq![run_statement(step)] + rest.0 == plan(s, i, matches).0
            &&& rest.1 == Some(plan(s, i, matches).1)
        }),
    decreases s.keys.len() - i,
{
    let (p, step) = search_from(s, i);
    let s1 = with_phase(s, p);
    if i == s.keys.len() {
        let s2 = with_phase(s, Phase::Committing);
        assert(drive(s2, matches, (fuel - 1) as nat) == (Seq::<StatementView>::empty(), Some(
            Ok::<(), WalletDbErrorView>(()),
        )));
        assert(drive(s1, matches, fuel).0 =~= seq![StatementView::CommitTransaction]);
        assert(seq![run_statement(step)] + drive(s1, matches, fuel).0 =~= plan(s, i, matches).0);
    } else {
        let ids = matches[i];
        assert(s1.phase == Phase::Searching(i));
        if ids.len() == 0 {
            lemma_drive_from(s, i + 1, matches, (fuel - 1) as nat);
            let (p2, step2) = search_from(s, i + 1);
            let rest2 = drive(with_phase(s, p2), matches, (fuel - 1) as nat);
            assert(drive(s1, matches, fuel).0 == seq![run_statement(step2)] + rest2.0);
            assert(seq![run_statement(step)] + drive(s1, matches, fuel).0 =~= plan(s, i, matches).0);
        } else if ids.len() > 1 {
            assert(seq![run_statement(step)] + drive(s1, matches, fuel).0 =~= plan(s, i, matches).0);
        } else {
            let t = ids[0];
            lemma_drive_from(s, i + 1, matches, (fuel - 4) as nat);
            let (p2, step2) = search_from(s, i + 1);
            let rest2 = drive(with_phase(s, p2), matches, (fuel - 4) as nat);
            let s_logs = with_phase(s, Phase::UpdatingLogs(i, t));
            let s_status = with_phase(s, Phase::MarkingStatus(i, t));
            let s_txo = with_phase(s, Phase::MarkingTxo(i, t));
            assert(drive(s_logs, matches, (fuel - 3) as nat).0 == seq![run_statement(step2)]
                + rest2.0);
            assert(drive(s_status, matches, (fuel - 2) as nat).0 == seq![
                StatementView::UpdateTransactionsForTxo(t, s.height),
            ] + drive(s_logs, matches, (fuel - 3) as nat).0);
            assert(drive(s_txo, matches, (fuel - 1) as nat).0 == seq![
                StatementView::SetTxoStatus(s.account, t, spent_status()),
            ] + drive(s_status, matches, (fuel - 2) as nat).0);
            assert(drive(s1, matches, fuel).0 == seq![StatementView::MarkTxoSpent(t, s.height)]
                + drive(s_txo, matches, (fuel - 1) as nat).0);
            assert(seq![run_statement(step)] + drive(s1, matches, fuel).0 =~= plan(s, i, matches).0);
        }
    }
}

/// A scan in which every statement succeeds hands out, after beginning the
/// transaction, exactly the statements of `plan`, and finishes with its
/// result.
pub proof fn lemma_scan_follows_plan(s: SpendScanView, matches: Seq<Seq<Seq<char>>>)
    requires
        s.phase is Opening,
    ensures
        drive(s, matches, (4 * s.keys.len() + 2) as nat) == (
            plan(s, 0, matches).0,
            Some(plan(s, 0, matches).1),
        ),
{
    lemma_drive_from(s, 0, matches, (4 * s.keys.len() + 1) as nat);
    let (p, step) = search_from(s, 0);
    assert(drive(s, matches, (4 * s.keys.len() + 2) as nat).0 == seq![run_statement(step)]
        + drive(with_phase(s, p), matches, (4 * s.keys.len() + 1) as nat).0);
}

/// A failed statement ends the scan with its error.
pub proof fn lemma_failure_ends_scan(s: SpendScanView, e: WalletDbErrorView)
    ensures
        spend_next(s, Err(e)) == (Phase::Closed, StepView::Finished(Err::<(), WalletDbErrorView>(e))),
{
}

/// A scan succeeds only when the commit of its transaction succeeds.
pub proof fn lemma_success_only_on_commit(s: SpendScanView, event: Result<OutcomeView, WalletDbErrorView>)
    requires
        !(s.phase is Closed),
        fits(s.phase, event),
        spend_next(s, event).1 == StepView::Finished(Ok::<(), WalletDbErrorView>(())),
    ensures
        s.phase is Committing,
        event is Ok,
{
}

/// A scan commits its transaction once, as its last statement: the commit is
/// handed out only after the account's next block is set, whatever follows
/// it ends the scan, and a scan that ends with an error has had no commit
/// succeed.
pub proof fn lemma_commit_is_last(s: SpendScanView, event: Result<OutcomeView, WalletDbErrorView>)
    requires
        !(s.phase is Closed),
        fits(s.phase, event),
    ensures
        spend_next(s, event).1 == StepView::<()>::Run(StatementView::CommitTransaction) ==> (
        s.phase is AdvancingNextBlock && spend_next(s, event).0 is Committing),
        s.phase is Committing ==> spend_next(s, event).0 is Closed,
        spend_next(s, event).1 matches StepView::Finished(Err(_)) ==> !(s.phase is Committing
            && event is Ok),
{
}

} // verus!
