//! What the statements mean for the tables they write (`accounts`, `txos`
//! and `account_txo_statuses`), and what an account, a txo and a status read
//! back after an account was created, renamed, spent from or deleted.
//!
//! `apply` gives the effect of each statement that succeeds on the tables,
//! each keyed by its primary key. The transaction log, which
//! `UpdateTransactionsForTxo` brings up to date, belongs to another part of
//! the wallet and is not among them. The laws below hold of any database that
//! carries statements out so.

use vstd::prelude::*;
use crate::account::get_answers;
use crate::error::{DbFailure, WalletDbError};
use crate::models::{loaded_u64, new_account_row, stored_i64, Account, NewAccountView};
use crate::spend::{plan, spent_status, SpendScanView};
use crate::statement::{run_statement, OutcomeView, StatementView, StepView};
use crate::update::{update_next, UpdatePhase};

verus! {

/// A stored account: the id the database gave it and its columns.
pub struct AccountRecord {
    pub id: int,
    pub fields: NewAccountView,
}

/// A stored txo: the columns the account bookkeeping reads or writes.
pub struct TxoRecord {
    pub key_image: Option<Seq<u8>>,
    pub spent_block_height: Option<int>,
}

/// The tables: `accounts` keyed by account id, with the id the next inserted
/// row receives; `txos` keyed by txo id; the status column of
/// `account_txo_statuses`, keyed by (account id, txo id).
pub struct Tables {
    pub accounts: Map<Seq<char>, AccountRecord>,
    pub next_id: int,
    pub txos: Map<Seq<char>, TxoRecord>,
    pub txo_statuses: Map<(Seq<char>, Seq<char>), Seq<char>>,
}

/// The effect of a statement that succeeds on the tables (see `fails` for
/// when one fails). An update of a row that is not there changes nothing.
pub open spec fn apply(t: Tables, st: StatementView) -> Tables {
    match st {
        StatementView::InsertAccount(row) => if t.accounts.contains_key(row.account_id_hex) {
            t
        } else {
            Tables {
                accounts: t.accounts.insert(
                    row.account_id_hex,
                    AccountRecord { id: t.next_id, fields: row },
                ),
                next_id: t.next_id + 1,
                ..t
            }
        },
        StatementView::SetAccountName(hex, name) => if t.accounts.contains_key(hex) {
            let r = t.accounts[hex];
            Tables {
                accounts: t.accounts.insert(
                    hex,
                    AccountRecord { id: r.id, fields: NewAccountView { name, ..r.fields } },
                ),
                ..t
            }
        } else {
            t
        },
        StatementView::SetNextBlock(hex, next_block) => if t.accounts.contains_key(hex) {
            let r = t.accounts[hex];
            Tables {
                accounts: t.accounts.insert(
                    hex,
                    AccountRecord { id: r.id, fields: NewAccountView { next_block, ..r.fields } },
                ),
                ..t
            }
        } else {
            t
        },
        StatementView::DeleteAccount(hex) => Tables { accounts: t.accounts.remove(hex), ..t },
        StatementView::MarkTxoSpent(id, height) => if t.txos.contains_key(id) {
            Tables {
                txos: t.txos.insert(
                    id,
                    TxoRecord { spent_block_height: Some(height), ..t.txos[id] },
                ),
                ..t
            }
        } else {
            t
        },
        StatementView::SetTxoStatus(account, id, status) => if t.txo_statuses.contains_key(
            (account, id),
        ) {
            Tables { txo_statuses: t.txo_statuses.insert((account, id), status), ..t }
        } else {
            t
        },
        _ => t,
    }
}

/// Whether a statement fails in state `t`: an insert of an account id that is
/// already stored breaks the column's uniqueness.
pub open spec fn fails(t: Tables, st: StatementView) -> bool {
    st matches StatementView::InsertAccount(row) && t.accounts.contains_key(row.account_id_hex)
}

/// Whether every statement of `sts`, run in order from state `t`, succeeds.
pub open spec fn all_succeed(t: Tables, sts: Seq<StatementView>) -> bool
    decreases sts.len(),
{
    sts.len() == 0 || (!fails(t, sts[0]) && all_succeed(apply(t, sts[0]), sts.drop_first()))
}

/// The effect of a sequence of statements that all succeed.
pub open spec fn apply_all(t: Tables, sts: Seq<StatementView>) -> Tables
    decreases sts.len(),
{
    if sts.len() == 0 {
        t
    } else {
        apply_all(apply(t, sts[0]), sts.drop_first())
    }
}

/// The account a lookup by `hex` finds.
pub open spec fn lookup(t: Tables, hex: Seq<char>) -> Option<AccountRecord> {
    if t.accounts.contains_key(hex) {
        Some(t.accounts[hex])
    } else {
        None
    }
}

proof fn lemma_apply_all_concat(t: Tables, a: Seq<StatementView>, b: Seq<StatementView>)
    ensures
        apply_all(t, a + b) == apply_all(apply_all(t, a), b),
    decreases a.len(),
{
    if a.len() == 0 {
        assert(a + b =~= b);
    } else {
        assert((a + b).drop_first() =~= a.drop_first() + b);
        lemma_apply_all_concat(apply(t, a[0]), a.drop_first(), b);
    }
}

proof fn lemma_apply_all_one(t: Tables, st: StatementView)
    ensures
        apply_all(t, seq![st]) == apply(t, st),
{
    let rest = seq![st].drop_first();
    assert(rest =~= Seq::<StatementView>::empty());
    assert(apply_all(apply(t, st), rest) == apply(t, st));
}

proof fn lemma_apply_all_three(t: Tables, a: StatementView, b: StatementView, c: StatementView)
    ensures
        apply_all(t, seq![a, b, c]) == apply(apply(apply(t, a), b), c),
{
    assert(seq![a, b, c].drop_first() =~= seq![b, c]);
    assert(seq![b, c].drop_first() =~= seq![c]);
    lemma_apply_all_one(apply(apply(t, a), b), c);
    assert(apply_all(apply(t, a), seq![b, c]) == apply_all(apply(apply(t, a), b), seq![c]));
}

/// The statements that create the account with row `row`, assigning its main
/// and change subaddresses.
pub open spec fn creation_statements(row: NewAccountView, main_index: u64, change_index: u64) -> Seq<
    StatementView,
> {
    seq![
        StatementView::BeginTransaction,
        StatementView::InsertAccount(row),
        StatementView::CreateAssignedSubaddress(main_index, crate::create::main_comment()),
        StatementView::CreateAssignedSubaddress(change_index, crate::create::change_comment()),
        StatementView::CommitTransaction,
    ]
}

/// A creation of an account id that is already stored fails at the insert.
pub proof fn lemma_create_of_stored_id_fails(
    t: Tables,
    row: NewAccountView,
    main_index: u64,
    change_index: u64,
)
    requires
        t.accounts.contains_key(row.account_id_hex),
    ensures
        !all_succeed(t, creation_statements(row, main_index, change_index)),
{
    let sts = creation_statements(row, main_index, change_index);
    assert(sts.drop_first()[0] == StatementView::InsertAccount(row));
    assert(apply(t, sts[0]) == t);
    assert(fails(t, sts.drop_first()[0]));
    assert(!all_succeed(t, sts.drop_first()));
}

/// When the statements of a creation all succeed (the account id was not
/// stored before), the account reads back as the row that was inserted,
/// under the next id, and the table holds one account more.
pub proof fn lemma_get_after_create(t: Tables, row: NewAccountView, main_index: u64, change_index: u64)
    requires
        all_succeed(t, creation_statements(row, main_index, change_index)),
    ensures
        ({
            let after = apply_all(t, creation_statements(row, main_index, change_index));
            &&& lookup(after, row.account_id_hex) == Some(
                AccountRecord { id: t.next_id, fields: row },
            )
            &&& after.accounts.dom() == t.accounts.dom().insert(row.account_id_hex)
            &&& t.accounts.dom().finite() ==> after.accounts.len() == t.accounts.len() + 1
            &&& forall|other: Seq<char>|
                other != row.account_id_hex ==> lookup(after, other) == lookup(t, other)
        }),
{
    let sts = creation_statements(row, main_index, change_index);
    assert(sts.drop_first()[0] == StatementView::InsertAccount(row));
    assert(apply(t, sts[0]) == t);
    assert(all_succeed(t, sts.drop_first()));
    assert(!fails(t, sts.drop_first()[0]));
    assert(!t.accounts.contains_key(row.account_id_hex));
    let t1 = apply(t, StatementView::InsertAccount(row));
    assert(sts =~= seq![StatementView::BeginTransaction] + seq![
        StatementView::InsertAccount(row),
        StatementView::CreateAssignedSubaddress(main_index, crate::create::main_comment()),
        StatementView::CreateAssignedSubaddress(change_index, crate::create::change_comment()),
    ] + seq![StatementView::CommitTransaction]);
    lemma_apply_all_concat(
        t,
        seq![StatementView::BeginTransaction] + seq![
            StatementView::InsertAccount(row),
            StatementView::CreateAssignedSubaddress(main_index, crate::create::main_comment()),
            StatementView::CreateAssignedSubaddress(change_index, crate::create::change_comment()),
        ],
        seq![StatementView::CommitTransaction],
    );
    lemma_apply_all_concat(
        t,
        seq![StatementView::BeginTransaction],
        seq![
            StatementView::InsertAccount(row),
            StatementView::CreateAssignedSubaddress(main_index, crate::create::main_comment()),
            StatementView::CreateAssignedSubaddress(change_index, crate::create::change_comment()),
        ],
    );
    lemma_apply_all_one(t, StatementView::BeginTransaction);
    lemma_apply_all_three(
        t,
        StatementView::InsertAccount(row),
        StatementView::CreateAssignedSubaddress(main_index, crate::create::main_comment()),
        StatementView::CreateAssignedSubaddress(change_index, crate::create::change_comment()),
    );
    lemma_apply_all_one(t1, StatementView::CommitTransaction);
    let after = apply_all(t, sts);
    assert(after == t1);
    assert(after.accounts.dom() =~= t.accounts.dom().insert(row.account_id_hex));
}

/// The statements that give the account `hex` the name `name`.
pub open spec fn rename_statements(hex: Seq<char>, name: Seq<char>) -> Seq<StatementView> {
    seq![
        StatementView::BeginTransaction,
        StatementView::SetAccountName(hex, name),
        StatementView::CommitTransaction,
    ]
}

/// A renamed account reads back with the new name and every other column
/// as before; no other account changes.
pub proof fn lemma_get_after_rename(t: Tables, hex: Seq<char>, name: Seq<char>)
    ensures
        ({
            let after = apply_all(t, rename_statements(hex, name));
            &&& lookup(after, hex) == match lookup(t, hex) {
                Some(r) => Some(AccountRecord { id: r.id, fields: NewAccountView { name, ..r.fields } }),
                None => None,
            }
            &&& after.accounts.dom() == t.accounts.dom()
            &&& forall|other: Seq<char>| other != hex ==> lookup(after, other) == lookup(t, other)
        }),
{
    lemma_apply_all_three(
        t,
        StatementView::BeginTransaction,
        StatementView::SetAccountName(hex, name),
        StatementView::CommitTransaction,
    );
    let after = apply_all(t, rename_statements(hex, name));
    assert(after.accounts.dom() =~= t.accounts.dom());
}

/// The statements that delete the account `hex`.
pub open spec fn delete_statements(hex: Seq<char>) -> Seq<StatementView> {
    seq![
        StatementView::BeginTransaction,
        StatementView::DeleteAccount(hex),
        StatementView::CommitTransaction,
    ]
}

/// A deleted account is found no more; no other account changes.
pub proof fn lemma_get_after_delete(t: Tables, hex: Seq<char>)
    ensures
        ({
            let after = apply_all(t, delete_statements(hex));
            &&& lookup(after, hex) == None::<AccountRecord>
            &&& after.accounts.dom() == t.accounts.dom().remove(hex)
            &&& t.accounts.dom().finite() && t.accounts.contains_key(hex) ==> after.accounts.len()
                == t.accounts.len() - 1
            &&& forall|other: Seq<char>| other != hex ==> lookup(after, other) == lookup(t, other)
        }),
{
    lemma_apply_all_three(
        t,
        StatementView::BeginTransaction,
        StatementView::DeleteAccount(hex),
        StatementView::CommitTransaction,
    );
    let after = apply_all(t, delete_statements(hex));
    assert(after.accounts.dom() =~= t.accounts.dom().remove(hex));
}

/// Renaming an account a second time to the same name changes nothing.
pub proof fn lemma_rename_twice(t: Tables, hex: Seq<char>, name: Seq<char>)
    ensures
        ({
            let once = apply_all(t, rename_statements(hex, name));
            apply_all(once, rename_statements(hex, name)) == once
        }),
{
    let st = StatementView::SetAccountName(hex, name);
    lemma_apply_all_three(t, StatementView::BeginTransaction, st, StatementView::CommitTransaction);
    let once = apply_all(t, rename_statements(hex, name));
    lemma_apply_all_three(
        once,
        StatementView::BeginTransaction,
        st,
        StatementView::CommitTransaction,
    );
    if once.accounts.contains_key(hex) {
        let r = once.accounts[hex];
        assert(r.fields.name == name);
        assert(NewAccountView { name, ..r.fields } == r.fields);
        assert(apply(once, st).accounts =~= once.accounts);
    }
}

/// An `accounts` row as the table model holds it.
pub open spec fn account_record(a: Account) -> AccountRecord {
    AccountRecord {
        id: a.id as int,
        fields: NewAccountView {
            account_id_hex: a.account_id_hex@,
            encrypted_account_key: a.encrypted_account_key@,
            main_subaddress_index: a.main_subaddress_index as int,
            change_subaddress_index: a.change_subaddress_index as int,
            next_subaddress_index: a.next_subaddress_index as int,
            first_block: a.first_block as int,
            next_block: a.next_block as int,
            name: a.name@,
        },
    }
}

/// What a database in state `t` returns to a lookup of the account `hex`:
/// its row, or `NotFound` when there is none.
pub open spec fn returns_lookup(t: Tables, hex: Seq<char>, found: Result<Account, DbFailure>) -> bool {
    match lookup(t, hex) {
        Some(r) => found matches Ok(a) && account_record(a) == r,
        None => found matches Err(DbFailure::NotFound),
    }
}

/// Getting an account after a creation whose statements all succeeded
/// answers the row that was inserted: the id the database gave it, the account id, the stored key,
/// the name, and each index and block number stored as the `i64` with the
/// same bits, which is the number itself when it is at most `i64::MAX` and
/// reads back as the number in any case.
pub proof fn lemma_get_reads_back_created(
    t: Tables,
    account_id: Seq<char>,
    encrypted_account_key: Seq<u8>,
    main_subaddress_index: u64,
    change_subaddress_index: u64,
    next_subaddress_index: u64,
    first_block: u64,
    next_block: u64,
    name: Seq<char>,
    found: Result<Account, DbFailure>,
    result: Result<Account, WalletDbError>,
)
    requires
        all_succeed(
            t,
            creation_statements(
                new_account_row(
                    account_id,
                    encrypted_account_key,
                    main_subaddress_index,
                    change_subaddress_index,
                    next_subaddress_index,
                    first_block,
                    next_block,
                    name,
                ),
                main_subaddress_index,
                change_subaddress_index,
            ),
        ),
        returns_lookup(
            apply_all(
                t,
                creation_statements(
                    new_account_row(
                        account_id,
                        encrypted_account_key,
                        main_subaddress_index,
                        change_subaddress_index,
                        next_subaddress_index,
                        first_block,
                        next_block,
                        name,
                    ),
                    main_subaddress_index,
                    change_subaddress_index,
                ),
            ),
            account_id,
            found,
        ),
        get_answers(account_id, found, result),
    ensures
        result matches Ok(a) && {
            &&& a.id == t.next_id
            &&& a.account_id_hex@ == account_id
            &&& a.encrypted_account_key@ == encrypted_account_key
            &&& a.main_subaddress_index == stored_i64(main_subaddress_index)
            &&& a.change_subaddress_index == stored_i64(change_subaddress_index)
            &&& a.next_subaddress_index == stored_i64(next_subaddress_index)
            &&& a.first_block == stored_i64(first_block)
            &&& a.next_block == stored_i64(next_block)
            &&& a.name@ == name
            &&& loaded_u64(a.main_subaddress_index) == main_subaddress_index
            &&& loaded_u64(a.change_subaddress_index) == change_subaddress_index
            &&& loaded_u64(a.next_subaddress_index) == next_subaddress_index
            &&& loaded_u64(a.first_block) == first_block
            &&& loaded_u64(a.next_block) == next_block
            &&& main_subaddress_index <= i64::MAX ==> a.main_subaddress_index == main_subaddress_index
            &&& change_subaddress_index <= i64::MAX ==> a.change_subaddress_index
                == change_subaddress_index
            &&& next_subaddress_index <= i64::MAX ==> a.next_subaddress_index == next_subaddress_index
            &&& first_block <= i64::MAX ==> a.first_block == first_block
            &&& next_block <= i64::MAX ==> a.next_block == next_block
        },
{
    let row = new_account_row(
        account_id,
        encrypted_account_key,
        main_subaddress_index,
        change_subaddress_index,
        next_subaddress_index,
        first_block,
        next_block,
        name,
    );
    lemma_get_after_create(t, row, main_subaddress_index, change_subaddress_index);
}

/// Getting an account after it was deleted answers `AccountNotFound` with its
/// id.
pub proof fn lemma_get_after_delete_not_found(
    t: Tables,
    hex: Seq<char>,
    found: Result<Account, DbFailure>,
    result: Result<Account, WalletDbError>,
)
    requires
        returns_lookup(apply_all(t, delete_statements(hex)), hex, found),
        get_answers(hex, found, result),
    ensures
        result matches Err(WalletDbError::AccountNotFound(text)) && text@ == hex,
{
    lemma_get_after_delete(t, hex);
}

/// The ids of the txos that a scan marks spent, from the key image at
/// position `i` on: the single match of each key image that has one.
pub open spec fn marked_txos(s: SpendScanView, i: int, matches: Seq<Seq<Seq<char>>>) -> Set<Seq<char>>
    decreases s.keys.len() - i,
{
    if i < 0 || i >= s.keys.len() {
        Set::empty()
    } else if matches[i].len() == 1 {
        marked_txos(s, i + 1, matches).insert(matches[i][0])
    } else {
        marked_txos(s, i + 1, matches)
    }
}

/// The tables after the txos `ids` are marked spent for the scan `s`: each of
/// them that is stored gets the spent block height, the status of each that
/// the account has becomes spent, and the account's next block is the block
/// after the spent one. Nothing else changes.
pub open spec fn spend_effect(t: Tables, s: SpendScanView, ids: Set<Seq<char>>) -> Tables {
    Tables {
        accounts: if t.accounts.contains_key(s.account) {
            let r = t.accounts[s.account];
            t.accounts.insert(
                s.account,
                AccountRecord {
                    id: r.id,
                    fields: NewAccountView { next_block: s.height + 1, ..r.fields },
                },
            )
        } else {
            t.accounts
        },
        next_id: t.next_id,
        txos: Map::new(
            |id: Seq<char>| t.txos.contains_key(id),
            |id: Seq<char>|
                if ids.contains(id) {
                    TxoRecord { spent_block_height: Some(s.height), ..t.txos[id] }
                } else {
                    t.txos[id]
                },
        ),
        txo_statuses: Map::new(
            |k: (Seq<char>, Seq<char>)| t.txo_statuses.contains_key(k),
            |k: (Seq<char>, Seq<char>)|
                if k.0 == s.account && ids.contains(k.1) {
                    spent_status()
                } else {
                    t.txo_statuses[k]
                },
        ),
    }
}

/// The effect of the statements that mark one txo spent.
proof fn lemma_mark_one(t: Tables, s: SpendScanView, id: Seq<char>, ids: Set<Seq<char>>)
    ensures
        spend_effect(
            apply(
                apply(t, StatementView::MarkTxoSpent(id, s.height)),
                StatementView::SetTxoStatus(s.account, id, spent_status()),
            ),
            s,
            ids,
        ) == spend_effect(t, s, ids.insert(id)),
{
    let t1 = apply(t, StatementView::MarkTxoSpent(id, s.height));
    let t2 = apply(t1, StatementView::SetTxoStatus(s.account, id, spent_status()));
    let a = spend_effect(t2, s, ids);
    let b = spend_effect(t, s, ids.insert(id));
    assert(a.txos =~= b.txos);
    assert(a.txo_statuses =~= b.txo_statuses);
    assert(a.accounts =~= b.accounts);
}

/// Marking txos spent a second time changes nothing.
pub proof fn lemma_spend_effect_idempotent(t: Tables, s: SpendScanView, ids: Set<Seq<char>>)
    ensures
        spend_effect(spend_effect(t, s, ids), s, ids) == spend_effect(t, s, ids),
{
    let once = spend_effect(t, s, ids);
    let twice = spend_effect(once, s, ids);
    assert(twice.txos =~= once.txos);
    assert(twice.txo_statuses =~= once.txo_statuses);
    if t.accounts.contains_key(s.account) {
        let r = once.accounts[s.account];
        assert(NewAccountView { next_block: s.height + 1, ..r.fields } == r.fields);
    }
    assert(twice.accounts =~= once.accounts);
}

/// The statements of a scan from the key image at position `i` on, when
/// they all succeed, mark spent exactly the txos of `marked_txos`.
proof fn lemma_plan_effect(t: Tables, s: SpendScanView, i: int, matches: Seq<Seq<Seq<char>>>)
    requires
        0 <= i <= s.keys.len(),
        plan(s, i, matches).1 is Ok,
    ensures
        apply_all(t, plan(s, i, matches).0) == spend_effect(t, s, marked_txos(s, i, matches)),
    decreases s.keys.len() - i,
{
    let next = StatementView::SetNextBlock(s.account, s.height + 1);
    if i == s.keys.len() {
        assert(plan(s, i, matches).0 == seq![next, StatementView::CommitTransaction]);
        assert(seq![next, StatementView::CommitTransaction].drop_first() =~= seq![
            StatementView::CommitTransaction,
        ]);
        lemma_apply_all_one(apply(t, next), StatementView::CommitTransaction);
        let e = spend_effect(t, s, Set::empty());
        assert(e.txos =~= t.txos);
        assert(e.txo_statuses =~= t.txo_statuses);
        assert(e.accounts =~= apply(t, next).accounts);
    } else {
        let ids = matches[i];
        let search = StatementView::FindTxosByKeyImage(s.keys[i].0);
        let rest = plan(s, i + 1, matches).0;
        if ids.len() == 0 {
            lemma_plan_effect(t, s, i + 1, matches);
            lemma_apply_all_concat(t, seq![search], rest);
            lemma_apply_all_one(t, search);
        } else {
            let id = ids[0];
            let mark = StatementView::MarkTxoSpent(id, s.height);
            let status = StatementView::SetTxoStatus(s.account, id, spent_status());
            let logs = StatementView::UpdateTransactionsForTxo(id, s.height);
            let marks = seq![search, mark, status, logs];
            assert(marks =~= seq![search] + seq![mark, status, logs]);
            lemma_apply_all_concat(t, seq![search], seq![mark, status, logs]);
            lemma_apply_all_one(t, search);
            lemma_apply_all_three(t, mark, status, logs);
            let t1 = apply_all(t, marks);
            lemma_apply_all_concat(t, marks, rest);
            lemma_plan_effect(t1, s, i + 1, matches);
            lemma_mark_one(t, s, id, marked_txos(s, i + 1, matches));
        }
    }
}

/// The statements of a whole scan.
pub open spec fn scan_statements(s: SpendScanView, matches: Seq<Seq<Seq<char>>>) -> Seq<StatementView> {
    seq![StatementView::BeginTransaction] + plan(s, 0, matches).0
}

/// A scan whose statements all succeed marks spent each txo that is the
/// single match of a key image (its spent block height becomes the block,
/// and its status for the account becomes spent), moves the account's next
/// block to the block after it, and changes nothing else: no key image, no
/// other txo, status or account, and no row appears or goes.
pub proof fn lemma_get_after_spend(t: Tables, s: SpendScanView, matches: Seq<Seq<Seq<char>>>)
    requires
        plan(s, 0, matches).1 is Ok,
    ensures
        ({
            let after = apply_all(t, scan_statements(s, matches));
            let ids = marked_txos(s, 0, matches);
            &&& after == spend_effect(t, s, ids)
            &&& lookup(after, s.account) == match lookup(t, s.account) {
                Some(r) => Some(
                    AccountRecord {
                        id: r.id,
                        fields: NewAccountView { next_block: s.height + 1, ..r.fields },
                    },
                ),
                None => None,
            }
            &&& after.accounts.dom() == t.accounts.dom()
            &&& forall|other: Seq<char>|
                other != s.account ==> lookup(after, other) == lookup(t, other)
            &&& after.txos.dom() == t.txos.dom()
            &&& forall|id: Seq<char>| #[trigger]
                after.txos.contains_key(id) ==> after.txos[id].key_image == t.txos[id].key_image
                    && after.txos[id].spent_block_height == if ids.contains(id) {
                    Some(s.height)
                } else {
                    t.txos[id].spent_block_height
                }
            &&& after.txo_statuses.dom() == t.txo_statuses.dom()
            &&& forall|k: (Seq<char>, Seq<char>)| #[trigger]
                after.txo_statuses.contains_key(k) ==> after.txo_statuses[k] == if k.0 == s.account
                    && ids.contains(k.1) {
                    spent_status()
                } else {
                    t.txo_statuses[k]
                }
        }),
{
    lemma_apply_all_concat(t, seq![StatementView::BeginTransaction], plan(s, 0, matches).0);
    lemma_apply_all_one(t, StatementView::BeginTransaction);
    lemma_plan_effect(t, s, 0, matches);
    let after = apply_all(t, scan_statements(s, matches));
    assert(after.accounts.dom() =~= t.accounts.dom());
    assert(after.txos.dom() =~= t.txos.dom());
    assert(after.txo_statuses.dom() =~= t.txo_statuses.dom());
}

/// What a database in state `t` returns to the search for the txos whose
/// key image is `key`: the ids of exactly those txos, each once, in some
/// order.
pub open spec fn returns_search(t: Tables, key: Seq<u8>, ids: Seq<Seq<char>>) -> bool {
    &&& ids.no_duplicates()
    &&& forall|id: Seq<char>| #[trigger]
        ids.contains(id) <==> (t.txos.contains_key(id) && t.txos[id].key_image == Some(key))
}

/// Whether `matches` are what a database in state `t` returns to the
/// searches of the scan `s`, one per key image.
pub open spec fn answers_searches(t: Tables, s: SpendScanView, matches: Seq<Seq<Seq<char>>>) -> bool {
    &&& matches.len() == s.keys.len()
    &&& forall|i: int| 0 <= i < s.keys.len() ==> returns_search(t, s.keys[i].0, #[trigger] matches[i])
}

/// The search for a key image that no stored txo carries returns nothing.
pub proof fn lemma_search_for_unknown_key_image_is_empty(t: Tables, key: Seq<u8>, ids: Seq<Seq<char>>)
    requires
        returns_search(t, key, ids),
        forall|id: Seq<char>| #[trigger]
            t.txos.contains_key(id) ==> t.txos[id].key_image != Some(key),
    ensures
        ids.len() == 0,
{
    if ids.len() > 0 {
        assert(ids.contains(ids[0]));
    }
}

/// Running a successful scan again, with the same key images, changes
/// nothing: the scan changes no key image, so a database returns the second
/// run's searches what it returned the first run's, and the second run's
/// statements leave the tables as the first left them.
pub proof fn lemma_scan_twice(t: Tables, s: SpendScanView, matches: Seq<Seq<Seq<char>>>)
    requires
        answers_searches(t, s, matches),
        plan(s, 0, matches).1 is Ok,
    ensures
        ({
            let once = apply_all(t, scan_statements(s, matches));
            &&& answers_searches(once, s, matches)
            &&& apply_all(once, scan_statements(s, matches)) == once
        }),
{
    lemma_get_after_spend(t, s, matches);
    let once = apply_all(t, scan_statements(s, matches));
    lemma_get_after_spend(once, s, matches);
    lemma_spend_effect_idempotent(t, s, marked_txos(s, 0, matches));
    assert forall|i: int| 0 <= i < s.keys.len() implies returns_search(
        once,
        s.keys[i].0,
        #[trigger] matches[i],
    ) by {
        assert(returns_search(t, s.keys[i].0, matches[i]));
        assert forall|id: Seq<char>| #[trigger]
            matches[i].contains(id) <==> (once.txos.contains_key(id) && once.txos[id].key_image
                == Some(s.keys[i].0)) by {
            if once.txos.contains_key(id) {
                assert(once.txos[id].key_image == t.txos[id].key_image);
            }
            assert(once.txos.contains_key(id) == t.txos.contains_key(id));
        }
    }
}

/// The scan `s` without its key image at position `j`.
pub open spec fn without_key(s: SpendScanView, j: int) -> SpendScanView {
    SpendScanView { keys: s.keys.remove(j), ..s }
}

proof fn lemma_plan_shift(s: SpendScanView, j: int, matches: Seq<Seq<Seq<char>>>, i: int)
    requires
        0 <= j < s.keys.len(),
        matches.len() == s.keys.len(),
        j <= i <= s.keys.len() - 1,
    ensures
        plan(without_key(s, j), i, matches.remove(j)) == plan(s, i + 1, matches),
    decreases s.keys.len() - i,
{
    let s2 = without_key(s, j);
    let m2 = matches.remove(j);
    assert(s2.keys.len() == s.keys.len() - 1);
    if i < s2.keys.len() {
        assert(s2.keys[i] == s.keys[i + 1]);
        assert(m2[i] == matches[i + 1]);
        lemma_plan_shift(s, j, matches, i + 1);
    }
}

proof fn lemma_plan_prefix(t: Tables, s: SpendScanView, j: int, matches: Seq<Seq<Seq<char>>>, i: int)
    requires
        0 <= j < s.keys.len(),
        matches.len() == s.keys.len(),
        matches[j].len() == 0,
        0 <= i <= j,
    ensures
        plan(without_key(s, j), i, matches.remove(j)).1 == plan(s, i, matches).1,
        apply_all(t, plan(without_key(s, j), i, matches.remove(j)).0) == apply_all(
            t,
            plan(s, i, matches).0,
        ),
    decreases j - i,
{
    let s2 = without_key(s, j);
    let m2 = matches.remove(j);
    let search = StatementView::FindTxosByKeyImage(s.keys[i].0);
    if i == j {
        lemma_plan_shift(s, j, matches, j);
        lemma_apply_all_concat(t, seq![search], plan(s, j + 1, matches).0);
        lemma_apply_all_one(t, search);
    } else {
        assert(s2.keys[i] == s.keys[i]);
        assert(m2[i] == matches[i]);
        let ids = matches[i];
        if ids.len() == 0 {
            lemma_plan_prefix(t, s, j, matches, i + 1);
            lemma_apply_all_concat(t, seq![search], plan(s, i + 1, matches).0);
            lemma_apply_all_concat(t, seq![search], plan(s2, i + 1, m2).0);
            lemma_apply_all_one(t, search);
        } else if ids.len() == 1 {
            let marks = seq![
                search,
                StatementView::MarkTxoSpent(ids[0], s.height),
                StatementView::SetTxoStatus(s.account, ids[0], spent_status()),
                StatementView::UpdateTransactionsForTxo(ids[0], s.height),
            ];
            lemma_plan_prefix(apply_all(t, marks), s, j, matches, i + 1);
            lemma_apply_all_concat(t, marks, plan(s, i + 1, matches).0);
            lemma_apply_all_concat(t, marks, plan(s2, i + 1, m2).0);
        }
    }
}

/// A key image that matches no txo can be left out of a scan: the scan
/// without it ends with the same result, and its statements leave the
/// tables as those of the scan with it do.
pub proof fn lemma_unmatched_key_image_can_be_dropped(
    t: Tables,
    s: SpendScanView,
    matches: Seq<Seq<Seq<char>>>,
    j: int,
)
    requires
        0 <= j < s.keys.len(),
        matches.len() == s.keys.len(),
        matches[j].len() == 0,
    ensures
        plan(without_key(s, j), 0, matches.remove(j)).1 == plan(s, 0, matches).1,
        apply_all(t, scan_statements(without_key(s, j), matches.remove(j))) == apply_all(
            t,
            scan_statements(s, matches),
        ),
{
    let begin = StatementView::BeginTransaction;
    lemma_plan_prefix(apply(t, begin), s, j, matches, 0);
    lemma_apply_all_concat(t, seq![begin], plan(s, 0, matches).0);
    lemma_apply_all_concat(t, seq![begin], plan(without_key(s, j), 0, matches.remove(j)).0);
    lemma_apply_all_one(t, begin);
}

/// The scan `s` and its search answers `matches` after the key images at the
/// positions `js` are left out, one after another (each position counted in
/// the scan as it is by then).
pub open spec fn drop_keys(s: SpendScanView, matches: Seq<Seq<Seq<char>>>, js: Seq<int>) -> (
    SpendScanView,
    Seq<Seq<Seq<char>>>,
)
    decreases js.len(),
{
    if js.len() == 0 {
        (s, matches)
    } else {
        drop_keys(without_key(s, js[0]), matches.remove(js[0]), js.drop_first())
    }
}

/// Whether each key image that `js` leaves out exists and matches no txo.
pub open spec fn all_unmatched(s: SpendScanView, matches: Seq<Seq<Seq<char>>>, js: Seq<int>) -> bool
    decreases js.len(),
{
    js.len() == 0 || {
        &&& 0 <= js[0] < s.keys.len()
        &&& matches[js[0]].len() == 0
        &&& all_unmatched(without_key(s, js[0]), matches.remove(js[0]), js.drop_first())
    }
}

/// Any key images that match no txo can be left out of a scan: the scan
/// without them ends with the same result, and its statements leave the
/// tables as those of the scan with them do. (A database returns nothing to
/// the search for a key image that no stored txo carries:
/// `lemma_search_for_unknown_key_image_is_empty`.)
pub proof fn lemma_unmatched_key_images_can_be_dropped(
    t: Tables,
    s: SpendScanView,
    matches: Seq<Seq<Seq<char>>>,
    js: Seq<int>,
)
    requires
        matches.len() == s.keys.len(),
        all_unmatched(s, matches, js),
    ensures
        ({
            let (s2, m2) = drop_keys(s, matches, js);
            &&& plan(s2, 0, m2).1 == plan(s, 0, matches).1
            &&& apply_all(t, scan_statements(s2, m2)) == apply_all(t, scan_statements(s, matches))
        }),
    decreases js.len(),
{
    if js.len() > 0 {
        let j = js[0];
        lemma_unmatched_key_image_can_be_dropped(t, s, matches, j);
        lemma_unmatched_key_images_can_be_dropped(
            t,
            without_key(s, j),
            matches.remove(j),
            js.drop_first(),
        );
    }
}

/// Renaming the account `hex` to `name` (the update `AccountUpdate::rename`
/// begins), when every statement succeeds, hands out exactly
/// `rename_statements(hex, name)` (the first from `rename` itself) and then
/// succeeds.
pub proof fn lemma_rename_hands_out_rename_statements(hex: Seq<char>, name: Seq<char>)
    ensures
        ({
            let (p1, s1) = update_next(
                UpdatePhase::Opening(StatementView::SetAccountName(hex, name)),
                Ok(OutcomeView::Executed),
            );
            let (p2, s2) = update_next(p1, Ok(OutcomeView::Executed));
            let (p3, s3) = update_next(p2, Ok(OutcomeView::Executed));
            &&& seq![StatementView::BeginTransaction, run_statement(s1), run_statement(s2)]
                == rename_statements(hex, name)
            &&& s1 is Run && s2 is Run
            &&& s3 == StepView::<()>::Finished(Ok(()))
        }),
{
    let (p1, s1) = update_next(
        UpdatePhase::Opening(StatementView::SetAccountName(hex, name)),
        Ok(OutcomeView::Executed),
    );
    let (p2, s2) = update_next(p1, Ok(OutcomeView::Executed));
    assert(seq![StatementView::BeginTransaction, run_statement(s1), run_statement(s2)]
        =~= rename_statements(hex, name));
}

/// Deleting the account `hex` (the update `AccountUpdate::delete` begins),
/// when every statement succeeds, hands out exactly `delete_statements(hex)`
/// (the first from `delete` itself) and then succeeds.
pub proof fn lemma_delete_hands_out_delete_statements(hex: Seq<char>)
    ensures
        ({
            let (p1, s1) = update_next(
                UpdatePhase::Opening(StatementView::DeleteAccount(hex)),
                Ok(OutcomeView::Executed),
            );
            let (p2, s2) = update_next(p1, Ok(OutcomeView::Executed));
            let (p3, s3) = update_next(p2, Ok(OutcomeView::Executed));
            &&& seq![StatementView::BeginTransaction, run_statement(s1), run_statement(s2)]
                == delete_statements(hex)
            &&& s1 is Run && s2 is Run
            &&& s3 == StepView::<()>::Finished(Ok(()))
        }),
{
    let (p1, s1) = update_next(
        UpdatePhase::Opening(StatementView::DeleteAccount(hex)),
        Ok(OutcomeView::Executed),
    );
    let (p2, s2) = update_next(p1, Ok(OutcomeView::Executed));
    assert(seq![StatementView::BeginTransaction, run_statement(s1), run_statement(s2)]
        =~= delete_statements(hex));
}

} // verus!
