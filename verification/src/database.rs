//! The transaction ledger and the table of known mints, as values.
//!
//! The ledger holds at most one row per transaction identifier and keeps its rows
//! newest first. Balances are never stored: they are computed from the confirmed rows
//! whenever they are asked for.

use crate::error::AppError;
use crate::models::{
    MintRecord, MintRecordView, MintResponse, OperationKind, RecordStatus, TransactionRecord,
    TransactionRecordView, copy_text, text_of, transactions_of,
};
use vstd::prelude::*;
use vstd::string::*;

verus! {

/// A ledger row as stored: the record and the times of its creation and last update.
#[derive(Debug)]
pub struct StoredTransaction {
    pub record: TransactionRecord,
    pub created_at: i64,
    pub updated_at: i64,
}

pub struct StoredTransactionView {
    pub record: TransactionRecordView,
    pub created_at: i64,
    pub updated_at: i64,
}

impl View for StoredTransaction {
    type V = StoredTransactionView;

    open spec fn view(&self) -> StoredTransactionView {
        StoredTransactionView {
            record: self.record@,
            created_at: self.created_at,
            updated_at: self.updated_at,
        }
    }
}

/// The rows of the ledger, in stored order.
pub type Rows = Seq<StoredTransactionView>;

/// The largest number of rows the ledger takes: what a signed 64-bit row count holds.
pub open spec fn capacity() -> int {
    0x7fff_ffff_ffff_ffff
}

/// Whether row `i` is the row of the transaction `hash`.
pub open spec fn holds_at(rows: Rows, hash: Seq<char>, i: int) -> bool {
    0 <= i < rows.len() && rows[i].record.transaction_hash == hash
}

/// Whether the ledger has a row for the transaction `hash`.
pub open spec fn has_row(rows: Rows, hash: Seq<char>) -> bool {
    exists|i: int| holds_at(rows, hash, i)
}

/// The place of the row of the transaction `hash`, where there is one.
pub open spec fn row_of(rows: Rows, hash: Seq<char>) -> int {
    choose|i: int| holds_at(rows, hash, i)
}

/// No two rows are of the same transaction.
pub open spec fn one_row_each(rows: Rows) -> bool {
    forall|i: int, j: int|
        0 <= i < j < rows.len() ==> #[trigger] rows[i].record.transaction_hash
            != #[trigger] rows[j].record.transaction_hash
}

/// The rows are ordered by creation time, the newest first.
pub open spec fn newest_first(rows: Rows) -> bool {
    forall|i: int, j: int|
        0 <= i < j < rows.len() ==> #[trigger] rows[i].created_at >= #[trigger] rows[j].created_at
}

/// What every ledger satisfies.
pub open spec fn well_formed(rows: Rows) -> bool {
    &&& one_row_each(rows)
    &&& newest_first(rows)
    &&& rows.len() <= capacity()
}

/// The number of rows created after `now`: the place at which a row created at `now`
/// is put, in front of all that are not newer than it.
pub open spec fn newer_than(rows: Rows, now: i64) -> int
    decreases rows.len(),
{
    if rows.len() == 0 {
        0
    } else {
        newer_than(rows.drop_last(), now) + if rows.last().created_at > now {
            1int
        } else {
            0int
        }
    }
}

/// The row that replaces `row` when its transaction is recorded again: status and
/// block height are taken from the new record, the update time is refreshed, and
/// everything else stays.
pub open spec fn updated_row(
    row: StoredTransactionView,
    record: TransactionRecordView,
    now: i64,
) -> StoredTransactionView {
    StoredTransactionView {
        record: TransactionRecordView {
            status: record.status,
            block_number: record.block_number,
            ..row.record
        },
        created_at: row.created_at,
        updated_at: now,
    }
}

/// A new row for `record`, created at `now`.
pub open spec fn created_row(record: TransactionRecordView, now: i64) -> StoredTransactionView {
    StoredTransactionView { record, created_at: now, updated_at: now }
}

/// The ledger after `record` is recorded at `now`: updated in place where its
/// transaction has a row, else inserted as a new row, unless the ledger is full.
pub open spec fn after_store(rows: Rows, record: TransactionRecordView, now: i64) -> Rows {
    if has_row(rows, record.transaction_hash) {
        let i = row_of(rows, record.transaction_hash);
        rows.update(i, updated_row(rows[i], record, now))
    } else if rows.len() >= capacity() {
        rows
    } else {
        rows.insert(newer_than(rows, now), created_row(record, now))
    }
}

/// The row that replaces `row` when a different status is observed for it.
pub open spec fn restated_row(
    row: StoredTransactionView,
    status: RecordStatus,
    now: i64,
) -> StoredTransactionView {
    StoredTransactionView {
        record: TransactionRecordView { status, ..row.record },
        created_at: row.created_at,
        updated_at: now,
    }
}

/// The ledger after `status` is observed at `now` for the transaction `hash`: its
/// row takes the status where it has one with another status, and nothing else
/// changes.
pub open spec fn after_status(rows: Rows, hash: Seq<char>, status: RecordStatus, now: i64) -> Rows {
    if has_row(rows, hash) && rows[row_of(rows, hash)].record.status != status {
        let i = row_of(rows, hash);
        rows.update(i, restated_row(rows[i], status, now))
    } else {
        rows
    }
}

/// In a ledger that is ordered newest first, the rows created after `now` are
/// exactly those in front of place `p`, where all before `p` are newer and none from
/// `p` on is.
pub proof fn newer_rows_come_first(rows: Rows, now: i64, p: int)
    requires
        0 <= p <= rows.len(),
        forall|i: int| 0 <= i < p ==> (#[trigger] rows[i]).created_at > now,
        forall|i: int| p <= i < rows.len() ==> (#[trigger] rows[i]).created_at <= now,
    ensures
        newer_than(rows, now) == p,
    decreases rows.len(),
{
    if rows.len() > 0 {
        let front = rows.drop_last();
        if p == rows.len() {
            newer_rows_come_first(front, now, p - 1);
        } else {
            newer_rows_come_first(front, now, p);
        }
    }
}

/// In a ledger with one row per transaction, the row of a transaction is where any
/// row of it is found.
pub proof fn row_is_unique(rows: Rows, hash: Seq<char>, i: int)
    requires
        one_row_each(rows),
        holds_at(rows, hash, i),
    ensures
        has_row(rows, hash),
        row_of(rows, hash) == i,
{
    let chosen = row_of(rows, hash);
    assert(holds_at(rows, hash, chosen));
    if chosen < i {
        assert(rows[chosen].record.transaction_hash != rows[i].record.transaction_hash);
    } else if i < chosen {
        assert(rows[i].record.transaction_hash != rows[chosen].record.transaction_hash);
    }
}

/// All but the last row of an ordered ledger with one row per transaction are such a
/// ledger again.
pub proof fn front_keeps_order(rows: Rows)
    requires
        rows.len() > 0,
        one_row_each(rows),
        newest_first(rows),
    ensures
        one_row_each(rows.drop_last()),
        newest_first(rows.drop_last()),
{
    let front = rows.drop_last();
    assert forall|i: int, j: int| 0 <= i < j < front.len() implies
        #[trigger] front[i].record.transaction_hash
        != #[trigger] front[j].record.transaction_hash by {
        assert(rows[i].record.transaction_hash != rows[j].record.transaction_hash);
    }
    assert forall|i: int, j: int| 0 <= i < j < front.len() implies
        #[trigger] front[i].created_at >= #[trigger] front[j].created_at by {
        assert(rows[i].created_at >= rows[j].created_at);
    }
}

/// In a ledger ordered newest first, the rows created after `now` are a prefix: its
/// length is `newer_than(rows, now)`.
pub proof fn newer_rows_are_a_prefix(rows: Rows, now: i64)
    requires
        newest_first(rows),
    ensures
        0 <= newer_than(rows, now) <= rows.len(),
        forall|i: int| 0 <= i < newer_than(rows, now) ==> (#[trigger] rows[i]).created_at > now,
        forall|i: int|
            newer_than(rows, now) <= i < rows.len() ==> (#[trigger] rows[i]).created_at <= now,
    decreases rows.len(),
{
    if rows.len() > 0 {
        let front = rows.drop_last();
        assert forall|i: int, j: int| 0 <= i < j < front.len() implies
            #[trigger] front[i].created_at >= #[trigger] front[j].created_at by {
            assert(rows[i].created_at >= rows[j].created_at);
        }
        newer_rows_are_a_prefix(front, now);
        let p = newer_than(front, now);
        if rows.last().created_at > now && p < front.len() {
            assert(front[p].created_at <= now);
            assert(rows[p].created_at >= rows[rows.len() - 1].created_at);
        }
        assert forall|i: int| 0 <= i < newer_than(rows, now) implies
            (#[trigger] rows[i]).created_at > now by {
            if i < front.len() {
                assert(front[i] == rows[i]);
            }
        }
        assert forall|i: int| newer_than(rows, now) <= i < rows.len() implies
            (#[trigger] rows[i]).created_at <= now by {
            if i < front.len() {
                assert(front[i] == rows[i]);
            }
        }
    }
}

/// Replacing a row by one of the same transaction and the same creation time keeps
/// the ledger well formed.
pub proof fn replacing_keeps_well_formed(rows: Rows, i: int, row: StoredTransactionView)
    requires
        well_formed(rows),
        0 <= i < rows.len(),
        row.record.transaction_hash == rows[i].record.transaction_hash,
        row.created_at == rows[i].created_at,
    ensures
        well_formed(rows.update(i, row)),
{
    let after = rows.update(i, row);
    assert forall|a: int, b: int| 0 <= a < b < after.len() implies
        #[trigger] after[a].record.transaction_hash
        != #[trigger] after[b].record.transaction_hash by {
        assert(rows[a].record.transaction_hash != rows[b].record.transaction_hash);
    }
    assert forall|a: int, b: int| 0 <= a < b < after.len() implies
        #[trigger] after[a].created_at >= #[trigger] after[b].created_at by {
        assert(rows[a].created_at >= rows[b].created_at);
    }
}

/// Putting the row of a new transaction in front of all rows that are not newer than
/// it keeps the ledger well formed, while the ledger is not full.
pub proof fn inserting_keeps_well_formed(rows: Rows, row: StoredTransactionView)
    requires
        well_formed(rows),
        !has_row(rows, row.record.transaction_hash),
        rows.len() < capacity(),
    ensures
        well_formed(rows.insert(newer_than(rows, row.created_at), row)),
{
    let now = row.created_at;
    let p = newer_than(rows, now);
    newer_rows_are_a_prefix(rows, now);
    let after = rows.insert(p, row);
    assert forall|a: int, b: int| 0 <= a < b < after.len() implies
        #[trigger] after[a].record.transaction_hash
        != #[trigger] after[b].record.transaction_hash by {
        let old_a = if a < p { a } else { a - 1 };
        let old_b = if b < p { b } else { b - 1 };
        if a == p {
            assert(holds_at(rows, rows[old_b].record.transaction_hash, old_b));
        } else if b == p {
            assert(holds_at(rows, rows[old_a].record.transaction_hash, old_a));
        } else {
            assert(rows[old_a].record.transaction_hash != rows[old_b].record.transaction_hash);
        }
    }
    assert forall|a: int, b: int| 0 <= a < b < after.len() implies
        #[trigger] after[a].created_at >= #[trigger] after[b].created_at by {
        let old_a = if a < p { a } else { a - 1 };
        let old_b = if b < p { b } else { b - 1 };
        if a == p {
            assert(rows[old_b].created_at <= now);
        } else if b == p {
            assert(rows[old_a].created_at > now);
        } else {
            assert(rows[old_a].created_at >= rows[old_b].created_at);
        }
    }
}

/// Recording a transaction keeps the ledger well formed.
pub proof fn store_keeps_well_formed(rows: Rows, record: TransactionRecordView, now: i64)
    requires
        well_formed(rows),
    ensures
        well_formed(after_store(rows, record, now)),
{
    let hash = record.transaction_hash;
    if has_row(rows, hash) {
        let i = row_of(rows, hash);
        assert(holds_at(rows, hash, i));
        replacing_keeps_well_formed(rows, i, updated_row(rows[i], record, now));
    } else if rows.len() < capacity() {
        inserting_keeps_well_formed(rows, created_row(record, now));
    }
}

/// Observing a status keeps the ledger well formed.
pub proof fn status_keeps_well_formed(rows: Rows, hash: Seq<char>, status: RecordStatus, now: i64)
    requires
        well_formed(rows),
    ensures
        well_formed(after_status(rows, hash, status, now)),
{
    if has_row(rows, hash) && rows[row_of(rows, hash)].record.status != status {
        let i = row_of(rows, hash);
        assert(holds_at(rows, hash, i));
        replacing_keeps_well_formed(rows, i, restated_row(rows[i], status, now));
    }
}

/// The rows that the user `user` asked for, in stored order.
pub open spec fn user_rows(rows: Rows, user: u128) -> Rows
    decreases rows.len(),
{
    if rows.len() == 0 {
        Seq::empty()
    } else if rows.last().record.user_id == user {
        user_rows(rows.drop_last(), user).push(rows.last())
    } else {
        user_rows(rows.drop_last(), user)
    }
}

/// The records of rows, in order.
pub open spec fn records_of(rows: Rows) -> Seq<TransactionRecordView> {
    rows.map_values(|row: StoredTransactionView| row.record)
}

/// The part of a history that a page of `limit` rows after the first `offset` shows.
pub open spec fn page_of<T>(history: Seq<T>, limit: int, offset: int) -> Seq<T>
    recommends
        0 <= limit,
        0 <= offset,
{
    let start = if offset < history.len() {
        offset
    } else {
        history.len() as int
    };
    let end = if offset + limit < history.len() {
        offset + limit
    } else {
        history.len() as int
    };
    history.subrange(start, end)
}

/// What a record adds to the balance of `holder`: a confirmed record of the mint
/// credits its amount to the destination, and a transfer debits it from the source.
/// A record that is not confirmed, or of another mint, adds nothing.
pub open spec fn posting(record: TransactionRecordView, holder: Seq<char>, mint: Seq<char>) -> int {
    if record.status == RecordStatus::Confirmed && record.token_address == mint {
        credit(record, holder) - debit(record, holder)
    } else {
        0
    }
}

/// What a record credits to `holder`.
pub open spec fn credit(record: TransactionRecordView, holder: Seq<char>) -> int {
    if record.to_address == Some(holder) {
        record.amount as int
    } else {
        0
    }
}

/// What a record debits from `holder`.
pub open spec fn debit(record: TransactionRecordView, holder: Seq<char>) -> int {
    if record.transaction_type == OperationKind::Transfer && record.from_address == Some(holder) {
        record.amount as int
    } else {
        0
    }
}

/// Whether a record touches the balance that `holder` has of `mint`.
pub open spec fn touches(
    record: TransactionRecordView,
    holder: Seq<char>,
    mint: Seq<char>,
) -> bool {
    &&& record.status == RecordStatus::Confirmed
    &&& record.token_address == mint
    &&& (record.to_address == Some(holder) || (record.transaction_type == OperationKind::Transfer
        && record.from_address == Some(holder)))
}

/// Whether `holder` has confirmed activity in `mint`.
pub open spec fn is_active(rows: Rows, holder: Seq<char>, mint: Seq<char>) -> bool {
    exists|i: int| 0 <= i < rows.len() && touches((#[trigger] rows[i]).record, holder, mint)
}

/// The balance that `holder` has of `mint`: the sum of the postings of all rows.
pub open spec fn balance_of(rows: Rows, holder: Seq<char>, mint: Seq<char>) -> int
    decreases rows.len(),
{
    if rows.len() == 0 {
        0
    } else {
        balance_of(rows.drop_last(), holder, mint) + posting(rows.last().record, holder, mint)
    }
}

/// One line of a holder's balances.
#[derive(Debug)]
pub struct TokenBalance {
    pub mint_address: String,
    pub decimals: i16,
    pub balance: i128,
}

pub struct TokenBalanceView {
    pub mint_address: Seq<char>,
    pub decimals: i16,
    pub balance: int,
}

impl View for TokenBalance {
    type V = TokenBalanceView;

    open spec fn view(&self) -> TokenBalanceView {
        TokenBalanceView {
            mint_address: self.mint_address@,
            decimals: self.decimals,
            balance: self.balance as int,
        }
    }
}

/// The balances of a list, in order.
pub open spec fn lines_of(list: Seq<TokenBalance>) -> Seq<TokenBalanceView> {
    list.map_values(|line: TokenBalance| line@)
}

/// The balances of `holder`: one line for each known mint in which the holder has
/// confirmed activity, in the order of the table of mints.
pub open spec fn balances_of(rows: Rows, mints: Seq<MintRecordView>, holder: Seq<char>) -> Seq<
    TokenBalanceView,
>
    decreases mints.len(),
{
    if mints.len() == 0 {
        Seq::empty()
    } else {
        let front = balances_of(rows, mints.drop_last(), holder);
        let mint = mints.last();
        if is_active(rows, holder, mint.mint_address) {
            front.push(
                TokenBalanceView {
                    mint_address: mint.mint_address,
                    decimals: mint.decimals,
                    balance: balance_of(rows, holder, mint.mint_address),
                },
            )
        } else {
            front
        }
    }
}

/// The row under which the mint of a reply is stored with the row id `id` at `now`.
pub open spec fn mint_row(reply: MintResponse, id: u128, now: i64) -> MintRecordView {
    MintRecordView {
        id,
        mint_address: reply.mint_address@,
        decimals: reply.decimals as i16,
        mint_authority: reply.mint_authority@,
        freeze_authority: text_of(reply.freeze_authority),
        created_at: now,
    }
}

/// The table of mints after `mint` is stored: a mint that the table knows already is
/// left as it is.
pub open spec fn after_mint(
    mints: Seq<MintRecordView>,
    mint: MintRecordView,
) -> Seq<MintRecordView> {
    if knows_mint(mints, mint.mint_address) {
        mints
    } else {
        mints.push(mint)
    }
}

/// No balance is out of the range of a signed 128-bit number while the ledger is
/// within its capacity.
pub proof fn balance_is_bounded(rows: Rows, holder: Seq<char>, mint: Seq<char>)
    ensures
        -rows.len() * 0xffff_ffff_ffff_ffff <= balance_of(rows, holder, mint) <= rows.len()
            * 0xffff_ffff_ffff_ffff,
    decreases rows.len(),
{
    if rows.len() > 0 {
        balance_is_bounded(rows.drop_last(), holder, mint);
        let n = rows.len() as int;
        assert((n - 1) * 0xffff_ffff_ffff_ffff + 0xffff_ffff_ffff_ffff == n * 0xffff_ffff_ffff_ffff)
            by (nonlinear_arith);
        assert(-(n - 1) * 0xffff_ffff_ffff_ffff - 0xffff_ffff_ffff_ffff == -n
            * 0xffff_ffff_ffff_ffff) by (nonlinear_arith);
    }
}

/// A holder is active in the rows exactly if active in all but the last, or touched
/// by the last.
pub proof fn activity_grows_by_rows(rows: Rows, holder: Seq<char>, mint: Seq<char>)
    requires
        rows.len() > 0,
    ensures
        is_active(rows, holder, mint) == (is_active(rows.drop_last(), holder, mint) || touches(
            rows.last().record,
            holder,
            mint,
        )),
{
    let front = rows.drop_last();
    if is_active(rows, holder, mint) {
        let i = choose|i: int|
            0 <= i < rows.len() && touches((#[trigger] rows[i]).record, holder, mint);
        if i < front.len() {
            assert(touches(front[i].record, holder, mint));
        }
    }
    if is_active(front, holder, mint) {
        let i = choose|i: int|
            0 <= i < front.len() && touches((#[trigger] front[i]).record, holder, mint);
        assert(touches(rows[i].record, holder, mint));
    }
    if touches(rows.last().record, holder, mint) {
        assert(touches(rows[rows.len() - 1].record, holder, mint));
    }
}

/// The rows of a list of stored rows.
pub open spec fn rows_of(list: Seq<StoredTransaction>) -> Rows {
    list.map_values(|row: StoredTransaction| row@)
}

/// The rows of a list of mint records.
pub open spec fn mints_of(list: Seq<MintRecord>) -> Seq<MintRecordView> {
    list.map_values(|mint: MintRecord| mint@)
}

/// Whether the table of mints knows the mint `address`.
pub open spec fn knows_mint(mints: Seq<MintRecordView>, address: Seq<char>) -> bool {
    exists|i: int| 0 <= i < mints.len() && (#[trigger] mints[i]).mint_address == address
}

/// No two rows of the table are of the same mint.
pub open spec fn one_row_per_mint(mints: Seq<MintRecordView>) -> bool {
    forall|i: int, j: int|
        0 <= i < j < mints.len() ==> #[trigger] mints[i].mint_address
            != #[trigger] mints[j].mint_address
}

/// The ledger store: the transaction rows and the table of known mints.
#[derive(Debug)]
pub struct DatabaseService {
    transactions: Vec<StoredTransaction>,
    mints: Vec<MintRecord>,
}

impl DatabaseService {
    /// The transaction rows, newest first.
    pub closed spec fn rows(&self) -> Rows {
        rows_of(self.transactions@)
    }

    /// The known mints, in the order in which they were stored.
    pub closed spec fn mints(&self) -> Seq<MintRecordView> {
        mints_of(self.mints@)
    }

    #[verifier::type_invariant]
    spec fn valid(self) -> bool {
        &&& well_formed(rows_of(self.transactions@))
        &&& one_row_per_mint(mints_of(self.mints@))
    }

    /// An empty store.
    pub fn new() -> (store: DatabaseService)
        ensures
            store.rows() == Seq::<StoredTransactionView>::empty(),
            store.mints() == Seq::<MintRecordView>::empty(),
    {
        let store = DatabaseService { transactions: Vec::new(), mints: Vec::new() };
        assert(store.rows() =~= Seq::<StoredTransactionView>::empty());
        assert(store.mints() =~= Seq::<MintRecordView>::empty());
        store
    }

    /// The place of the row of the transaction `hash`, if it has one.
    fn find_row(&self, hash: &String) -> (found: Option<usize>)
        ensures
            match found {
                Some(i) => holds_at(self.rows(), hash@, i as int),
                None => !has_row(self.rows(), hash@),
            },
    {
        let mut i: usize = 0;
        while i < self.transactions.len()
            invariant
                i <= self.transactions.len(),
                forall|j: int| 0 <= j < i ==> !holds_at(self.rows(), hash@, j),
            decreases self.transactions.len() - i,
        {
            if self.transactions[i].record.transaction_hash == *hash {
                return Some(i);
            }
            i += 1;
        }
        None
    }

    /// The place at which a row created at `now` is put.
    fn find_slot(&self, now: i64) -> (slot: usize)
        ensures
            slot as int == newer_than(self.rows(), now),
            slot <= self.rows().len(),
    {
        proof {
            use_type_invariant(self);
        }
        let mut i: usize = 0;
        while i < self.transactions.len() && self.transactions[i].created_at > now
            invariant
                i <= self.transactions.len(),
                forall|j: int| 0 <= j < i ==> (#[trigger] self.rows()[j]).created_at > now,
            decreases self.transactions.len() - i,
        {
            i += 1;
        }
        proof {
            let rows = self.rows();
            assert forall|j: int| i <= j < rows.len() implies (#[trigger] rows[j]).created_at
                <= now by {
                assert(rows[i as int].created_at <= now);
                if i < j {
                    assert(rows[i as int].created_at >= rows[j].created_at);
                }
            }
            newer_rows_come_first(rows, now, i as int);
        }
        i
    }

    /// Puts `replacement` in the place of row `i`, which is of the same transaction
    /// and was created at the same time.
    fn replace_row(&mut self, i: usize, replacement: StoredTransaction)
        requires
            i < old(self).rows().len(),
            replacement@.record.transaction_hash
                == old(self).rows()[i as int].record.transaction_hash,
            replacement@.created_at == old(self).rows()[i as int].created_at,
        ensures
            final(self).rows() == old(self).rows().update(i as int, replacement@),
            final(self).mints() == old(self).mints(),
    {
        proof {
            use_type_invariant(&*self);
            replacing_keeps_well_formed(self.rows(), i as int, replacement@);
        }
        let ghost before = self.rows();
        let mut rows: Vec<StoredTransaction> = Vec::new();
        core::mem::swap(&mut self.transactions, &mut rows);
        rows.set(i, replacement);
        assert(rows_of(rows@) =~= before.update(i as int, replacement@));
        self.transactions = rows;
    }

    /// Puts the row of a new transaction in front of all rows that are not newer.
    fn insert_row(&mut self, row: StoredTransaction)
        requires
            !has_row(old(self).rows(), row@.record.transaction_hash),
            old(self).rows().len() < capacity(),
        ensures
            final(self).rows() == old(self).rows().insert(
                newer_than(old(self).rows(), row@.created_at),
                row@,
            ),
            final(self).mints() == old(self).mints(),
    {
        proof {
            use_type_invariant(&*self);
            inserting_keeps_well_formed(self.rows(), row@);
        }
        let ghost before = self.rows();
        let slot = self.find_slot(row.created_at);
        let mut rows: Vec<StoredTransaction> = Vec::new();
        core::mem::swap(&mut self.transactions, &mut rows);
        rows.insert(slot, row);
        assert(rows_of(rows@) =~= before.insert(slot as int, row@));
        self.transactions = rows;
    }

    /// Records the outcome of an operation. Where the transaction has no row yet, one
    /// is created; where it has one, only status, block height and update time
    /// change. A new row is refused only where the ledger is full.
    pub fn store_transaction(&mut self, transaction: &TransactionRecord, now: i64) -> (stored:
        Result<(), AppError>)
        ensures
            final(self).rows() == after_store(old(self).rows(), transaction@, now),
            final(self).mints() == old(self).mints(),
            well_formed(old(self).rows()),
            well_formed(final(self).rows()),
            match stored {
                Ok(_) => has_row(old(self).rows(), transaction@.transaction_hash) || old(
                    self,
                ).rows().len() < capacity(),
                Err(e) => !has_row(old(self).rows(), transaction@.transaction_hash) && old(
                    self,
                ).rows().len() >= capacity() && e.is_storage("The ledger is full"@),
            },
    {
        proof {
            use_type_invariant(&*self);
            store_keeps_well_formed(self.rows(), transaction@, now);
        }
        let ghost before = self.rows();
        match self.find_row(&transaction.transaction_hash) {
            Some(i) => {
                proof {
                    row_is_unique(before, transaction@.transaction_hash, i as int);
                }
                let mut record = self.transactions[i].record.duplicate();
                record.status = transaction.status;
                record.block_number = transaction.block_number;
                let created_at = self.transactions[i].created_at;
                let replacement = StoredTransaction { record, created_at, updated_at: now };
                assert(replacement@ == updated_row(before[i as int], transaction@, now));
                self.replace_row(i, replacement);
                Ok(())
            },
            None => {
                if self.transactions.len() as u64 >= 0x7fff_ffff_ffff_ffff {
                    Err(AppError::Database(String::from_str("The ledger is full")))
                } else {
                    let row = StoredTransaction {
                        record: transaction.duplicate(),
                        created_at: now,
                        updated_at: now,
                    };
                    self.insert_row(row);
                    Ok(())
                }
            },
        }
    }

    /// The number of transaction rows.
    pub fn transaction_count(&self) -> (count: usize)
        ensures
            count == self.rows().len(),
    {
        self.transactions.len()
    }

    /// The stored row of the transaction `transaction_hash`, if it has one.
    pub fn get_transaction(&self, transaction_hash: &str) -> (found: Option<StoredTransaction>)
        ensures
            well_formed(self.rows()),
            match found {
                Some(row) => has_row(self.rows(), transaction_hash@) && row@ == self.rows()[row_of(
                    self.rows(),
                    transaction_hash@,
                )],
                None => !has_row(self.rows(), transaction_hash@),
            },
    {
        proof {
            use_type_invariant(self);
        }
        let hash = String::from_str(transaction_hash);
        match self.find_row(&hash) {
            Some(i) => {
                proof {
                    row_is_unique(self.rows(), hash@, i as int);
                }
                let row = &self.transactions[i];
                Some(
                    StoredTransaction {
                        record: row.record.duplicate(),
                        created_at: row.created_at,
                        updated_at: row.updated_at,
                    },
                )
            },
            None => None,
        }
    }

    /// Applies the status that the network reports for a transaction. Its row takes
    /// the status and a fresh update time where the status differs from the stored
    /// one; a transaction without a row changes nothing. Returns whether a row changed.
    pub fn update_transaction_status(
        &mut self,
        transaction_hash: &str,
        status: RecordStatus,
        now: i64,
    ) -> (changed: bool)
        ensures
            final(self).rows() == after_status(old(self).rows(), transaction_hash@, status, now),
            final(self).mints() == old(self).mints(),
            well_formed(old(self).rows()),
            well_formed(final(self).rows()),
            changed == (has_row(old(self).rows(), transaction_hash@) && old(self).rows()[row_of(
                old(self).rows(),
                transaction_hash@,
            )].record.status != status),
    {
        proof {
            use_type_invariant(&*self);
            status_keeps_well_formed(self.rows(), transaction_hash@, status, now);
        }
        let ghost before = self.rows();
        let hash = String::from_str(transaction_hash);
        match self.find_row(&hash) {
            Some(i) => {
                proof {
                    row_is_unique(before, hash@, i as int);
                }
                if self.transactions[i].record.status == status {
                    false
                } else {
                    let mut record = self.transactions[i].record.duplicate();
                    record.status = status;
                    let created_at = self.transactions[i].created_at;
                    let replacement = StoredTransaction { record, created_at, updated_at: now };
                    assert(replacement@ == restated_row(before[i as int], status, now));
                    self.replace_row(i, replacement);
                    true
                }
            },
            None => false,
        }
    }

    /// The place of the row of the mint `address`, if the table knows it.
    fn find_mint(&self, address: &String) -> (found: Option<usize>)
        ensures
            match found {
                Some(i) => i < self.mints().len() && self.mints()[i as int].mint_address
                    == address@,
                None => !knows_mint(self.mints(), address@),
            },
    {
        let mut i: usize = 0;
        while i < self.mints.len()
            invariant
                i <= self.mints.len(),
                forall|j: int| 0 <= j < i ==> (#[trigger] self.mints()[j]).mint_address != address@,
            decreases self.mints.len() - i,
        {
            if self.mints[i].mint_address == *address {
                return Some(i);
            }
            i += 1;
        }
        None
    }

    /// Stores a newly created mint under the row id `id`. A mint that the table knows
    /// already is left as it is. Returns whether a row was added.
    pub fn store_mint_info(&mut self, mint: &MintResponse, id: u128, now: i64) -> (added: bool)
        ensures
            final(self).mints() == after_mint(old(self).mints(), mint_row(*mint, id, now)),
            final(self).rows() == old(self).rows(),
            one_row_per_mint(final(self).mints()),
            added == !knows_mint(old(self).mints(), mint.mint_address@),
    {
        proof {
            use_type_invariant(&*self);
        }
        let ghost before = self.mints();
        match self.find_mint(&mint.mint_address) {
            Some(_) => false,
            None => {
                let row = MintRecord {
                    id,
                    mint_address: mint.mint_address.clone(),
                    decimals: mint.decimals as i16,
                    mint_authority: mint.mint_authority.clone(),
                    freeze_authority: copy_text(&mint.freeze_authority),
                    created_at: now,
                };
                let mut mints: Vec<MintRecord> = Vec::new();
                core::mem::swap(&mut self.mints, &mut mints);
                mints.push(row);
                assert(mints_of(mints@) =~= before.push(mint_row(*mint, id, now)));
                self.mints = mints;
                true
            },
        }
    }

    /// The stored row of the mint `mint_address`, if the table knows it.
    pub fn get_mint_info(&self, mint_address: &str) -> (found: Option<MintRecord>)
        ensures
            match found {
                Some(mint) => mint@.mint_address == mint_address@ && exists|i: int|
                    0 <= i < self.mints().len() && #[trigger] self.mints()[i] == mint@,
                None => !knows_mint(self.mints(), mint_address@),
            },
    {
        let address = String::from_str(mint_address);
        match self.find_mint(&address) {
            Some(i) => {
                let mint = self.mints[i].duplicate();
                assert(self.mints()[i as int] == mint@);
                Some(mint)
            },
            None => None,
        }
    }

    /// One page of the history of the user `user_id`, newest first: at most `limit`
    /// records after the first `offset`. A negative limit or offset is refused as the
    /// relational store refuses it.
    pub fn get_user_transactions(&self, user_id: u128, limit: i64, offset: i64) -> (page: Result<
        Vec<TransactionRecord>,
        AppError,
    >)
        ensures
            well_formed(self.rows()),
            match page {
                Ok(records) => limit >= 0 && offset >= 0 && transactions_of(records@) == page_of(
                    records_of(user_rows(self.rows(), user_id)),
                    limit as int,
                    offset as int,
                ),
                Err(e) => if limit < 0 {
                    e.is_storage("LIMIT must not be negative"@)
                } else {
                    offset < 0 && e.is_storage("OFFSET must not be negative"@)
                },
            },
    {
        proof {
            use_type_invariant(self);
        }
        if limit < 0 {
            return Err(AppError::Database(String::from_str("LIMIT must not be negative")));
        }
        if offset < 0 {
            return Err(AppError::Database(String::from_str("OFFSET must not be negative")));
        }
        let skip = offset as u64;
        let take = limit as u64;
        let ghost rows = self.rows();
        let mut records: Vec<TransactionRecord> = Vec::new();
        let mut seen: u64 = 0;
        let mut i: usize = 0;
        assert(rows.take(0) =~= Seq::<StoredTransactionView>::empty());
        while i < self.transactions.len()
            invariant
                rows == self.rows(),
                skip == offset,
                take == limit,
                0 <= limit,
                0 <= offset,
                i <= self.transactions.len(),
                seen <= i,
                seen == user_rows(rows.take(i as int), user_id).len(),
                transactions_of(records@) == page_of(
                    records_of(user_rows(rows.take(i as int), user_id)),
                    limit as int,
                    offset as int,
                ),
            decreases self.transactions.len() - i,
        {
            let ghost history = records_of(user_rows(rows.take(i as int), user_id));
            proof {
                assert(rows.take(i + 1).drop_last() =~= rows.take(i as int));
                assert(rows.take(i + 1).last() == rows[i as int]);
            }
            if self.transactions[i].record.user_id == user_id {
                proof {
                    assert(records_of(user_rows(rows.take(i + 1), user_id)) =~= history.push(
                        rows[i as int].record,
                    ));
                }
                if seen >= skip && seen - skip < take {
                    let ghost front = transactions_of(records@);
                    let copy = self.transactions[i].record.duplicate();
                    assert(copy@ == rows[i as int].record);
                    records.push(copy);
                    assert(transactions_of(records@) =~= front.push(rows[i as int].record));
                    assert(history.len() == seen);
                    assert(transactions_of(records@) =~= page_of(
                        history.push(rows[i as int].record),
                        limit as int,
                        offset as int,
                    ));
                } else {
                    assert(transactions_of(records@) =~= page_of(
                        history.push(rows[i as int].record),
                        limit as int,
                        offset as int,
                    ));
                }
                seen += 1;
            }
            i += 1;
        }
        assert(rows.take(i as int) =~= rows);
        Ok(records)
    }

    /// Whether `holder` has confirmed activity in `mint`, and the balance.
    fn holding(&self, holder: &String, mint: &String) -> (held: (bool, i128))
        ensures
            held.0 == is_active(self.rows(), holder@, mint@),
            held.1 == balance_of(self.rows(), holder@, mint@),
    {
        proof {
            use_type_invariant(self);
        }
        let ghost rows = self.rows();
        let mut active = false;
        let mut sum: i128 = 0;
        let mut i: usize = 0;
        assert(rows.take(0) =~= Seq::<StoredTransactionView>::empty());
        while i < self.transactions.len()
            invariant
                rows == self.rows(),
                rows.len() <= capacity(),
                i <= self.transactions.len(),
                active == is_active(rows.take(i as int), holder@, mint@),
                sum == balance_of(rows.take(i as int), holder@, mint@),
            decreases self.transactions.len() - i,
        {
            proof {
                assert(rows.take(i + 1).drop_last() =~= rows.take(i as int));
                assert(rows.take(i + 1).last() == rows[i as int]);
                activity_grows_by_rows(rows.take(i + 1), holder@, mint@);
                balance_is_bounded(rows.take(i as int), holder@, mint@);
                balance_is_bounded(rows.take(i + 1), holder@, mint@);
                let n = i as int;
                assert(n * 0xffff_ffff_ffff_ffff <= 0x7fff_ffff_ffff_fffe * 0xffff_ffff_ffff_ffff)
                    by (nonlinear_arith)
                    requires
                        0 <= n <= 0x7fff_ffff_ffff_fffe,
                ;
            }
            let record = &self.transactions[i].record;
            if record.status == RecordStatus::Confirmed && record.token_address == *mint {
                let credited = match &record.to_address {
                    Some(to) => *to == *holder,
                    None => false,
                };
                let from_holder = match &record.from_address {
                    Some(from) => *from == *holder,
                    None => false,
                };
                let debited = record.transaction_type == OperationKind::Transfer && from_holder;
                if credited {
                    sum = sum + record.amount as i128;
                }
                if debited {
                    sum = sum - record.amount as i128;
                }
                if credited || debited {
                    active = true;
                }
            }
            i += 1;
        }
        assert(rows.take(i as int) =~= rows);
        (active, sum)
    }

    /// The balance that `holder` has of `mint`, computed from the confirmed rows. It
    /// is zero where the holder has no confirmed activity in the mint.
    pub fn get_token_balance(&self, holder: &str, mint: &str) -> (balance: i128)
        ensures
            balance == balance_of(self.rows(), holder@, mint@),
    {
        let held = self.holding(&String::from_str(holder), &String::from_str(mint));
        held.1
    }

    /// The balances of `holder`, one line for each known mint in which the holder
    /// has confirmed activity.
    pub fn get_user_token_balances(&self, holder: &str) -> (lines: Vec<TokenBalance>)
        ensures
            lines_of(lines@) == balances_of(self.rows(), self.mints(), holder@),
    {
        let holder = String::from_str(holder);
        let ghost mints = self.mints();
        let mut lines: Vec<TokenBalance> = Vec::new();
        let mut i: usize = 0;
        assert(mints.take(0) =~= Seq::<MintRecordView>::empty());
        assert(lines_of(lines@) =~= Seq::<TokenBalanceView>::empty());
        while i < self.mints.len()
            invariant
                mints == self.mints(),
                i <= self.mints.len(),
                lines_of(lines@) == balances_of(self.rows(), mints.take(i as int), holder@),
            decreases self.mints.len() - i,
        {
            proof {
                assert(mints.take(i + 1).drop_last() =~= mints.take(i as int));
                assert(mints.take(i + 1).last() == mints[i as int]);
            }
            let held = self.holding(&holder, &self.mints[i].mint_address);
            if held.0 {
                let ghost front = lines_of(lines@);
                let line = TokenBalance {
                    mint_address: self.mints[i].mint_address.clone(),
                    decimals: self.mints[i].decimals,
                    balance: held.1,
                };
                lines.push(line);
                assert(lines_of(lines@) =~= front.push(line@));
            }
            i += 1;
        }
        assert(mints.take(i as int) =~= mints);
        lines
    }
}

} // verus!
