//! What holds of the plans and of the ledger across calls.

use crate::assembler::{create_mint_plan, must_sign, signer_set};
use crate::blockchain::{observed_status, TokenOperationView};
use crate::instruction::create_token_account_instruction;
use crate::database::{
    after_status, after_store, balance_of, capacity, credit, debit, has_row, holds_at,
    front_keeps_order, newer_rows_are_a_prefix, newer_than, newest_first, one_row_each,
    page_of, posting,
    records_of, row_is_unique, row_of, store_keeps_well_formed, user_rows, well_formed, Rows,
};
use crate::models::{OperationKind, RecordStatus, TransactionRecordView};
use vstd::prelude::*;

verus! {

/// Recording a transaction a second time leaves exactly one row for it. The row has
/// the status and the block height of the second record; everything else is as the
/// first recording left it, which for a transaction that was new is as first recorded.
/// The first recording must have been taken: the transaction had a row, or the ledger
/// was not full.
pub proof fn recording_twice_keeps_one_row(
    rows: Rows,
    first: TransactionRecordView,
    first_time: i64,
    second: TransactionRecordView,
    second_time: i64,
)
    requires
        well_formed(rows),
        first.transaction_hash == second.transaction_hash,
        has_row(rows, first.transaction_hash) || rows.len() < capacity(),
    ensures
        ({
            let hash = first.transaction_hash;
            let once = after_store(rows, first, first_time);
            let twice = after_store(once, second, second_time);
            let kept = once[row_of(once, hash)];
            let last = twice[row_of(twice, hash)];
            &&& has_row(once, hash)
            &&& has_row(twice, hash)
            &&& twice.len() == once.len()
            &&& once.len() == if has_row(rows, hash) {
                rows.len()
            } else {
                rows.len() + 1
            }
            &&& forall|i: int, j: int|
                holds_at(twice, hash, i) && holds_at(twice, hash, j) ==> i == j
            &&& last.record == (TransactionRecordView {
                status: second.status,
                block_number: second.block_number,
                ..kept.record
            })
            &&& last.created_at == kept.created_at
            &&& last.updated_at == second_time
            &&& !has_row(rows, hash) ==> kept.record == first
        }),
{
    let hash = first.transaction_hash;
    let once = after_store(rows, first, first_time);
    store_keeps_well_formed(rows, first, first_time);
    if has_row(rows, hash) {
        let i = row_of(rows, hash);
        assert(holds_at(rows, hash, i));
        assert(holds_at(once, hash, i));
    } else {
        let p = newer_than(rows, first_time);
        newer_rows_are_a_prefix(rows, first_time);
        assert(holds_at(once, hash, p));
    }
    let k = row_of(once, hash);
    assert(holds_at(once, hash, k));
    let twice = after_store(once, second, second_time);
    store_keeps_well_formed(once, second, second_time);
    assert(holds_at(twice, hash, k));
    row_is_unique(twice, hash, k);
    assert forall|i: int, j: int| holds_at(twice, hash, i) && holds_at(twice, hash, j) implies i
        == j by {
        row_is_unique(twice, hash, i);
        row_is_unique(twice, hash, j);
    }
    if !has_row(rows, hash) {
        let p = newer_than(rows, first_time);
        row_is_unique(once, hash, p);
    }
}

/// No row is ever deleted: a transaction that has a row keeps one through every
/// recording and every observed status, and the ledger never shrinks.
pub proof fn rows_are_never_deleted(
    rows: Rows,
    kept: Seq<char>,
    record: TransactionRecordView,
    hash: Seq<char>,
    status: RecordStatus,
    now: i64,
)
    requires
        well_formed(rows),
        has_row(rows, kept),
    ensures
        has_row(after_store(rows, record, now), kept),
        has_row(after_status(rows, hash, status, now), kept),
        after_store(rows, record, now).len() >= rows.len(),
        after_status(rows, hash, status, now).len() == rows.len(),
{
    let k = row_of(rows, kept);
    assert(holds_at(rows, kept, k));
    let stored = after_store(rows, record, now);
    if has_row(rows, record.transaction_hash) {
        let i = row_of(rows, record.transaction_hash);
        assert(holds_at(rows, record.transaction_hash, i));
        assert(holds_at(stored, kept, k));
    } else if rows.len() < capacity() {
        let p = newer_than(rows, now);
        newer_rows_are_a_prefix(rows, now);
        if k < p {
            assert(holds_at(stored, kept, k));
        } else {
            assert(holds_at(stored, kept, k + 1));
        }
    }
    let restated = after_status(rows, hash, status, now);
    if has_row(rows, hash) {
        let i = row_of(rows, hash);
        assert(holds_at(rows, hash, i));
    }
    assert(holds_at(restated, kept, k));
}

/// A status observed for a transaction that the ledger has no row for changes no row,
/// whatever the status; and what the network does not know is reported as not found.
pub proof fn unknown_transaction_changes_nothing(
    rows: Rows,
    hash: Seq<char>,
    status: RecordStatus,
    now: i64,
)
    requires
        !has_row(rows, hash),
    ensures
        after_status(rows, hash, status, now) == rows,
        observed_status(None) == RecordStatus::NotFound,
{
}

/// Every row of a user's history is a row of the ledger, and the history keeps the
/// order of the ledger.
pub proof fn history_keeps_order(rows: Rows, user: u128)
    requires
        one_row_each(rows),
        newest_first(rows),
    ensures
        user_rows(rows, user).len() <= rows.len(),
        forall|k: int|
            0 <= k < user_rows(rows, user).len() ==> exists|i: int|
                0 <= i < rows.len() && #[trigger] rows[i] == #[trigger] user_rows(rows, user)[k],
        one_row_each(user_rows(rows, user)),
        newest_first(user_rows(rows, user)),
    decreases rows.len(),
{
    if rows.len() > 0 {
        let front = rows.drop_last();
        let last = rows.len() - 1;
        front_keeps_order(rows);
        history_keeps_order(front, user);
        let earlier = user_rows(front, user);
        let history = user_rows(rows, user);
        assert forall|k: int| 0 <= k < history.len() implies exists|i: int|
            0 <= i < rows.len() && #[trigger] rows[i] == #[trigger] history[k] by {
            if k < earlier.len() {
                let i = choose|i: int|
                    0 <= i < front.len() && #[trigger] front[i] == #[trigger] earlier[k];
                assert(rows[i] == history[k]);
            } else {
                assert(rows[last] == history[k]);
            }
        }
        if rows[last].record.user_id == user {
            assert forall|a: int, b: int| 0 <= a < b < history.len() implies
                #[trigger] history[a].record.transaction_hash
                != #[trigger] history[b].record.transaction_hash by {
                if b < earlier.len() {
                    assert(earlier[a].record.transaction_hash
                        != earlier[b].record.transaction_hash);
                } else {
                    let i = choose|i: int|
                        0 <= i < front.len() && #[trigger] front[i] == #[trigger] earlier[a];
                    assert(rows[i].record.transaction_hash != rows[last].record.transaction_hash);
                }
            }
            assert forall|a: int, b: int| 0 <= a < b < history.len() implies
                #[trigger] history[a].created_at >= #[trigger] history[b].created_at by {
                if b < earlier.len() {
                    assert(earlier[a].created_at >= earlier[b].created_at);
                } else {
                    let i = choose|i: int|
                        0 <= i < front.len() && #[trigger] front[i] == #[trigger] earlier[a];
                    assert(rows[i].created_at >= rows[last].created_at);
                }
            }
        }
    }
}

/// Two pages of `k` rows, the second asked for right after the first, show
/// consecutive parts of the user's history: together they are its first `2 * k` rows
/// in order, newest first, and no transaction is on both.
pub proof fn consecutive_pages_are_contiguous(rows: Rows, user: u128, k: int)
    requires
        well_formed(rows),
        0 <= k,
    ensures
        ({
            let history = user_rows(rows, user);
            let first = page_of(history, k, 0);
            let second = page_of(history, k, k);
            &&& first + second == page_of(history, 2 * k, 0)
            &&& page_of(history, 2 * k, 0) == history.take(
                if 2 * k < history.len() {
                    2 * k
                } else {
                    history.len() as int
                },
            )
            &&& newest_first(first + second)
            &&& forall|i: int, j: int|
                0 <= i < first.len() && 0 <= j < second.len()
                    ==> #[trigger] first[i].record.transaction_hash
                    != #[trigger] second[j].record.transaction_hash
            &&& page_of(records_of(history), k, 0) == records_of(first)
            &&& page_of(records_of(history), k, k) == records_of(second)
        }),
{
    history_keeps_order(rows, user);
    let history = user_rows(rows, user);
    let first = page_of(history, k, 0);
    let second = page_of(history, k, k);
    let both = page_of(history, 2 * k, 0);
    assert(first + second =~= both);
    assert(both =~= history.take(
        if 2 * k < history.len() {
            2 * k
        } else {
            history.len() as int
        },
    ));
    assert forall|a: int, b: int| 0 <= a < b < both.len() implies #[trigger] both[a].created_at
        >= #[trigger] both[b].created_at by {
        assert(history[a].created_at >= history[b].created_at);
    }
    assert forall|i: int, j: int| 0 <= i < first.len() && 0 <= j < second.len() implies
        #[trigger] first[i].record.transaction_hash
        != #[trigger] second[j].record.transaction_hash by {
        let start = if k < history.len() { k } else { history.len() as int };
        assert(first[i] == history[i]);
        assert(second[j] == history[start + j]);
        assert(history[i].record.transaction_hash != history[start + j].record.transaction_hash);
    }
    assert(page_of(records_of(history), k, 0) =~= records_of(first));
    assert(page_of(records_of(history), k, k) =~= records_of(second));
}

/// The sum of the balances that the holders of a list have of `mint`.
pub open spec fn total_held(rows: Rows, holders: Seq<Seq<char>>, mint: Seq<char>) -> int
    decreases holders.len(),
{
    if holders.len() == 0 {
        0
    } else {
        total_held(rows, holders.drop_last(), mint) + balance_of(rows, holders.last(), mint)
    }
}

/// The sum of the amounts of the confirmed mint-to rows of `mint`.
pub open spec fn total_minted(rows: Rows, mint: Seq<char>) -> int
    decreases rows.len(),
{
    if rows.len() == 0 {
        0
    } else {
        total_minted(rows.drop_last(), mint) + minted_by(rows.last().record, mint)
    }
}

/// What a record adds to the supply of `mint`.
pub open spec fn minted_by(record: TransactionRecordView, mint: Seq<char>) -> int {
    if record.status == RecordStatus::Confirmed && record.token_address == mint
        && record.transaction_type == OperationKind::Mint {
        record.amount as int
    } else {
        0
    }
}

/// Whether the parties of a record are among the holders, as far as the record
/// counts for `mint`: its destination, and for a transfer its source.
pub open spec fn parties_are_holders(
    record: TransactionRecordView,
    holders: Seq<Seq<char>>,
    mint: Seq<char>,
) -> bool {
    record.status == RecordStatus::Confirmed && record.token_address == mint ==> {
        &&& record.to_address matches Some(to) && holders.contains(to)
        &&& record.transaction_type == OperationKind::Transfer ==> (
        record.from_address matches Some(from) && holders.contains(from))
    }
}

/// Whether the rows are closed over the holders: every party of a row that counts
/// for `mint` is among them.
pub open spec fn closed_over(rows: Rows, holders: Seq<Seq<char>>, mint: Seq<char>) -> bool {
    forall|i: int|
        0 <= i < rows.len() ==> parties_are_holders((#[trigger] rows[i]).record, holders, mint)
}

/// The sum of what a record adds to the balances of the holders of a list.
pub open spec fn posted_to(
    record: TransactionRecordView,
    holders: Seq<Seq<char>>,
    mint: Seq<char>,
) -> int
    decreases holders.len(),
{
    if holders.len() == 0 {
        0
    } else {
        posted_to(record, holders.drop_last(), mint) + posting(record, holders.last(), mint)
    }
}

/// A list of holders without its last is still free of duplicates, does not hold the
/// last, and holds every other holder of the list.
proof fn holders_split(holders: Seq<Seq<char>>)
    requires
        holders.len() > 0,
        holders.no_duplicates(),
    ensures
        holders.drop_last().no_duplicates(),
        !holders.drop_last().contains(holders.last()),
        forall|h: Seq<char>|
            holders.contains(h) <==> (#[trigger] holders.drop_last().contains(h) || h
                == holders.last()),
{
    let front = holders.drop_last();
    let last = holders.last();
    assert(holders[holders.len() - 1] == last);
    assert forall|h: Seq<char>| holders.contains(h) <==> (#[trigger] front.contains(h) || h
        == last) by {
        if holders.contains(h) {
            let i = choose|i: int| 0 <= i < holders.len() && holders[i] == h;
            if i < front.len() {
                assert(front[i] == h);
            }
        }
        if front.contains(h) {
            let i = choose|i: int| 0 <= i < front.len() && front[i] == h;
            assert(holders[i] == h);
        }
    }
    if front.contains(last) {
        let i = choose|i: int| 0 <= i < front.len() && front[i] == last;
        assert(holders[i] == holders[holders.len() - 1]);
    }
}

/// Of holders that are listed once each, only the destination is credited.
proof fn holders_share_credit(record: TransactionRecordView, holders: Seq<Seq<char>>)
    requires
        holders.no_duplicates(),
    ensures
        credited_to(record, holders) == if record.to_address matches Some(to) && holders.contains(
            to,
        ) {
            record.amount as int
        } else {
            0
        },
    decreases holders.len(),
{
    if holders.len() > 0 {
        holders_split(holders);
        holders_share_credit(record, holders.drop_last());
        if record.to_address is Some {
            let to = record.to_address->0;
            assert(holders.contains(to) <==> (holders.drop_last().contains(to) || to
                == holders.last()));
        }
    }
}

/// Of holders that are listed once each, only the source of a transfer is debited.
proof fn holders_share_debit(record: TransactionRecordView, holders: Seq<Seq<char>>)
    requires
        holders.no_duplicates(),
    ensures
        debited_from(record, holders) == if record.transaction_type == OperationKind::Transfer && (
        record.from_address matches Some(from) && holders.contains(from)) {
            record.amount as int
        } else {
            0
        },
    decreases holders.len(),
{
    if holders.len() > 0 {
        holders_split(holders);
        holders_share_debit(record, holders.drop_last());
        if record.from_address is Some {
            let from = record.from_address->0;
            assert(holders.contains(from) <==> (holders.drop_last().contains(from) || from
                == holders.last()));
        }
    }
}

/// The sum of what a record credits to the holders of a list.
pub open spec fn credited_to(record: TransactionRecordView, holders: Seq<Seq<char>>) -> int
    decreases holders.len(),
{
    if holders.len() == 0 {
        0
    } else {
        credited_to(record, holders.drop_last()) + credit(record, holders.last())
    }
}

/// The sum of what a record debits from the holders of a list.
pub open spec fn debited_from(record: TransactionRecordView, holders: Seq<Seq<char>>) -> int
    decreases holders.len(),
{
    if holders.len() == 0 {
        0
    } else {
        debited_from(record, holders.drop_last()) + debit(record, holders.last())
    }
}

proof fn postings_split(record: TransactionRecordView, holders: Seq<Seq<char>>, mint: Seq<char>)
    ensures
        posted_to(record, holders, mint) == if record.status == RecordStatus::Confirmed
            && record.token_address == mint {
            credited_to(record, holders) - debited_from(record, holders)
        } else {
            0
        },
    decreases holders.len(),
{
    if holders.len() > 0 {
        postings_split(record, holders.drop_last(), mint);
    }
}

proof fn held_grows_by_rows(rows: Rows, holders: Seq<Seq<char>>, mint: Seq<char>)
    requires
        rows.len() > 0,
    ensures
        total_held(rows, holders, mint) == total_held(rows.drop_last(), holders, mint) + posted_to(
            rows.last().record,
            holders,
            mint,
        ),
    decreases holders.len(),
{
    if holders.len() > 0 {
        held_grows_by_rows(rows, holders.drop_last(), mint);
    }
}

proof fn nothing_held_without_rows(rows: Rows, holders: Seq<Seq<char>>, mint: Seq<char>)
    requires
        rows.len() == 0,
    ensures
        total_held(rows, holders, mint) == 0,
    decreases holders.len(),
{
    if holders.len() > 0 {
        nothing_held_without_rows(rows, holders.drop_last(), mint);
    }
}

/// A record whose parties are among the holders adds to their balances, taken
/// together, exactly what it adds to the supply: a mint-to its amount, a transfer
/// nothing.
pub proof fn record_conserves_supply(
    record: TransactionRecordView,
    holders: Seq<Seq<char>>,
    mint: Seq<char>,
)
    requires
        holders.no_duplicates(),
        parties_are_holders(record, holders, mint),
    ensures
        posted_to(record, holders, mint) == minted_by(record, mint),
{
    postings_split(record, holders, mint);
    holders_share_credit(record, holders);
    holders_share_debit(record, holders);
}

/// Transfers redistribute supply and never create or destroy it: where every party of
/// the confirmed rows of a mint is among the holders, each listed once, the balances
/// of the holders add up to the amounts of the confirmed mint-to rows.
pub proof fn supply_is_conserved(rows: Rows, holders: Seq<Seq<char>>, mint: Seq<char>)
    requires
        holders.no_duplicates(),
        closed_over(rows, holders, mint),
    ensures
        total_held(rows, holders, mint) == total_minted(rows, mint),
    decreases rows.len(),
{
    if rows.len() == 0 {
        nothing_held_without_rows(rows, holders, mint);
    } else {
        let front = rows.drop_last();
        assert forall|i: int| 0 <= i < front.len() implies parties_are_holders(
            (#[trigger] front[i]).record,
            holders,
            mint,
        ) by {
            assert(parties_are_holders(rows[i].record, holders, mint));
        }
        supply_is_conserved(front, holders, mint);
        held_grows_by_rows(rows, holders, mint);
        assert(parties_are_holders(rows[rows.len() - 1].record, holders, mint));
        record_conserves_supply(rows.last().record, holders, mint);
    }
}

/// The receiving token account is created by the attempt that finds it missing and by
/// no other. The plan for a missing account is the creation of exactly the account
/// that was probed, followed by the plan for an existing one, which is the single
/// instruction that credits that account. So of two attempts in sequence only the
/// first carries the creation, and what follows it is the same in both. The creation
/// is the idempotent instruction, which does nothing where the account exists.
pub proof fn account_is_created_only_where_missing(operation: TokenOperationView)
    requires
        operation.resolved(),
    ensures
        ({
            let creation = create_token_account_instruction(
                operation.payer,
                operation.recipient,
                operation.mint,
            );
            &&& operation.plan(false) == seq![creation] + operation.plan(true)
            &&& operation.plan(true).len() == 1
            &&& creation.accounts[1].pubkey == operation.recipient_account()
            &&& creation.data == seq![1u8]
            &&& operation.plan(true)[0].accounts[1].pubkey == operation.recipient_account()
            &&& !operation.plan(true).contains(creation)
        }),
{
    let creation = create_token_account_instruction(
        operation.payer,
        operation.recipient,
        operation.mint,
    );
    let rest = operation.plan(true);
    assert(operation.plan(false) =~= seq![creation] + rest);
    assert(rest[0].data[0] != creation.data[0]);
    if rest.contains(creation) {
        let i = choose|i: int| 0 <= i < rest.len() && rest[i] == creation;
        assert(rest[0] == creation);
    }
}

/// The signers of a token operation are exactly the parties whose signature the
/// transaction needs, each once and the payer first, whether or not the receiving
/// account is created.
pub proof fn operation_signers_are_those_required(
    operation: TokenOperationView,
    account_exists: bool,
    key: Seq<u8>,
)
    requires
        operation.resolved(),
    ensures
        signer_set(operation.payer, operation.signer).contains(key) <==> must_sign(
            operation.payer,
            operation.plan(account_exists),
            key,
        ),
        signer_set(operation.payer, operation.signer).no_duplicates(),
        signer_set(operation.payer, operation.signer)[0] == operation.payer,
{
    let plan = operation.plan(account_exists);
    let signers = signer_set(operation.payer, operation.signer);
    let last = plan.len() - 1;
    assert(plan[last].accounts[2].is_signer && plan[last].accounts[2].pubkey == operation.signer);
    if signers.contains(key) {
        let k = choose|k: int| 0 <= k < signers.len() && signers[k] == key;
        assert(key == operation.payer || key == operation.signer);
    }
    if key == operation.payer {
        assert(signers[0] == key);
    } else if key == operation.signer {
        assert(signers[1] == key);
    }
    if must_sign(operation.payer, plan, key) && key != operation.payer {
        let (i, j) = choose|i: int, j: int|
            0 <= i < plan.len() && 0 <= j < plan[i].accounts.len()
                && #[trigger] plan[i].accounts[j].is_signer && plan[i].accounts[j].pubkey == key;
        assert(key == operation.signer);
    }
}

/// The signers of a mint creation are exactly the parties whose signature the
/// transaction needs: the payer and the new mint.
pub proof fn creation_signers_are_those_required(
    payer: Seq<u8>,
    mint: Seq<u8>,
    rent: u64,
    mint_authority: Seq<u8>,
    freeze_authority: Option<Seq<u8>>,
    decimals: u8,
    key: Seq<u8>,
)
    ensures
        signer_set(payer, mint).contains(key) <==> must_sign(
            payer,
            create_mint_plan(payer, mint, rent, mint_authority, freeze_authority, decimals),
            key,
        ),
        signer_set(payer, mint).no_duplicates(),
{
    let plan = create_mint_plan(payer, mint, rent, mint_authority, freeze_authority, decimals);
    let signers = signer_set(payer, mint);
    assert(plan[0].accounts[1].is_signer && plan[0].accounts[1].pubkey == mint);
    if signers.contains(key) {
        let k = choose|k: int| 0 <= k < signers.len() && signers[k] == key;
        assert(key == payer || key == mint);
    }
    if key == payer {
        assert(signers[0] == key);
    } else if key == mint {
        assert(signers[1] == key);
    }
    if must_sign(payer, plan, key) && key != payer {
        let (i, j) = choose|i: int, j: int|
            0 <= i < plan.len() && 0 <= j < plan[i].accounts.len()
                && #[trigger] plan[i].accounts[j].is_signer && plan[i].accounts[j].pubkey == key;
        assert(key == mint);
    }
}

} // verus!
