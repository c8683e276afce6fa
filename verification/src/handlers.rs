//! What each endpoint decides before and after the network and the store are asked.
//!
//! Every endpoint validates all addresses of its request first: a request with a
//! malformed address is answered with `InvalidInput` before there is anything to
//! probe, submit or store.

use crate::address::{
    is_address, is_transaction_id, pubkey_from_str, signature_from_str, signature_to_string,
    Address, TransactionId,
};
use crate::blockchain::{
    observe, observed_status, transaction_status, BlockchainService, MintCreation,
    TokenOperation, TokenOperationView,
};
use crate::database::{
    after_status, page_of, records_of, user_rows, well_formed, DatabaseService,
};
use crate::envelope::ApiResponse;
use crate::error::{refused, AppError};
use crate::instruction::token_account;
use crate::models::{
    metadata_of, text_of, transactions_of, BalanceQuery, BalanceResponse, CreateMintRequest,
    MetadataEntry, MetadataEntryView, MetadataValueView, MintTokensRequest, OperationKind,
    RecordStatus, TransactionQuery, TransactionRecord, TransactionRecordView,
    TransactionResponse, TransactionStatus, TransferTokensRequest, VerifyTransactionQuery,
};
use vstd::prelude::*;
use vstd::string::*;

verus! {

/// The number of records on a page of history where the query names none.
pub const DEFAULT_LIMIT: i64 = 50;

/// The liveness reply.
pub fn health_check() -> (reply: ApiResponse<&'static str>)
    ensures
        reply.success,
        reply.data matches Some(text) && text@ == "Solana service is running"@,
        reply.error is None,
{
    ApiResponse::success("Solana service is running")
}

/// Validates the address of a balance query.
pub fn get_balance(params: &BalanceQuery) -> (wallet: Result<Address, AppError>)
    ensures
        !is_address(params.address@) ==> refused(wallet),
        match wallet {
            Ok(address) => pubkey_from_str(params.address@) == Some(address@),
            Err(e) => !is_address(params.address@) && e.is_invalid_input(
                "Invalid wallet address"@,
            ),
        },
{
    Address::parse(params.address.as_str(), "Invalid wallet address")
}

/// The reply to a balance query, from the balance that the network reported.
pub fn balance_response(params: &BalanceQuery, lamports: u64) -> (reply: BalanceResponse)
    ensures
        reply.address@ == params.address@,
        reply.balance_lamports == lamports,
{
    BalanceResponse { address: params.address.clone(), balance_lamports: lamports }
}

/// Starts the creation of a mint for a request; `mint` is the fresh identity that the
/// caller generated for it.
pub fn create_mint(
    service: &BlockchainService,
    mint: Address,
    payload: &CreateMintRequest,
) -> (started: Result<MintCreation, AppError>)
    ensures
        !is_address(payload.mint_authority@) || (payload.freeze_authority matches Some(text)
            && !is_address(text@)) ==> refused(started),
        match started {
            Ok(creation) => {
                &&& creation.payer@ == service.payer()
                &&& creation.mint@ == mint@
                &&& creation.decimals == payload.decimals
                &&& pubkey_from_str(payload.mint_authority@) == Some(creation.mint_authority@)
                &&& creation.mint_authority_text@ == payload.mint_authority@
                &&& match payload.freeze_authority {
                    Some(text) => creation.freeze_authority matches Some(key) && pubkey_from_str(
                        text@,
                    ) == Some(key@),
                    None => creation.freeze_authority is None,
                }
                &&& text_of(creation.freeze_authority_text) == text_of(payload.freeze_authority)
            },
            Err(e) => if !is_address(payload.mint_authority@) {
                e.is_invalid_input("Invalid mint authority address"@)
            } else {
                &&& payload.freeze_authority matches Some(text) && !is_address(text@)
                &&& e.is_invalid_input("Invalid freeze authority address"@)
            },
        },
{
    let freeze: Option<&str> = match &payload.freeze_authority {
        Some(text) => Some(text.as_str()),
        None => None,
    };
    service.create_mint(mint, payload.decimals, payload.mint_authority.as_str(), freeze)
}

/// Starts a mint-to for a request: mint, destination and authority are validated, in
/// that order, and the destination's token account is resolved.
pub fn mint_tokens(service: &BlockchainService, payload: &MintTokensRequest) -> (started: Result<
    TokenOperation,
    AppError,
>)
    ensures
        !is_address(payload.mint_address@) || !is_address(payload.destination_address@)
            || !is_address(payload.authority@) ==> refused(started),
        match started {
            Ok(operation) => {
                &&& is_address(payload.mint_address@)
                &&& is_address(payload.destination_address@)
                &&& is_address(payload.authority@)
                &&& operation@ == (TokenOperationView {
                    kind: OperationKind::Mint,
                    payer: service.payer(),
                    mint: pubkey_from_str(payload.mint_address@)->0,
                    sender: None,
                    recipient: pubkey_from_str(payload.destination_address@)->0,
                    signer: pubkey_from_str(payload.authority@)->0,
                    amount: payload.amount,
                })
                &&& operation@.resolved()
            },
            Err(e) => if !is_address(payload.mint_address@) {
                e.is_invalid_input("Invalid mint address"@)
            } else if !is_address(payload.destination_address@) {
                e.is_invalid_input("Invalid destination address"@)
            } else if !is_address(payload.authority@) {
                e.is_invalid_input("Invalid authority address"@)
            } else {
                &&& token_account(
                    pubkey_from_str(payload.destination_address@)->0,
                    pubkey_from_str(payload.mint_address@)->0,
                ) is None
                &&& e.is_internal("No token account for the destination"@)
            },
        },
{
    let mint = match Address::parse(payload.mint_address.as_str(), "Invalid mint address") {
        Ok(address) => address,
        Err(e) => { return Err(e); },
    };
    let destination = match Address::parse(
        payload.destination_address.as_str(),
        "Invalid destination address",
    ) {
        Ok(address) => address,
        Err(e) => { return Err(e); },
    };
    service.mint_tokens(&mint, &destination, payload.amount, payload.authority.as_str())
}

/// Starts a transfer for a request: mint, source, destination and owner are validated,
/// in that order, and both token accounts are resolved.
pub fn transfer_tokens(service: &BlockchainService, payload: &TransferTokensRequest) -> (started:
    Result<TokenOperation, AppError>)
    ensures
        !is_address(payload.mint_address@) || !is_address(payload.from_address@) || !is_address(
            payload.to_address@,
        ) || !is_address(payload.owner@) ==> refused(started),
        match started {
            Ok(operation) => {
                &&& is_address(payload.mint_address@)
                &&& is_address(payload.from_address@)
                &&& is_address(payload.to_address@)
                &&& is_address(payload.owner@)
                &&& operation@ == (TokenOperationView {
                    kind: OperationKind::Transfer,
                    payer: service.payer(),
                    mint: pubkey_from_str(payload.mint_address@)->0,
                    sender: Some(pubkey_from_str(payload.from_address@)->0),
                    recipient: pubkey_from_str(payload.to_address@)->0,
                    signer: pubkey_from_str(payload.owner@)->0,
                    amount: payload.amount,
                })
                &&& operation@.resolved()
            },
            Err(e) => if !is_address(payload.mint_address@) {
                e.is_invalid_input("Invalid mint address"@)
            } else if !is_address(payload.from_address@) {
                e.is_invalid_input("Invalid from address"@)
            } else if !is_address(payload.to_address@) {
                e.is_invalid_input("Invalid to address"@)
            } else if !is_address(payload.owner@) {
                e.is_invalid_input("Invalid owner address"@)
            } else if token_account(
                pubkey_from_str(payload.from_address@)->0,
                pubkey_from_str(payload.mint_address@)->0,
            ) is None {
                e.is_internal("No token account for the source"@)
            } else {
                &&& token_account(
                    pubkey_from_str(payload.to_address@)->0,
                    pubkey_from_str(payload.mint_address@)->0,
                ) is None
                &&& e.is_internal("No token account for the destination"@)
            },
        },
{
    let mint = match Address::parse(payload.mint_address.as_str(), "Invalid mint address") {
        Ok(address) => address,
        Err(e) => { return Err(e); },
    };
    let from = match Address::parse(payload.from_address.as_str(), "Invalid from address") {
        Ok(address) => address,
        Err(e) => { return Err(e); },
    };
    let to = match Address::parse(payload.to_address.as_str(), "Invalid to address") {
        Ok(address) => address,
        Err(e) => { return Err(e); },
    };
    service.transfer_tokens(&mint, &from, &to, payload.amount, payload.owner.as_str())
}

/// The metadata of a ledger row: who authorized the operation, under the name of the
/// role, and the amount.
pub open spec fn metadata_for(role: Seq<char>, signer: Seq<char>, amount: u64) -> Seq<
    MetadataEntryView,
> {
    seq![
        MetadataEntryView { key: role, value: MetadataValueView::Text(signer) },
        MetadataEntryView { key: "amount"@, value: MetadataValueView::Number(amount) },
    ]
}

/// The ledger row of a confirmed mint-to.
pub open spec fn mint_record_of(
    payload: MintTokensRequest,
    result: TransactionResponse,
    id: u128,
) -> TransactionRecordView {
    TransactionRecordView {
        id,
        user_id: payload.user_id,
        transaction_hash: result.signature@,
        transaction_type: OperationKind::Mint,
        amount: payload.amount,
        token_address: payload.mint_address@,
        from_address: None,
        to_address: Some(payload.destination_address@),
        status: RecordStatus::Confirmed,
        block_number: result.slot,
        metadata: metadata_for("mint_authority"@, payload.authority@, payload.amount),
    }
}

/// The ledger row of a confirmed transfer.
pub open spec fn transfer_record_of(
    payload: TransferTokensRequest,
    result: TransactionResponse,
    id: u128,
) -> TransactionRecordView {
    TransactionRecordView {
        id,
        user_id: payload.user_id,
        transaction_hash: result.signature@,
        transaction_type: OperationKind::Transfer,
        amount: payload.amount,
        token_address: payload.mint_address@,
        from_address: Some(payload.from_address@),
        to_address: Some(payload.to_address@),
        status: RecordStatus::Confirmed,
        block_number: result.slot,
        metadata: metadata_for("owner"@, payload.owner@, payload.amount),
    }
}

/// The metadata of a ledger row.
fn metadata(role: &str, signer: &str, amount: u64) -> (entries: Vec<MetadataEntry>)
    ensures
        metadata_of(entries@) == metadata_for(role@, signer@, amount),
{
    let mut entries: Vec<MetadataEntry> = Vec::new();
    entries.push(MetadataEntry::text(role, signer));
    entries.push(MetadataEntry::number("amount", amount));
    assert(metadata_of(entries@) =~= metadata_for(role@, signer@, amount));
    entries
}

/// The ledger row to record for a mint-to that the network confirmed; `id` is the
/// fresh identifier that the caller generated for the row.
pub fn mint_record(payload: &MintTokensRequest, result: &TransactionResponse, id: u128) -> (record:
    TransactionRecord)
    ensures
        record@ == mint_record_of(*payload, *result, id),
{
    TransactionRecord {
        id,
        user_id: payload.user_id,
        transaction_hash: result.signature.clone(),
        transaction_type: OperationKind::Mint,
        amount: payload.amount,
        token_address: payload.mint_address.clone(),
        from_address: None,
        to_address: Some(payload.destination_address.clone()),
        status: RecordStatus::Confirmed,
        block_number: result.slot,
        metadata: metadata("mint_authority", payload.authority.as_str(), payload.amount),
    }
}

/// The ledger row to record for a transfer that the network confirmed; `id` is the
/// fresh identifier that the caller generated for the row.
pub fn transfer_record(
    payload: &TransferTokensRequest,
    result: &TransactionResponse,
    id: u128,
) -> (record: TransactionRecord)
    ensures
        record@ == transfer_record_of(*payload, *result, id),
{
    TransactionRecord {
        id,
        user_id: payload.user_id,
        transaction_hash: result.signature.clone(),
        transaction_type: OperationKind::Transfer,
        amount: payload.amount,
        token_address: payload.mint_address.clone(),
        from_address: Some(payload.from_address.clone()),
        to_address: Some(payload.to_address.clone()),
        status: RecordStatus::Confirmed,
        block_number: result.slot,
        metadata: metadata("owner", payload.owner.as_str(), payload.amount),
    }
}

/// The limit that a history query asks for: 50 where it names none.
pub open spec fn limit_of(params: TransactionQuery) -> i64 {
    match params.limit {
        Some(limit) => limit,
        None => DEFAULT_LIMIT,
    }
}

/// The offset that a history query asks for: 0 where it names none.
pub open spec fn offset_of(params: TransactionQuery) -> i64 {
    match params.offset {
        Some(offset) => offset,
        None => 0,
    }
}

/// One page of a user's history, newest first, with the default limit and offset
/// where the query names none.
pub fn get_transactions(database: &DatabaseService, params: &TransactionQuery) -> (page: Result<
    Vec<TransactionRecord>,
    AppError,
>)
    ensures
        match page {
            Ok(records) => limit_of(*params) >= 0 && offset_of(*params) >= 0 && transactions_of(
                records@,
            ) == page_of(
                records_of(user_rows(database.rows(), params.user_id)),
                limit_of(*params) as int,
                offset_of(*params) as int,
            ),
            Err(e) => if limit_of(*params) < 0 {
                e.is_storage("LIMIT must not be negative"@)
            } else {
                offset_of(*params) < 0 && e.is_storage("OFFSET must not be negative"@)
            },
        },
{
    let limit = match params.limit {
        Some(limit) => limit,
        None => DEFAULT_LIMIT,
    };
    let offset = match params.offset {
        Some(offset) => offset,
        None => 0,
    };
    database.get_user_transactions(params.user_id, limit, offset)
}

/// Validates the identifier of a status query.
pub fn verify_transaction(service: &BlockchainService, params: &VerifyTransactionQuery) -> (started:
    Result<TransactionId, AppError>)
    ensures
        !is_transaction_id(params.signature@) ==> refused(started),
        match started {
            Ok(id) => signature_from_str(params.signature@) == Some(id@),
            Err(e) => !is_transaction_id(params.signature@) && e.is_invalid_input(
                "Invalid signature format"@,
            ),
        },
{
    service.get_transaction_status(params.signature.as_str())
}

/// Reconciles the ledger with the network's answer to a status query and returns the
/// reply. `outcome` is `None` where the network knows no such transaction, else
/// whether the transaction succeeded. The row of the transaction takes the observed
/// status where it differs; a transaction without a row changes nothing.
pub fn reconcile_status(
    database: &mut DatabaseService,
    params: &VerifyTransactionQuery,
    id: &TransactionId,
    outcome: Option<bool>,
    now: i64,
) -> (reply: TransactionStatus)
    ensures
        final(database).rows() == after_status(
            old(database).rows(),
            params.signature@,
            observed_status(outcome),
            now,
        ),
        final(database).mints() == old(database).mints(),
        well_formed(final(database).rows()),
        reply.signature@ == signature_to_string(id@),
        reply.status@ == observed_status(outcome).label_of(),
        reply.confirmations is None,
        reply.slot is None,
{
    let reply = transaction_status(id, outcome);
    database.update_transaction_status(params.signature.as_str(), observe(outcome), now);
    reply
}

} // verus!
