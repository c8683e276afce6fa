use solana_sdk::pubkey::Pubkey;
use solana_sdk::signature::Signature;
use solana_service::address::{Address, TransactionId};
use solana_service::blockchain::{
    observe, transaction_status, BlockchainService, Probe, Receipt,
};
use solana_service::error::AppError;
use solana_service::handlers::{
    balance_response, create_mint, get_balance, mint_record, mint_tokens, transfer_record,
    transfer_tokens, verify_transaction,
};
use solana_service::models::{
    BalanceQuery, CreateMintRequest, MetadataValue, MintTokensRequest, OperationKind,
    RecordStatus, TransactionResponse, TransferTokensRequest, VerifyTransactionQuery,
};

const TOKEN_PROGRAM: &str = "TokenkegQfeZyiNwAJbNbGKPFXCWuBvf9Ss623VQ5DA";
const ASSOCIATED_TOKEN_PROGRAM: &str = "ATokenGPvbdGVxr1b2hvZbsiqW5xWH25efTNsLJA8knL";

fn key(fill: u8) -> Address {
    Address { bytes: [fill; 32] }
}

fn text(fill: u8) -> String {
    Pubkey::new_from_array([fill; 32]).to_string()
}

fn service() -> BlockchainService {
    BlockchainService::new(key(1))
}

fn derived(wallet: u8, mint: u8) -> [u8; 32] {
    spl_associated_token_account::get_associated_token_address(
        &Pubkey::new_from_array([wallet; 32]),
        &Pubkey::new_from_array([mint; 32]),
    )
    .to_bytes()
}

fn invalid_input_message(error: AppError) -> String {
    match error {
        AppError::InvalidInput(message) => message,
        other => panic!("expected InvalidInput, got {:?}", other),
    }
}

fn mint_request(mint: &str, destination: &str, authority: &str) -> MintTokensRequest {
    MintTokensRequest {
        user_id: 77,
        mint_address: mint.to_string(),
        destination_address: destination.to_string(),
        amount: 1_000_000,
        authority: authority.to_string(),
    }
}

fn transfer_request(mint: &str, from: &str, to: &str, owner: &str) -> TransferTokensRequest {
    TransferTokensRequest {
        user_id: 77,
        mint_address: mint.to_string(),
        from_address: from.to_string(),
        to_address: to.to_string(),
        amount: 400_000,
        owner: owner.to_string(),
    }
}

#[test]
fn service_remembers_its_payer() {
    assert_eq!(service().payer_address().bytes, [1u8; 32]);
}

#[test]
fn balance_query_with_a_valid_address_is_accepted() {
    let query = BalanceQuery { address: text(9) };
    assert_eq!(get_balance(&query).unwrap().bytes, [9u8; 32]);
    let reply = balance_response(&query, 1_500_000_000);
    assert_eq!(reply.address, text(9));
    assert_eq!(reply.balance_lamports, 1_500_000_000);
}

#[test]
fn balance_query_with_a_malformed_address_is_invalid_input() {
    let query = BalanceQuery { address: "wallet".to_string() };
    assert_eq!(invalid_input_message(get_balance(&query).unwrap_err()), "Invalid wallet address");
}

#[test]
fn create_mint_plans_creation_then_initialization() {
    let request = CreateMintRequest {
        decimals: 6,
        mint_authority: text(3),
        freeze_authority: None,
    };
    let creation = create_mint(&service(), key(2), &request).unwrap();
    assert_eq!(creation.space(), 82);
    let submission = creation.submission(1_461_600);
    assert_eq!(submission.instructions.len(), 2);
    assert_eq!(submission.instructions[0].program_id.bytes, [0u8; 32]);
    assert_eq!(submission.instructions[0].accounts[0].pubkey.bytes, [1u8; 32]);
    assert_eq!(submission.instructions[0].accounts[1].pubkey.bytes, [2u8; 32]);
    assert_eq!(
        submission.instructions[1].program_id.bytes,
        Address::parse(TOKEN_PROGRAM, "").unwrap().bytes
    );
    assert_eq!(submission.instructions[1].data[1], 6);
    assert_eq!(submission.signers.len(), 2);
    assert_eq!(submission.signers[0].bytes, [1u8; 32]);
    assert_eq!(submission.signers[1].bytes, [2u8; 32]);

    let reply = creation.response(&TransactionId { bytes: [8u8; 64] });
    assert_eq!(reply.mint_address, text(2));
    assert_eq!(reply.signature, Signature::from([8u8; 64]).to_string());
    assert_eq!(reply.decimals, 6);
    assert_eq!(reply.mint_authority, text(3));
    assert_eq!(reply.freeze_authority, None);
}

#[test]
fn create_mint_keeps_the_freeze_authority() {
    let request = CreateMintRequest {
        decimals: 0,
        mint_authority: text(3),
        freeze_authority: Some(text(4)),
    };
    let creation = create_mint(&service(), key(2), &request).unwrap();
    assert_eq!(creation.freeze_authority.unwrap().bytes, [4u8; 32]);
    let reply = creation.response(&TransactionId { bytes: [8u8; 64] });
    assert_eq!(reply.freeze_authority, Some(text(4)));
    let submission = creation.submission(10);
    assert_eq!(submission.instructions[1].data.len(), 67);
}

#[test]
fn create_mint_with_a_malformed_mint_authority_is_invalid_input() {
    let request = CreateMintRequest {
        decimals: 6,
        mint_authority: "nobody".to_string(),
        freeze_authority: Some("nobody either".to_string()),
    };
    let error = create_mint(&service(), key(2), &request).unwrap_err();
    assert_eq!(invalid_input_message(error), "Invalid mint authority address");
}

#[test]
fn create_mint_with_a_malformed_freeze_authority_is_invalid_input() {
    let request = CreateMintRequest {
        decimals: 6,
        mint_authority: text(3),
        freeze_authority: Some("nobody".to_string()),
    };
    let error = create_mint(&service(), key(2), &request).unwrap_err();
    assert_eq!(invalid_input_message(error), "Invalid freeze authority address");
}

#[test]
fn mint_tokens_probes_the_destination_token_account() {
    let operation = mint_tokens(&service(), &mint_request(&text(2), &text(5), &text(3))).unwrap();
    assert_eq!(operation.probe_target().bytes, derived(5, 2));
}

#[test]
fn mint_tokens_validates_mint_then_destination_then_authority() {
    let all_bad = mint_tokens(&service(), &mint_request("x", "y", "z")).unwrap_err();
    assert_eq!(invalid_input_message(all_bad), "Invalid mint address");
    let two_bad = mint_tokens(&service(), &mint_request(&text(2), "y", "z")).unwrap_err();
    assert_eq!(invalid_input_message(two_bad), "Invalid destination address");
    let one_bad = mint_tokens(&service(), &mint_request(&text(2), &text(5), "z")).unwrap_err();
    assert_eq!(invalid_input_message(one_bad), "Invalid authority address");
}

#[test]
fn first_mint_to_a_destination_creates_its_account_and_the_second_does_not() {
    let request = mint_request(&text(2), &text(5), &text(3));
    let first = mint_tokens(&service(), &request).unwrap();
    let first_plan = first.submission(Probe::NotFound).unwrap();
    assert_eq!(first_plan.instructions.len(), 2);
    assert_eq!(
        first_plan.instructions[0].program_id.bytes,
        Address::parse(ASSOCIATED_TOKEN_PROGRAM, "").unwrap().bytes
    );
    assert_eq!(first_plan.instructions[0].accounts[1].pubkey.bytes, derived(5, 2));

    let second = mint_tokens(&service(), &request).unwrap();
    let second_plan = second.submission(Probe::Found).unwrap();
    assert_eq!(second_plan.instructions.len(), 1);
    assert_eq!(second_plan.instructions[0].data, first_plan.instructions[1].data);
    assert_eq!(
        second_plan.instructions[0].program_id.bytes,
        first_plan.instructions[1].program_id.bytes
    );
    assert_eq!(second_plan.instructions[0].accounts[1].pubkey.bytes, derived(5, 2));
}

#[test]
fn mint_tokens_is_signed_by_payer_and_authority() {
    let operation = mint_tokens(&service(), &mint_request(&text(2), &text(5), &text(3))).unwrap();
    let plan = operation.submission(Probe::Found).unwrap();
    assert_eq!(plan.signers.len(), 2);
    assert_eq!(plan.signers[0].bytes, [1u8; 32]);
    assert_eq!(plan.signers[1].bytes, [3u8; 32]);

    let own = mint_tokens(&service(), &mint_request(&text(2), &text(5), &text(1))).unwrap();
    let plan = own.submission(Probe::Found).unwrap();
    assert_eq!(plan.signers.len(), 1);
    assert_eq!(plan.signers[0].bytes, [1u8; 32]);
}

#[test]
fn failed_probe_is_a_transport_failure() {
    let operation = mint_tokens(&service(), &mint_request(&text(2), &text(5), &text(3))).unwrap();
    let error = operation.submission(Probe::Failed("connection refused".to_string())).unwrap_err();
    match error {
        AppError::Solana(detail) => assert_eq!(detail, "connection refused"),
        other => panic!("expected a transport failure, got {:?}", other),
    }
}

#[test]
fn confirmed_operation_replies_with_signature_slot_and_status() {
    let operation = mint_tokens(&service(), &mint_request(&text(2), &text(5), &text(3))).unwrap();
    let receipt = Receipt { signature: TransactionId { bytes: [4u8; 64] }, slot: Some(12345) };
    let reply = operation.response(&receipt);
    assert_eq!(reply.signature, Signature::from([4u8; 64]).to_string());
    assert_eq!(reply.slot, Some(12345));
    assert_eq!(reply.status, "confirmed");
}

#[test]
fn transfer_tokens_validates_every_address_in_order() {
    let error = transfer_tokens(&service(), &transfer_request("a", "b", "c", "d")).unwrap_err();
    assert_eq!(invalid_input_message(error), "Invalid mint address");
    let error =
        transfer_tokens(&service(), &transfer_request(&text(2), "b", "c", "d")).unwrap_err();
    assert_eq!(invalid_input_message(error), "Invalid from address");
    let error =
        transfer_tokens(&service(), &transfer_request(&text(2), &text(5), "c", "d")).unwrap_err();
    assert_eq!(invalid_input_message(error), "Invalid to address");
    let error = transfer_tokens(&service(), &transfer_request(&text(2), &text(5), &text(6), "d"))
        .unwrap_err();
    assert_eq!(invalid_input_message(error), "Invalid owner address");
}

#[test]
fn transfer_moves_between_the_token_accounts() {
    let request = transfer_request(&text(2), &text(5), &text(6), &text(5));
    let operation = transfer_tokens(&service(), &request).unwrap();
    assert_eq!(operation.probe_target().bytes, derived(6, 2));

    let plan = operation.submission(Probe::Found).unwrap();
    assert_eq!(plan.instructions.len(), 1);
    let movement = &plan.instructions[0];
    assert_eq!(movement.accounts[0].pubkey.bytes, derived(5, 2));
    assert_eq!(movement.accounts[1].pubkey.bytes, derived(6, 2));
    assert_eq!(movement.accounts[2].pubkey.bytes, [5u8; 32]);
    assert!(movement.accounts[2].is_signer);
    assert_eq!(movement.data, vec![3u8, 0x80, 0x1a, 0x06, 0, 0, 0, 0, 0]);
    assert_eq!(plan.signers.len(), 2);
    assert_eq!(plan.signers[1].bytes, [5u8; 32]);
}

#[test]
fn transfer_to_a_missing_account_creates_the_destination_account_only() {
    let request = transfer_request(&text(2), &text(5), &text(6), &text(5));
    let operation = transfer_tokens(&service(), &request).unwrap();
    let plan = operation.submission(Probe::NotFound).unwrap();
    assert_eq!(plan.instructions.len(), 2);
    assert_eq!(
        plan.instructions[0].program_id.bytes,
        Address::parse(ASSOCIATED_TOKEN_PROGRAM, "").unwrap().bytes
    );
    assert_eq!(plan.instructions[0].accounts[1].pubkey.bytes, derived(6, 2));
    assert_eq!(plan.instructions[0].accounts[2].pubkey.bytes, [6u8; 32]);
    assert_eq!(plan.instructions[1].accounts[0].pubkey.bytes, derived(5, 2));
}

#[test]
fn mint_record_carries_the_request_and_the_outcome() {
    let request = mint_request(&text(2), &text(5), &text(3));
    let result = TransactionResponse {
        signature: "sig-1".to_string(),
        slot: Some(99),
        status: "confirmed".to_string(),
    };
    let record = mint_record(&request, &result, 1234);
    assert_eq!(record.id, 1234);
    assert_eq!(record.user_id, 77);
    assert_eq!(record.transaction_hash, "sig-1");
    assert_eq!(record.transaction_type, OperationKind::Mint);
    assert_eq!(record.amount, 1_000_000);
    assert_eq!(record.token_address, text(2));
    assert_eq!(record.from_address, None);
    assert_eq!(record.to_address, Some(text(5)));
    assert_eq!(record.status, RecordStatus::Confirmed);
    assert_eq!(record.block_number, Some(99));
    assert_eq!(record.metadata.len(), 2);
    assert_eq!(record.metadata[0].key, "mint_authority");
    assert!(matches!(&record.metadata[0].value, MetadataValue::Text(who) if *who == text(3)));
    assert_eq!(record.metadata[1].key, "amount");
    assert!(matches!(record.metadata[1].value, MetadataValue::Number(1_000_000)));
}

#[test]
fn transfer_record_carries_both_parties() {
    let request = transfer_request(&text(2), &text(5), &text(6), &text(5));
    let result = TransactionResponse {
        signature: "sig-2".to_string(),
        slot: None,
        status: "confirmed".to_string(),
    };
    let record = transfer_record(&request, &result, 1);
    assert_eq!(record.transaction_type, OperationKind::Transfer);
    assert_eq!(record.amount, 400_000);
    assert_eq!(record.from_address, Some(text(5)));
    assert_eq!(record.to_address, Some(text(6)));
    assert_eq!(record.status, RecordStatus::Confirmed);
    assert_eq!(record.block_number, None);
    assert_eq!(record.metadata[0].key, "owner");
    assert!(matches!(&record.metadata[0].value, MetadataValue::Text(who) if *who == text(5)));
    assert!(matches!(record.metadata[1].value, MetadataValue::Number(400_000)));
}

#[test]
fn status_query_with_a_malformed_identifier_is_invalid_input() {
    let query = VerifyTransactionQuery { signature: "nonsense".to_string() };
    let error = verify_transaction(&service(), &query).unwrap_err();
    assert_eq!(invalid_input_message(error), "Invalid signature format");
}

#[test]
fn status_reply_names_what_the_network_observed() {
    let signature = Signature::from([5u8; 64]).to_string();
    let query = VerifyTransactionQuery { signature: signature.clone() };
    let id = verify_transaction(&service(), &query).unwrap();
    assert_eq!(id.bytes, [5u8; 64]);

    let confirmed = transaction_status(&id, Some(true));
    assert_eq!(confirmed.signature, signature);
    assert_eq!(confirmed.status, "confirmed");
    assert_eq!(confirmed.confirmations, None);
    assert_eq!(confirmed.slot, None);
    assert_eq!(transaction_status(&id, Some(false)).status, "failed");
    assert_eq!(transaction_status(&id, None).status, "not_found");

    assert_eq!(observe(Some(true)), RecordStatus::Confirmed);
    assert_eq!(observe(Some(false)), RecordStatus::Failed);
    assert_eq!(observe(None), RecordStatus::NotFound);
}
