use solana_sdk::pubkey::Pubkey;
use solana_service::address::Address;
use solana_service::assembler::{
    assemble_create_mint, assemble_mint_to, assemble_signers, assemble_transfer,
    resolve_token_account,
};
use solana_service::instruction::{AccountMeta, Instruction};
use spl_associated_token_account::instruction::create_associated_token_account_idempotent;
use std::str::FromStr;

const TOKEN_PROGRAM: &str = "TokenkegQfeZyiNwAJbNbGKPFXCWuBvf9Ss623VQ5DA";
const ASSOCIATED_TOKEN_PROGRAM: &str = "ATokenGPvbdGVxr1b2hvZbsiqW5xWH25efTNsLJA8knL";
const SYSTEM_PROGRAM: &str = "11111111111111111111111111111111";
const RENT_SYSVAR: &str = "SysvarRent111111111111111111111111111111111";

fn key(fill: u8) -> Address {
    Address { bytes: [fill; 32] }
}

fn named(text: &str) -> [u8; 32] {
    Pubkey::from_str(text).unwrap().to_bytes()
}

fn outside(address: &Address) -> Pubkey {
    Pubkey::new_from_array(address.bytes)
}

fn token_account(wallet: &Address, mint: &Address) -> Address {
    let derived = spl_associated_token_account::get_associated_token_address(
        &outside(wallet),
        &outside(mint),
    );
    Address { bytes: derived.to_bytes() }
}

fn metas(instruction: &Instruction) -> Vec<([u8; 32], bool, bool)> {
    instruction
        .accounts
        .iter()
        .map(|meta: &AccountMeta| (meta.pubkey.bytes, meta.is_signer, meta.is_writable))
        .collect()
}

fn same_as_outside(ours: &Instruction, theirs: &solana_sdk::instruction::Instruction) {
    assert_eq!(ours.program_id.bytes, theirs.program_id.to_bytes());
    assert_eq!(ours.data, theirs.data);
    let expected: Vec<([u8; 32], bool, bool)> = theirs
        .accounts
        .iter()
        .map(|meta| (meta.pubkey.to_bytes(), meta.is_signer, meta.is_writable))
        .collect();
    assert_eq!(metas(ours), expected);
}

#[test]
fn token_account_is_the_associated_address() {
    let wallet = key(5);
    let mint = key(2);
    let account = resolve_token_account(&wallet, &mint).unwrap();
    assert_eq!(account.bytes, token_account(&wallet, &mint).bytes);
    assert_ne!(account.bytes, wallet.bytes);
    assert_ne!(account.bytes, mint.bytes);
    let other = resolve_token_account(&mint, &wallet).unwrap();
    assert_ne!(account.bytes, other.bytes);
    let known = resolve_token_account(
        &Address { bytes: named("11111111111111111111111111111111") },
        &Address { bytes: named(TOKEN_PROGRAM) },
    )
    .unwrap();
    let expected = spl_associated_token_account::get_associated_token_address(
        &Pubkey::from_str("11111111111111111111111111111111").unwrap(),
        &Pubkey::from_str(TOKEN_PROGRAM).unwrap(),
    );
    assert_eq!(known.bytes, expected.to_bytes());
}

#[test]
fn create_mint_is_creation_then_initialization() {
    let payer = key(1);
    let mint = key(2);
    let authority = key(3);
    let plan = assemble_create_mint(&payer, &mint, 1_461_600, &authority, &None, 6);
    assert_eq!(plan.len(), 2);

    let create = &plan[0];
    assert_eq!(create.program_id.bytes, named(SYSTEM_PROGRAM));
    assert_eq!(metas(create), vec![([1u8; 32], true, true), ([2u8; 32], true, true)]);
    let mut data = vec![0u8, 0, 0, 0];
    data.extend_from_slice(&1_461_600u64.to_le_bytes());
    data.extend_from_slice(&82u64.to_le_bytes());
    data.extend_from_slice(&named(TOKEN_PROGRAM));
    assert_eq!(create.data, data);

    let initialize = &plan[1];
    assert_eq!(initialize.program_id.bytes, named(TOKEN_PROGRAM));
    assert_eq!(
        metas(initialize),
        vec![([2u8; 32], false, true), (named(RENT_SYSVAR), false, false)]
    );
    let mut data = vec![0u8, 6];
    data.extend_from_slice(&[3u8; 32]);
    data.push(0);
    assert_eq!(initialize.data, data);
}

#[test]
fn create_mint_with_freeze_authority_names_it() {
    let plan = assemble_create_mint(&key(1), &key(2), 5, &key(3), &Some(key(4)), 9);
    assert_eq!(plan.len(), 2);
    let mut data = vec![0u8, 9];
    data.extend_from_slice(&[3u8; 32]);
    data.push(1);
    data.extend_from_slice(&[4u8; 32]);
    assert_eq!(plan[1].data, data);
}

#[test]
fn create_mint_agrees_with_the_outside_builders() {
    let payer = key(11);
    let mint = key(12);
    let authority = key(13);
    let freeze = key(14);
    let plan = assemble_create_mint(&payer, &mint, 777, &authority, &Some(freeze), 2);
    let create = solana_sdk::system_instruction::create_account(
        &outside(&payer),
        &outside(&mint),
        777,
        82,
        &spl_token::id(),
    );
    let initialize = spl_token::instruction::initialize_mint(
        &spl_token::id(),
        &outside(&mint),
        &outside(&authority),
        Some(&outside(&freeze)),
        2,
    )
    .unwrap();
    assert_eq!(plan.len(), 2);
    same_as_outside(&plan[0], &create);
    same_as_outside(&plan[1], &initialize);
}

#[test]
fn mint_to_an_existing_account_is_one_instruction() {
    let payer = key(1);
    let mint = key(2);
    let destination = key(5);
    let authority = key(3);
    let account = token_account(&destination, &mint);
    let plan = assemble_mint_to(&payer, &mint, &destination, &account, &authority, 1_000_000, true);
    assert_eq!(plan.len(), 1);
    let credit = &plan[0];
    assert_eq!(credit.program_id.bytes, named(TOKEN_PROGRAM));
    assert_eq!(
        metas(credit),
        vec![([2u8; 32], false, true), (account.bytes, false, true), ([3u8; 32], true, false)]
    );
    assert_eq!(credit.data, vec![7u8, 0x40, 0x42, 0x0f, 0, 0, 0, 0, 0]);
}

#[test]
fn mint_to_a_missing_account_creates_it_first() {
    let payer = key(1);
    let mint = key(2);
    let destination = key(5);
    let authority = key(3);
    let account = token_account(&destination, &mint);
    let plan = assemble_mint_to(&payer, &mint, &destination, &account, &authority, 42, false);
    assert_eq!(plan.len(), 2);
    let create = &plan[0];
    assert_eq!(create.program_id.bytes, named(ASSOCIATED_TOKEN_PROGRAM));
    assert_eq!(
        metas(create),
        vec![
            ([1u8; 32], true, true),
            (account.bytes, false, true),
            ([5u8; 32], false, false),
            ([2u8; 32], false, false),
            (named(SYSTEM_PROGRAM), false, false),
            (named(TOKEN_PROGRAM), false, false),
        ]
    );
    assert_eq!(create.data, vec![1u8]);
    assert_eq!(plan[1].program_id.bytes, named(TOKEN_PROGRAM));
    assert_eq!(plan[1].data, vec![7u8, 42, 0, 0, 0, 0, 0, 0, 0]);
}

#[test]
fn mint_to_agrees_with_the_outside_builders() {
    let payer = key(21);
    let mint = key(22);
    let destination = key(23);
    let authority = key(24);
    let account = token_account(&destination, &mint);
    let plan = assemble_mint_to(&payer, &mint, &destination, &account, &authority, u64::MAX, false);
    let create = create_associated_token_account_idempotent(
        &outside(&payer),
        &outside(&destination),
        &outside(&mint),
        &spl_token::id(),
    );
    let credit = spl_token::instruction::mint_to(
        &spl_token::id(),
        &outside(&mint),
        &outside(&account),
        &outside(&authority),
        &[],
        u64::MAX,
    )
    .unwrap();
    assert_eq!(plan.len(), 2);
    same_as_outside(&plan[0], &create);
    same_as_outside(&plan[1], &credit);
}

#[test]
fn transfer_to_an_existing_account_is_one_instruction() {
    let payer = key(1);
    let mint = key(2);
    let from = key(5);
    let to = key(6);
    let owner = key(5);
    let source = token_account(&from, &mint);
    let target = token_account(&to, &mint);
    let plan =
        assemble_transfer(&payer, &mint, &from, &to, &source, &target, &owner, 400_000, true);
    assert_eq!(plan.len(), 1);
    let movement = &plan[0];
    assert_eq!(movement.program_id.bytes, named(TOKEN_PROGRAM));
    assert_eq!(
        metas(movement),
        vec![(source.bytes, false, true), (target.bytes, false, true), ([5u8; 32], true, false)]
    );
    assert_eq!(movement.data, vec![3u8, 0x80, 0x1a, 0x06, 0, 0, 0, 0, 0]);
}

#[test]
fn transfer_to_a_missing_account_creates_it_first() {
    let payer = key(1);
    let mint = key(2);
    let from = key(5);
    let to = key(6);
    let owner = key(7);
    let source = token_account(&from, &mint);
    let target = token_account(&to, &mint);
    let plan = assemble_transfer(&payer, &mint, &from, &to, &source, &target, &owner, 1, false);
    let create = create_associated_token_account_idempotent(
        &outside(&payer),
        &outside(&to),
        &outside(&mint),
        &spl_token::id(),
    );
    let movement = spl_token::instruction::transfer(
        &spl_token::id(),
        &outside(&source),
        &outside(&target),
        &outside(&owner),
        &[],
        1,
    )
    .unwrap();
    assert_eq!(plan.len(), 2);
    same_as_outside(&plan[0], &create);
    same_as_outside(&plan[1], &movement);
    assert_eq!(plan[0].accounts[1].pubkey.bytes, target.bytes);
}

#[test]
fn signers_are_the_payer_and_the_other_party() {
    let signers = assemble_signers(&key(1), &key(3));
    assert_eq!(signers.len(), 2);
    assert_eq!(signers[0].bytes, [1u8; 32]);
    assert_eq!(signers[1].bytes, [3u8; 32]);
}

#[test]
fn payer_who_is_the_other_party_signs_once() {
    let signers = assemble_signers(&key(1), &key(1));
    assert_eq!(signers.len(), 1);
    assert_eq!(signers[0].bytes, [1u8; 32]);
}
