//! On-chain instructions as plain values, and the outside builders that produce them.

use crate::address::{pubkey_from_str, Address};
use solana_program::program_pack::Pack;
use solana_sdk::pubkey::Pubkey;
use vstd::bytes::spec_u64_to_le_bytes;
use vstd::prelude::*;

verus! {

/// One account that an instruction touches.
#[derive(Clone, Copy, Debug)]
pub struct AccountMeta {
    pub pubkey: Address,
    pub is_signer: bool,
    pub is_writable: bool,
}

pub struct AccountMetaView {
    pub pubkey: Seq<u8>,
    pub is_signer: bool,
    pub is_writable: bool,
}

impl View for AccountMeta {
    type V = AccountMetaView;

    open spec fn view(&self) -> AccountMetaView {
        AccountMetaView {
            pubkey: self.pubkey@,
            is_signer: self.is_signer,
            is_writable: self.is_writable,
        }
    }
}

impl AccountMeta {
    /// An account of an instruction, from the bytes of its address and its two marks.
    pub fn from_parts(pubkey: [u8; 32], is_signer: bool, is_writable: bool) -> (meta: AccountMeta)
        ensures
            meta@ == (AccountMetaView { pubkey: pubkey@, is_signer, is_writable }),
    {
        AccountMeta { pubkey: Address { bytes: pubkey }, is_signer, is_writable }
    }
}

/// One instruction: the program that runs it, the accounts it touches, its payload.
#[derive(Debug)]
pub struct Instruction {
    pub program_id: Address,
    pub accounts: Vec<AccountMeta>,
    pub data: Vec<u8>,
}

pub struct InstructionView {
    pub program_id: Seq<u8>,
    pub accounts: Seq<AccountMetaView>,
    pub data: Seq<u8>,
}

impl View for Instruction {
    type V = InstructionView;

    open spec fn view(&self) -> InstructionView {
        InstructionView {
            program_id: self.program_id@,
            accounts: self.accounts@.map_values(|meta: AccountMeta| meta@),
            data: self.data@,
        }
    }
}

/// An account the instruction may write to.
pub open spec fn writable(pubkey: Seq<u8>, is_signer: bool) -> AccountMetaView {
    AccountMetaView { pubkey, is_signer, is_writable: true }
}

/// An account the instruction only reads.
pub open spec fn readonly(pubkey: Seq<u8>, is_signer: bool) -> AccountMetaView {
    AccountMetaView { pubkey, is_signer, is_writable: false }
}

/// The address of the system program.
pub open spec fn system_program() -> Seq<u8> {
    pubkey_from_str("11111111111111111111111111111111"@)->0
}

/// The address of the token program.
pub open spec fn token_program() -> Seq<u8> {
    pubkey_from_str("TokenkegQfeZyiNwAJbNbGKPFXCWuBvf9Ss623VQ5DA"@)->0
}

/// The address of the associated-token-account program.
pub open spec fn associated_token_program() -> Seq<u8> {
    pubkey_from_str("ATokenGPvbdGVxr1b2hvZbsiqW5xWH25efTNsLJA8knL"@)->0
}

/// The address of the rent sysvar.
pub open spec fn rent_sysvar() -> Seq<u8> {
    pubkey_from_str("SysvarRent111111111111111111111111111111111"@)->0
}

/// The number of bytes a mint account occupies.
pub open spec fn mint_space() -> u64 {
    82
}

/// The token account that holds `mint` for `wallet`: the program-derived address of
/// the associated-token-account program for the seeds wallet, token program, mint.
/// `None` where no bump seed yields such an address.
pub uninterp spec fn token_account(wallet: Seq<u8>, mint: Seq<u8>) -> Option<Seq<u8>>;

/// The payload of the system program's create-account instruction.
pub uninterp spec fn create_account_data(lamports: u64, space: u64, owner: Seq<u8>) -> Seq<u8>;

/// The instruction that creates and funds a new account owned by `owner`.
pub open spec fn create_account_instruction(
    from: Seq<u8>,
    to: Seq<u8>,
    lamports: u64,
    space: u64,
    owner: Seq<u8>,
) -> InstructionView {
    InstructionView {
        program_id: system_program(),
        accounts: seq![writable(from, true), writable(to, true)],
        data: create_account_data(lamports, space, owner),
    }
}

/// The instruction that initializes a mint with its decimals and authorities.
pub open spec fn initialize_mint_instruction(
    mint: Seq<u8>,
    mint_authority: Seq<u8>,
    freeze_authority: Option<Seq<u8>>,
    decimals: u8,
) -> InstructionView {
    InstructionView {
        program_id: token_program(),
        accounts: seq![writable(mint, false), readonly(rent_sysvar(), false)],
        data: seq![0u8, decimals] + mint_authority + match freeze_authority {
            Some(key) => seq![1u8] + key,
            None => seq![0u8],
        },
    }
}

/// The instruction that creates the token account of `wallet` for `mint`, paid for by
/// `funder`. It is the idempotent form: where the account exists already, because
/// another request created it in the meantime, the instruction does nothing and
/// what follows it in the transaction still runs.
pub open spec fn create_token_account_instruction(
    funder: Seq<u8>,
    wallet: Seq<u8>,
    mint: Seq<u8>,
) -> InstructionView
    recommends
        token_account(wallet, mint) is Some,
{
    InstructionView {
        program_id: associated_token_program(),
        accounts: seq![
            writable(funder, true),
            writable(token_account(wallet, mint)->0, false),
            readonly(wallet, false),
            readonly(mint, false),
            readonly(system_program(), false),
            readonly(token_program(), false),
        ],
        data: seq![1u8],
    }
}

/// The instruction that credits `amount` new units of `mint` to `account`, authorized
/// by the mint authority.
pub open spec fn mint_to_instruction(
    mint: Seq<u8>,
    account: Seq<u8>,
    authority: Seq<u8>,
    amount: u64,
) -> InstructionView {
    InstructionView {
        program_id: token_program(),
        accounts: seq![writable(mint, false), writable(account, false), readonly(authority, true)],
        data: seq![7u8] + spec_u64_to_le_bytes(amount),
    }
}

/// The instruction that moves `amount` units from `source` to `destination`,
/// authorized by the owner of `source`.
pub open spec fn transfer_instruction(
    source: Seq<u8>,
    destination: Seq<u8>,
    owner: Seq<u8>,
    amount: u64,
) -> InstructionView {
    InstructionView {
        program_id: token_program(),
        accounts: seq![
            writable(source, false),
            writable(destination, false),
            readonly(owner, true),
        ],
        data: seq![3u8] + spec_u64_to_le_bytes(amount),
    }
}

/// Reads `spl_token::state::Mint::LEN`. Trusted: the constant is 82.
#[verifier::external_body]
pub(crate) fn mint_account_space() -> (space: u64)
    ensures
        space == mint_space(),
{
    spl_token::state::Mint::LEN as u64
}

/// Calls `Pubkey::try_find_program_address` with the seeds and the program that
/// `spl_associated_token_account::get_associated_token_address` derives from (wallet,
/// token program, mint; the associated-token-account program), so that a missing bump
/// seed comes back as `None` and not as a panic. Trusted: the result is the address
/// named by [`token_account`].
#[verifier::external_body]
pub(crate) fn derive_token_account(wallet: &Address, mint: &Address) -> (derived: Option<Address>)
    ensures
        match derived {
            Some(account) => token_account(wallet@, mint@) == Some(account@),
            None => token_account(wallet@, mint@) is None,
        },
{
    Pubkey::try_find_program_address(
        &[&wallet.bytes, spl_token::id().as_ref(), &mint.bytes],
        &spl_associated_token_account::id(),
    ).map(|found| Address { bytes: found.0.to_bytes() })
}

/// Calls `solana_sdk::system_instruction::create_account` with the token program as
/// the new account's owner. Trusted: the instruction is for the system program, names
/// payer and new account as writable signers in that order, and carries the payload
/// named by [`create_account_data`].
#[verifier::external_body]
pub(crate) fn system_create_account(
    from: &Address,
    to: &Address,
    lamports: u64,
    space: u64,
) -> (built: Instruction)
    ensures
        built@.program_id == system_program(),
        built@.accounts == seq![writable(from@, true), writable(to@, true)],
        built@.data == create_account_data(lamports, space, token_program()),
{
    let built = solana_sdk::system_instruction::create_account(
        &Pubkey::from(from.bytes),
        &Pubkey::from(to.bytes),
        lamports,
        space,
        &spl_token::id(),
    );
    let accounts = built.accounts.iter().map(
        |m| AccountMeta::from_parts(m.pubkey.to_bytes(), m.is_signer, m.is_writable),
    ).collect();
    let program_id = Address { bytes: built.program_id.to_bytes() };
    Instruction { program_id, accounts, data: built.data }
}

/// Calls `spl_token::instruction::initialize_mint` for the token program. Trusted: the
/// call succeeds for that program, and the instruction is the one that
/// [`initialize_mint_instruction`] spells out.
#[verifier::external_body]
pub(crate) fn token_initialize_mint(
    mint: &Address,
    mint_authority: &Address,
    freeze_authority: &Option<Address>,
    decimals: u8,
) -> (built: Option<Instruction>)
    ensures
        built is Some,
        built->0@ == initialize_mint_instruction(
            mint@,
            mint_authority@,
            match *freeze_authority {
                Some(key) => Some(key@),
                None => None,
            },
            decimals,
        ),
{
    let freeze = freeze_authority.map(|key| Pubkey::from(key.bytes));
    let built = spl_token::instruction::initialize_mint(
        &spl_token::id(),
        &Pubkey::from(mint.bytes),
        &Pubkey::from(mint_authority.bytes),
        freeze.as_ref(),
        decimals,
    ).ok()?;
    let accounts = built.accounts.iter().map(
        |m| AccountMeta::from_parts(m.pubkey.to_bytes(), m.is_signer, m.is_writable),
    ).collect();
    let program_id = Address { bytes: built.program_id.to_bytes() };
    Some(Instruction { program_id, accounts, data: built.data })
}

/// Calls
/// `spl_associated_token_account::instruction::create_associated_token_account_idempotent`
/// for the token program. The outside function derives the token account itself and
/// panics where none exists, which `requires` leaves out. Trusted: the instruction is
/// the one that [`create_token_account_instruction`] spells out.
#[verifier::external_body]
pub(crate) fn create_associated_token_account_idempotent(
    funder: &Address,
    wallet: &Address,
    mint: &Address,
) -> (built: Instruction)
    requires
        token_account(wallet@, mint@) is Some,
    ensures
        built@ == create_token_account_instruction(funder@, wallet@, mint@),
{
    let built =
        spl_associated_token_account::instruction::create_associated_token_account_idempotent(
            &Pubkey::from(funder.bytes),
            &Pubkey::from(wallet.bytes),
            &Pubkey::from(mint.bytes),
            &spl_token::id(),
        );
    let accounts = built.accounts.iter().map(
        |m| AccountMeta::from_parts(m.pubkey.to_bytes(), m.is_signer, m.is_writable),
    ).collect();
    let program_id = Address { bytes: built.program_id.to_bytes() };
    Instruction { program_id, accounts, data: built.data }
}

/// Calls `spl_token::instruction::mint_to` for the token program, with the authority
/// as the only signer. Trusted: the call succeeds for that program, and the
/// instruction is the one that [`mint_to_instruction`] spells out.
#[verifier::external_body]
pub(crate) fn token_mint_to(
    mint: &Address,
    account: &Address,
    authority: &Address,
    amount: u64,
) -> (built: Option<Instruction>)
    ensures
        built is Some,
        built->0@ == mint_to_instruction(mint@, account@, authority@, amount),
{
    let built = spl_token::instruction::mint_to(
        &spl_token::id(),
        &Pubkey::from(mint.bytes),
        &Pubkey::from(account.bytes),
        &Pubkey::from(authority.bytes),
        &[],
        amount,
    ).ok()?;
    let accounts = built.accounts.iter().map(
        |m| AccountMeta::from_parts(m.pubkey.to_bytes(), m.is_signer, m.is_writable),
    ).collect();
    let program_id = Address { bytes: built.program_id.to_bytes() };
    Some(Instruction { program_id, accounts, data: built.data })
}

/// Calls `spl_token::instruction::transfer` for the token program, with the owner as
/// the only signer. Trusted: the call succeeds for that program, and the instruction
/// is the one that [`transfer_instruction`] spells out.
#[verifier::external_body]
pub(crate) fn token_transfer(
    source: &Address,
    destination: &Address,
    owner: &Address,
    amount: u64,
) -> (built: Option<Instruction>)
    ensures
        built is Some,
        built->0@ == transfer_instruction(source@, destination@, owner@, amount),
{
    let built = spl_token::instruction::transfer(
        &spl_token::id(),
        &Pubkey::from(source.bytes),
        &Pubkey::from(destination.bytes),
        &Pubkey::from(owner.bytes),
        &[],
        amount,
    ).ok()?;
    let accounts = built.accounts.iter().map(
        |m| AccountMeta::from_parts(m.pubkey.to_bytes(), m.is_signer, m.is_writable),
    ).collect();
    let program_id = Address { bytes: built.program_id.to_bytes() };
    Some(Instruction { program_id, accounts, data: built.data })
}

} // verus!
