//! The ordered instruction list of each operation, and who must sign it.

use crate::address::Address;
use crate::instruction::{
    create_account_instruction, create_associated_token_account_idempotent,
    create_token_account_instruction, derive_token_account, initialize_mint_instruction,
    mint_account_space, mint_space, mint_to_instruction, system_create_account,
    token_account, token_initialize_mint, token_mint_to, token_program, token_transfer,
    transfer_instruction, Instruction, InstructionView,
};
use vstd::prelude::*;

verus! {

/// The instructions of a list, in order.
pub open spec fn instructions_of(list: Seq<Instruction>) -> Seq<InstructionView> {
    list.map_values(|instruction: Instruction| instruction@)
}

/// The addresses of a list, in order.
pub open spec fn addresses_of(list: Seq<Address>) -> Seq<Seq<u8>> {
    list.map_values(|address: Address| address@)
}

/// Creating a mint: the account is created and funded first, then initialized.
pub open spec fn create_mint_plan(
    payer: Seq<u8>,
    mint: Seq<u8>,
    rent: u64,
    mint_authority: Seq<u8>,
    freeze_authority: Option<Seq<u8>>,
    decimals: u8,
) -> Seq<InstructionView> {
    seq![
        create_account_instruction(payer, mint, rent, mint_space(), token_program()),
        initialize_mint_instruction(mint, mint_authority, freeze_authority, decimals),
    ]
}

/// Minting to a wallet: its token account is created first where it is missing, then
/// credited.
pub open spec fn mint_to_plan(
    payer: Seq<u8>,
    mint: Seq<u8>,
    destination: Seq<u8>,
    authority: Seq<u8>,
    amount: u64,
    account_exists: bool,
) -> Seq<InstructionView>
    recommends
        token_account(destination, mint) is Some,
{
    let credit = mint_to_instruction(mint, token_account(destination, mint)->0, authority, amount);
    if account_exists {
        seq![credit]
    } else {
        seq![create_token_account_instruction(payer, destination, mint), credit]
    }
}

/// Transferring between wallets: the receiving token account is created first where
/// it is missing, then the amount moves from the sender's token account to it.
pub open spec fn transfer_plan(
    payer: Seq<u8>,
    mint: Seq<u8>,
    from: Seq<u8>,
    to: Seq<u8>,
    owner: Seq<u8>,
    amount: u64,
    account_exists: bool,
) -> Seq<InstructionView>
    recommends
        token_account(from, mint) is Some,
        token_account(to, mint) is Some,
{
    let movement = transfer_instruction(
        token_account(from, mint)->0,
        token_account(to, mint)->0,
        owner,
        amount,
    );
    if account_exists {
        seq![movement]
    } else {
        seq![create_token_account_instruction(payer, to, mint), movement]
    }
}

/// Whether a transaction of these instructions, paid for by `payer`, needs the
/// signature of `key`: the payer always signs, and so does every account that an
/// instruction marks as a signer.
pub open spec fn must_sign(payer: Seq<u8>, plan: Seq<InstructionView>, key: Seq<u8>) -> bool {
    key == payer || exists|i: int, j: int|
        0 <= i < plan.len() && 0 <= j < plan[i].accounts.len()
            && #[trigger] plan[i].accounts[j].is_signer && plan[i].accounts[j].pubkey == key
}

/// The payer, followed by the one other party that signs unless that is the payer.
pub open spec fn signer_set(payer: Seq<u8>, other: Seq<u8>) -> Seq<Seq<u8>> {
    if other == payer {
        seq![payer]
    } else {
        seq![payer, other]
    }
}

/// The token account that holds `mint` for `wallet`. It is never stored: it is derived
/// from the two addresses whenever it is needed. `None` where no such account can be
/// derived.
pub fn resolve_token_account(wallet: &Address, mint: &Address) -> (account: Option<Address>)
    ensures
        match account {
            Some(derived) => token_account(wallet@, mint@) == Some(derived@),
            None => token_account(wallet@, mint@) is None,
        },
{
    derive_token_account(wallet, mint)
}

/// The instructions that create a mint. The order is fixed: creation, then
/// initialization.
pub fn assemble_create_mint(
    payer: &Address,
    mint: &Address,
    rent: u64,
    mint_authority: &Address,
    freeze_authority: &Option<Address>,
    decimals: u8,
) -> (plan: Vec<Instruction>)
    ensures
        instructions_of(plan@) == create_mint_plan(
            payer@,
            mint@,
            rent,
            mint_authority@,
            match *freeze_authority {
                Some(key) => Some(key@),
                None => None,
            },
            decimals,
        ),
{
    let create = system_create_account(payer, mint, rent, mint_account_space());
    let initialize = token_initialize_mint(
        mint,
        mint_authority,
        freeze_authority,
        decimals,
    ).unwrap();
    let mut plan: Vec<Instruction> = Vec::new();
    plan.push(create);
    plan.push(initialize);
    assert(instructions_of(plan@) =~= create_mint_plan(
        payer@,
        mint@,
        rent,
        mint_authority@,
        match *freeze_authority {
            Some(key) => Some(key@),
            None => None,
        },
        decimals,
    ));
    plan
}

/// The instructions that mint `amount` units to the token account of `destination`.
/// `account` is that token account; the creation instruction is put first exactly
/// when the account does not exist yet.
pub fn assemble_mint_to(
    payer: &Address,
    mint: &Address,
    destination: &Address,
    account: &Address,
    authority: &Address,
    amount: u64,
    account_exists: bool,
) -> (plan: Vec<Instruction>)
    requires
        token_account(destination@, mint@) == Some(account@),
    ensures
        instructions_of(plan@) == mint_to_plan(
            payer@,
            mint@,
            destination@,
            authority@,
            amount,
            account_exists,
        ),
{
    let mut plan: Vec<Instruction> = Vec::new();
    if !account_exists {
        plan.push(create_associated_token_account_idempotent(payer, destination, mint));
    }
    plan.push(token_mint_to(mint, account, authority, amount).unwrap());
    assert(instructions_of(plan@) =~= mint_to_plan(
        payer@,
        mint@,
        destination@,
        authority@,
        amount,
        account_exists,
    ));
    plan
}

/// The instructions that move `amount` units from the token account of `from` to that
/// of `to`. `source` and `target` are those token accounts; the creation instruction
/// for the target is put first exactly when it does not exist yet. The source is
/// taken to exist, since it must hold a balance.
pub fn assemble_transfer(
    payer: &Address,
    mint: &Address,
    from: &Address,
    to: &Address,
    source: &Address,
    target: &Address,
    owner: &Address,
    amount: u64,
    account_exists: bool,
) -> (plan: Vec<Instruction>)
    requires
        token_account(from@, mint@) == Some(source@),
        token_account(to@, mint@) == Some(target@),
    ensures
        instructions_of(plan@) == transfer_plan(
            payer@,
            mint@,
            from@,
            to@,
            owner@,
            amount,
            account_exists,
        ),
{
    let mut plan: Vec<Instruction> = Vec::new();
    if !account_exists {
        plan.push(create_associated_token_account_idempotent(payer, to, mint));
    }
    plan.push(token_transfer(source, target, owner, amount).unwrap());
    assert(instructions_of(plan@) =~= transfer_plan(
        payer@,
        mint@,
        from@,
        to@,
        owner@,
        amount,
        account_exists,
    ));
    plan
}

/// The signers of a transaction that the payer and one other party sign, each once.
pub fn assemble_signers(payer: &Address, other: &Address) -> (signers: Vec<Address>)
    ensures
        addresses_of(signers@) == signer_set(payer@, other@),
{
    let mut signers: Vec<Address> = Vec::new();
    signers.push(*payer);
    if !other.same(payer) {
        signers.push(*other);
    }
    assert(addresses_of(signers@) =~= signer_set(payer@, other@));
    signers
}

} // verus!
