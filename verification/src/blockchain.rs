//! The chain side of each operation, cut at every point where the network is asked.
//!
//! Each method takes what is known so far and the answer that came back, and returns
//! what to do next: an account to probe, a transaction to submit, a reply to send. The
//! caller talks to the network; nothing here does.

use crate::address::{
    is_address, is_transaction_id, pubkey_from_str, pubkey_to_string, signature_from_str,
    signature_to_string, Address, TransactionId,
};
use crate::assembler::{
    addresses_of, assemble_create_mint, assemble_mint_to, assemble_signers, assemble_transfer,
    create_mint_plan, instructions_of, mint_to_plan, resolve_token_account, signer_set,
    transfer_plan,
};
use crate::error::AppError;
use crate::instruction::{
    mint_account_space, mint_space, token_account, Instruction, InstructionView,
};
use crate::models::{
    copy_text, text_of, MintResponse, OperationKind, RecordStatus, TransactionResponse,
    TransactionStatus,
};
use vstd::prelude::*;
use vstd::string::*;

verus! {

/// What a lookup of an account on the network came back with.
#[derive(Debug)]
pub enum Probe {
    /// The account exists.
    Found,
    /// The network knows no such account. This is no failure: it calls for the
    /// account to be created.
    NotFound,
    /// The lookup itself failed.
    Failed(String),
}

/// A transaction ready to be signed and submitted: its instructions in order, and the
/// parties whose signatures it needs, the fee payer first.
#[derive(Debug)]
pub struct Submission {
    pub instructions: Vec<Instruction>,
    pub signers: Vec<Address>,
}

/// What the network confirmed: the transaction's identifier and, where known, the
/// block height at which it was confirmed.
#[derive(Debug)]
pub struct Receipt {
    pub signature: TransactionId,
    pub slot: Option<u64>,
}

/// The text inside an optional string slice.
pub open spec fn slice_of(value: Option<&str>) -> Option<Seq<char>> {
    match value {
        Some(text) => Some(text@),
        None => None,
    }
}

/// The bytes of an optional address.
pub open spec fn bytes_of(value: Option<Address>) -> Option<Seq<u8>> {
    match value {
        Some(address) => Some(address@),
        None => None,
    }
}

/// The status that an answer of the network to a status query stands for: `None`
/// where it knows no such transaction, else whether the transaction succeeded.
pub open spec fn observed_status(outcome: Option<bool>) -> RecordStatus {
    match outcome {
        Some(true) => RecordStatus::Confirmed,
        Some(false) => RecordStatus::Failed,
        None => RecordStatus::NotFound,
    }
}

/// The chain side of the service: it knows the fee payer, which pays for and signs
/// every transaction.
#[derive(Debug)]
pub struct BlockchainService {
    payer: Address,
}

/// A mint about to be created: validated, waiting for the rent-exempt minimum and then
/// for the confirmation.
#[derive(Debug)]
pub struct MintCreation {
    pub payer: Address,
    pub mint: Address,
    pub decimals: u8,
    pub mint_authority: Address,
    pub freeze_authority: Option<Address>,
    pub mint_authority_text: String,
    pub freeze_authority_text: Option<String>,
}

/// A mint-to or a transfer about to be made: validated, its token accounts resolved,
/// waiting for the probe of the receiving account and then for the confirmation.
#[derive(Debug)]
pub struct TokenOperation {
    kind: OperationKind,
    payer: Address,
    mint: Address,
    sender: Option<(Address, Address)>,
    recipient: Address,
    recipient_account: Address,
    signer: Address,
    amount: u64,
}

/// What a pending token operation is about. `sender` is the wallet that a transfer
/// takes from; `signer` is the mint authority of a mint-to, the owner of a transfer.
pub struct TokenOperationView {
    pub kind: OperationKind,
    pub payer: Seq<u8>,
    pub mint: Seq<u8>,
    pub sender: Option<Seq<u8>>,
    pub recipient: Seq<u8>,
    pub signer: Seq<u8>,
    pub amount: u64,
}

impl TokenOperationView {
    /// Every wallet of the operation has a token account, and exactly a transfer has
    /// a sender.
    pub open spec fn resolved(self) -> bool {
        &&& token_account(self.recipient, self.mint) is Some
        &&& self.kind is Transfer <==> self.sender is Some
        &&& self.sender matches Some(wallet) ==> token_account(wallet, self.mint) is Some
    }

    /// The token account that the operation credits.
    pub open spec fn recipient_account(self) -> Seq<u8> {
        token_account(self.recipient, self.mint)->0
    }

    /// The instructions of the operation, given whether the receiving token account
    /// exists.
    pub open spec fn plan(self, account_exists: bool) -> Seq<InstructionView> {
        match self.kind {
            OperationKind::Mint => mint_to_plan(
                self.payer,
                self.mint,
                self.recipient,
                self.signer,
                self.amount,
                account_exists,
            ),
            OperationKind::Transfer => transfer_plan(
                self.payer,
                self.mint,
                self.sender->0,
                self.recipient,
                self.signer,
                self.amount,
                account_exists,
            ),
        }
    }
}

impl View for TokenOperation {
    type V = TokenOperationView;

    closed spec fn view(&self) -> TokenOperationView {
        TokenOperationView {
            kind: self.kind,
            payer: self.payer@,
            mint: self.mint@,
            sender: match self.sender {
                Some((wallet, _)) => Some(wallet@),
                None => None,
            },
            recipient: self.recipient@,
            signer: self.signer@,
            amount: self.amount,
        }
    }
}

impl BlockchainService {
    /// The address of the fee payer.
    pub closed spec fn payer(&self) -> Seq<u8> {
        self.payer@
    }

    /// The service of the fee payer `payer`.
    pub fn new(payer: Address) -> (service: BlockchainService)
        ensures
            service.payer() == payer@,
    {
        BlockchainService { payer }
    }

    /// The address of the fee payer.
    pub fn payer_address(&self) -> (payer: Address)
        ensures
            payer@ == self.payer(),
    {
        self.payer
    }

    /// Starts the creation of the mint `mint`, a fresh identity of the caller's.
    /// Both authorities are validated before anything else happens.
    pub fn create_mint(
        &self,
        mint: Address,
        decimals: u8,
        mint_authority: &str,
        freeze_authority: Option<&str>,
    ) -> (started: Result<MintCreation, AppError>)
        ensures
            match started {
                Ok(creation) => {
                    &&& creation.payer@ == self.payer()
                    &&& creation.mint@ == mint@
                    &&& creation.decimals == decimals
                    &&& pubkey_from_str(mint_authority@) == Some(creation.mint_authority@)
                    &&& creation.mint_authority_text@ == mint_authority@
                    &&& creation.freeze_authority is Some <==> freeze_authority is Some
                    &&& freeze_authority matches Some(text) ==> pubkey_from_str(text@)
                        == bytes_of(creation.freeze_authority)
                    &&& text_of(creation.freeze_authority_text) == slice_of(freeze_authority)
                },
                Err(e) => if !is_address(mint_authority@) {
                    e.is_invalid_input("Invalid mint authority address"@)
                } else {
                    &&& freeze_authority matches Some(text) && !is_address(text@)
                    &&& e.is_invalid_input("Invalid freeze authority address"@)
                },
            },
    {
        let authority = match Address::parse(mint_authority, "Invalid mint authority address") {
            Ok(address) => address,
            Err(e) => { return Err(e); },
        };
        let (freeze, freeze_text) = match freeze_authority {
            Some(text) => {
                match Address::parse(text, "Invalid freeze authority address") {
                    Ok(address) => (Some(address), Some(String::from_str(text))),
                    Err(e) => { return Err(e); },
                }
            },
            None => (None, None),
        };
        Ok(
            MintCreation {
                payer: self.payer,
                mint,
                decimals,
                mint_authority: authority,
                freeze_authority: freeze,
                mint_authority_text: String::from_str(mint_authority),
                freeze_authority_text: freeze_text,
            },
        )
    }

    /// Starts minting `amount` units of `mint` to the wallet `destination`. The
    /// authority is validated and the receiving token account resolved before
    /// anything else happens.
    pub fn mint_tokens(
        &self,
        mint: &Address,
        destination: &Address,
        amount: u64,
        authority: &str,
    ) -> (started: Result<TokenOperation, AppError>)
        ensures
            match started {
                Ok(operation) => {
                    &&& is_address(authority@)
                    &&& operation@ == (TokenOperationView {
                        kind: OperationKind::Mint,
                        payer: self.payer(),
                        mint: mint@,
                        sender: None,
                        recipient: destination@,
                        signer: pubkey_from_str(authority@)->0,
                        amount,
                    })
                    &&& operation@.resolved()
                },
                Err(e) => if !is_address(authority@) {
                    e.is_invalid_input("Invalid authority address"@)
                } else {
                    &&& token_account(destination@, mint@) is None
                    &&& e.is_internal("No token account for the destination"@)
                },
            },
    {
        let signer = match Address::parse(authority, "Invalid authority address") {
            Ok(address) => address,
            Err(e) => { return Err(e); },
        };
        let recipient_account = match resolve_token_account(destination, mint) {
            Some(account) => account,
            None => {
                return Err(
                    AppError::Internal(String::from_str("No token account for the destination")),
                );
            },
        };
        Ok(
            TokenOperation {
                kind: OperationKind::Mint,
                payer: self.payer,
                mint: *mint,
                sender: None,
                recipient: *destination,
                recipient_account,
                signer,
                amount,
            },
        )
    }

    /// Starts transferring `amount` units of `mint` from the wallet `from` to the
    /// wallet `to`. The owner is validated and both token accounts resolved before
    /// anything else happens.
    pub fn transfer_tokens(
        &self,
        mint: &Address,
        from: &Address,
        to: &Address,
        amount: u64,
        owner: &str,
    ) -> (started: Result<TokenOperation, AppError>)
        ensures
            match started {
                Ok(operation) => {
                    &&& is_address(owner@)
                    &&& operation@ == (TokenOperationView {
                        kind: OperationKind::Transfer,
                        payer: self.payer(),
                        mint: mint@,
                        sender: Some(from@),
                        recipient: to@,
                        signer: pubkey_from_str(owner@)->0,
                        amount,
                    })
                    &&& operation@.resolved()
                },
                Err(e) => if !is_address(owner@) {
                    e.is_invalid_input("Invalid owner address"@)
                } else if token_account(from@, mint@) is None {
                    e.is_internal("No token account for the source"@)
                } else {
                    &&& token_account(to@, mint@) is None
                    &&& e.is_internal("No token account for the destination"@)
                },
            },
    {
        let signer = match Address::parse(owner, "Invalid owner address") {
            Ok(address) => address,
            Err(e) => { return Err(e); },
        };
        let source = match resolve_token_account(from, mint) {
            Some(account) => account,
            None => {
                return Err(AppError::Internal(String::from_str("No token account for the source")));
            },
        };
        let recipient_account = match resolve_token_account(to, mint) {
            Some(account) => account,
            None => {
                return Err(
                    AppError::Internal(String::from_str("No token account for the destination")),
                );
            },
        };
        Ok(
            TokenOperation {
                kind: OperationKind::Transfer,
                payer: self.payer,
                mint: *mint,
                sender: Some((*from, source)),
                recipient: *to,
                recipient_account,
                signer,
                amount,
            },
        )
    }

    /// Starts a status query: the identifier is validated before the network is asked.
    pub fn get_transaction_status(&self, signature: &str) -> (started: Result<
        TransactionId,
        AppError,
    >)
        ensures
            match started {
                Ok(id) => signature_from_str(signature@) == Some(id@),
                Err(e) => !is_transaction_id(signature@) && e.is_invalid_input(
                    "Invalid signature format"@,
                ),
            },
    {
        TransactionId::parse(signature)
    }
}

/// The status that the network's answer to a status query stands for.
pub fn observe(outcome: Option<bool>) -> (status: RecordStatus)
    ensures
        status == observed_status(outcome),
{
    match outcome {
        Some(true) => RecordStatus::Confirmed,
        Some(false) => RecordStatus::Failed,
        None => RecordStatus::NotFound,
    }
}

/// The reply to a status query, from the network's answer: `None` where it knows no
/// such transaction, else whether the transaction succeeded.
pub fn transaction_status(id: &TransactionId, outcome: Option<bool>) -> (status: TransactionStatus)
    ensures
        status.signature@ == signature_to_string(id@),
        status.status@ == observed_status(outcome).label_of(),
        status.confirmations is None,
        status.slot is None,
{
    let observed = observe(outcome);
    TransactionStatus {
        signature: id.to_text(),
        status: String::from_str(observed.label()),
        confirmations: None,
        slot: None,
    }
}

impl MintCreation {
    /// The size of the account to be created, for which the rent-exempt minimum is
    /// asked.
    pub fn space(&self) -> (space: u64)
        ensures
            space == mint_space(),
    {
        mint_account_space()
    }

    /// The transaction that creates the mint, once the rent-exempt minimum for its
    /// account is known. The payer and the new mint sign.
    pub fn submission(&self, rent: u64) -> (submission: Submission)
        ensures
            instructions_of(submission.instructions@) == create_mint_plan(
                self.payer@,
                self.mint@,
                rent,
                self.mint_authority@,
                bytes_of(self.freeze_authority),
                self.decimals,
            ),
            addresses_of(submission.signers@) == signer_set(self.payer@, self.mint@),
    {
        let instructions = assemble_create_mint(
            &self.payer,
            &self.mint,
            rent,
            &self.mint_authority,
            &self.freeze_authority,
            self.decimals,
        );
        let signers = assemble_signers(&self.payer, &self.mint);
        Submission { instructions, signers }
    }

    /// The reply, once the network has confirmed the transaction.
    pub fn response(&self, signature: &TransactionId) -> (response: MintResponse)
        ensures
            response.mint_address@ == pubkey_to_string(self.mint@),
            response.signature@ == signature_to_string(signature@),
            response.decimals == self.decimals,
            response.mint_authority@ == self.mint_authority_text@,
            text_of(response.freeze_authority) == text_of(self.freeze_authority_text),
    {
        MintResponse {
            mint_address: self.mint.to_text(),
            signature: signature.to_text(),
            decimals: self.decimals,
            mint_authority: self.mint_authority_text.clone(),
            freeze_authority: copy_text(&self.freeze_authority_text),
        }
    }
}

impl TokenOperation {
    #[verifier::type_invariant]
    spec fn resolved(self) -> bool {
        &&& token_account(self.recipient@, self.mint@) == Some(self.recipient_account@)
        &&& self.kind is Transfer <==> self.sender is Some
        &&& self.sender matches Some((wallet, account)) ==> token_account(wallet@, self.mint@)
            == Some(account@)
    }

    /// The token account to look up before the transaction is assembled.
    pub fn probe_target(&self) -> (account: Address)
        ensures
            self@.resolved(),
            account@ == self@.recipient_account(),
    {
        proof {
            use_type_invariant(self);
        }
        self.recipient_account
    }

    /// The transaction of the operation, from the outcome of the probe. An account
    /// that was not found is created first; a lookup that failed fails the operation
    /// with a transport error.
    pub fn submission(&self, probe: Probe) -> (submission: Result<Submission, AppError>)
        ensures
            self@.resolved(),
            match probe {
                Probe::Failed(detail) => submission matches Err(e) && e.is_transport(detail@),
                _ => {
                    &&& submission matches Ok(s)
                    &&& instructions_of(s.instructions@) == self@.plan(probe is Found)
                    &&& addresses_of(s.signers@) == signer_set(self@.payer, self@.signer)
                },
            },
    {
        proof {
            use_type_invariant(self);
        }
        let account_exists = match probe {
            Probe::Found => true,
            Probe::NotFound => false,
            Probe::Failed(detail) => { return Err(AppError::Solana(detail)); },
        };
        let instructions = match self.sender {
            None => assemble_mint_to(
                &self.payer,
                &self.mint,
                &self.recipient,
                &self.recipient_account,
                &self.signer,
                self.amount,
                account_exists,
            ),
            Some((wallet, account)) => assemble_transfer(
                &self.payer,
                &self.mint,
                &wallet,
                &self.recipient,
                &account,
                &self.recipient_account,
                &self.signer,
                self.amount,
                account_exists,
            ),
        };
        let signers = assemble_signers(&self.payer, &self.signer);
        Ok(Submission { instructions, signers })
    }

    /// The reply, once the network has confirmed the transaction.
    pub fn response(&self, receipt: &Receipt) -> (response: TransactionResponse)
        ensures
            response.signature@ == signature_to_string(receipt.signature@),
            response.slot == receipt.slot,
            response.status@ == RecordStatus::Confirmed.label_of(),
    {
        TransactionResponse {
            signature: receipt.signature.to_text(),
            slot: receipt.slot,
            status: String::from_str(RecordStatus::Confirmed.label()),
        }
    }
}

} // verus!
