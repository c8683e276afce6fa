//! Account addresses and transaction identifiers, decoded from their text form.

use crate::error::AppError;
use vstd::prelude::*;
use vstd::string::*;

verus! {

/// The 32 bytes that a text decodes to as an account address, or `None` where it is
/// not the base58 form of 32 bytes.
pub uninterp spec fn pubkey_from_str(text: Seq<char>) -> Option<Seq<u8>>;

/// The 64 bytes that a text decodes to as a transaction identifier, or `None` where it
/// is not the base58 form of 64 bytes.
pub uninterp spec fn signature_from_str(text: Seq<char>) -> Option<Seq<u8>>;

/// The text form of a 64-byte transaction identifier.
pub uninterp spec fn signature_to_string(bytes: Seq<u8>) -> Seq<char>;

/// The text form of a 32-byte account address.
pub uninterp spec fn pubkey_to_string(bytes: Seq<u8>) -> Seq<char>;

/// An account address in decoded form.
#[derive(Clone, Copy, Debug)]
pub struct Address {
    pub bytes: [u8; 32],
}

impl View for Address {
    type V = Seq<u8>;

    open spec fn view(&self) -> Seq<u8> {
        self.bytes@
    }
}

/// A transaction identifier in decoded form.
#[derive(Clone, Copy, Debug)]
pub struct TransactionId {
    pub bytes: [u8; 64],
}

impl View for TransactionId {
    type V = Seq<u8>;

    open spec fn view(&self) -> Seq<u8> {
        self.bytes@
    }
}

/// Whether a text is a well-formed account address.
pub open spec fn is_address(text: Seq<char>) -> bool {
    pubkey_from_str(text) is Some
}

/// Whether a text is a well-formed transaction identifier.
pub open spec fn is_transaction_id(text: Seq<char>) -> bool {
    signature_from_str(text) is Some
}

/// Calls `solana_sdk::pubkey::Pubkey::from_str`, which decodes base58 text into a
/// 32-byte key and depends on the text alone. Trusted: the result is the decoding
/// named by [`pubkey_from_str`], with any refusal of the text reported as `None`.
#[verifier::external_body]
fn decode_pubkey(text: &str) -> (decoded: Option<Address>)
    ensures
        match decoded {
            Some(address) => pubkey_from_str(text@) == Some(address@),
            None => pubkey_from_str(text@) is None,
        },
{
    <solana_sdk::pubkey::Pubkey as std::str::FromStr>::from_str(text).ok().map(
        |key| Address { bytes: key.to_bytes() },
    )
}

/// Calls `solana_sdk::signature::Signature::from_str`, which decodes base58 text into
/// a 64-byte signature and depends on the text alone. Trusted: the result is the
/// decoding named by [`signature_from_str`], with any refusal reported as `None`.
#[verifier::external_body]
fn decode_signature(text: &str) -> (decoded: Option<TransactionId>)
    ensures
        match decoded {
            Some(id) => signature_from_str(text@) == Some(id@),
            None => signature_from_str(text@) is None,
        },
{
    <solana_sdk::signature::Signature as std::str::FromStr>::from_str(text).ok().map(
        |signature| TransactionId { bytes: signature.into() },
    )
}

/// Calls `to_string` on a `solana_sdk::signature::Signature`, which writes the 64 bytes
/// in base58. Trusted: the result is the text named by [`signature_to_string`].
#[verifier::external_body]
fn encode_signature(id: &TransactionId) -> (text: String)
    ensures
        text@ == signature_to_string(id@),
{
    solana_sdk::signature::Signature::from(id.bytes).to_string()
}

/// Calls `to_string` on a `solana_sdk::pubkey::Pubkey`, which writes the 32 bytes in
/// base58. Trusted: the result is the text named by [`pubkey_to_string`].
#[verifier::external_body]
fn encode_pubkey(address: &Address) -> (text: String)
    ensures
        text@ == pubkey_to_string(address@),
{
    solana_sdk::pubkey::Pubkey::from(address.bytes).to_string()
}

impl Address {
    /// The text form of the address.
    pub fn to_text(&self) -> (text: String)
        ensures
            text@ == pubkey_to_string(self@),
    {
        encode_pubkey(self)
    }

    /// Whether two addresses are the same 32 bytes.
    pub fn same(&self, other: &Address) -> (same: bool)
        ensures
            same == (self@ == other@),
    {
        let mut i: usize = 0;
        while i < 32
            invariant
                i <= 32,
                forall|j: int| 0 <= j < i ==> self.bytes@[j] == other.bytes@[j],
            decreases 32 - i,
        {
            if self.bytes[i] != other.bytes[i] {
                return false;
            }
            i += 1;
        }
        assert(self.bytes@ =~= other.bytes@);
        true
    }

    /// Decodes an address, or fails with `InvalidInput` and the message that names the
    /// offending field.
    pub fn parse(text: &str, complaint: &str) -> (parsed: Result<Address, AppError>)
        ensures
            match parsed {
                Ok(address) => pubkey_from_str(text@) == Some(address@),
                Err(e) => !is_address(text@) && e.is_invalid_input(complaint@),
            },
    {
        match decode_pubkey(text) {
            Some(address) => Ok(address),
            None => Err(AppError::InvalidInput(String::from_str(complaint))),
        }
    }
}

impl TransactionId {
    /// Decodes a transaction identifier, or fails with `InvalidInput`.
    pub fn parse(text: &str) -> (parsed: Result<TransactionId, AppError>)
        ensures
            match parsed {
                Ok(id) => signature_from_str(text@) == Some(id@),
                Err(e) => !is_transaction_id(text@) && e.is_invalid_input(
                    "Invalid signature format"@,
                ),
            },
    {
        match decode_signature(text) {
            Some(id) => Ok(id),
            None => Err(AppError::InvalidInput(String::from_str("Invalid signature format"))),
        }
    }

    /// The text form of the identifier.
    pub fn to_text(&self) -> (text: String)
        ensures
            text@ == signature_to_string(self@),
    {
        encode_signature(self)
    }
}

} // verus!
