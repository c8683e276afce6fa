//! The requests, replies and stored rows of the service, as plain values.

use vstd::prelude::*;
use vstd::string::*;

verus! {

/// The text inside an optional string.
pub open spec fn text_of(value: Option<String>) -> Option<Seq<char>> {
    match value {
        Some(text) => Some(text@),
        None => None,
    }
}

/// Copies an optional string.
pub fn copy_text(value: &Option<String>) -> (copy: Option<String>)
    ensures
        text_of(copy) == text_of(*value),
{
    match value {
        Some(text) => Some(text.clone()),
        None => None,
    }
}

/// The kind of operation a ledger row stands for.
#[derive(Clone, Copy, Debug, PartialEq, Eq, Structural)]
pub enum OperationKind {
    Mint,
    Transfer,
}

/// The status of a recorded transaction.
#[derive(Clone, Copy, Debug, PartialEq, Eq, Structural)]
pub enum RecordStatus {
    Pending,
    Confirmed,
    Failed,
    NotFound,
}

impl OperationKind {
    /// The name under which the kind is stored and shown.
    pub open spec fn label_of(self) -> Seq<char> {
        match self {
            OperationKind::Mint => "mint"@,
            OperationKind::Transfer => "transfer"@,
        }
    }

    /// The kind that a stored name stands for.
    pub open spec fn named(label: Seq<char>) -> Option<OperationKind> {
        if label == "mint"@ {
            Some(OperationKind::Mint)
        } else if label == "transfer"@ {
            Some(OperationKind::Transfer)
        } else {
            None
        }
    }

    pub fn label(&self) -> (label: &'static str)
        ensures
            label@ == self.label_of(),
    {
        match self {
            OperationKind::Mint => "mint",
            OperationKind::Transfer => "transfer",
        }
    }

    pub fn from_label(label: &str) -> (kind: Option<OperationKind>)
        ensures
            kind == OperationKind::named(label@),
    {
        let text = String::from_str(label);
        if text == String::from_str("mint") {
            Some(OperationKind::Mint)
        } else if text == String::from_str("transfer") {
            Some(OperationKind::Transfer)
        } else {
            None
        }
    }
}

impl RecordStatus {
    /// The name under which the status is stored and shown.
    pub open spec fn label_of(self) -> Seq<char> {
        match self {
            RecordStatus::Pending => "pending"@,
            RecordStatus::Confirmed => "confirmed"@,
            RecordStatus::Failed => "failed"@,
            RecordStatus::NotFound => "not_found"@,
        }
    }

    /// The status that a stored name stands for.
    pub open spec fn named(label: Seq<char>) -> Option<RecordStatus> {
        if label == "pending"@ {
            Some(RecordStatus::Pending)
        } else if label == "confirmed"@ {
            Some(RecordStatus::Confirmed)
        } else if label == "failed"@ {
            Some(RecordStatus::Failed)
        } else if label == "not_found"@ {
            Some(RecordStatus::NotFound)
        } else {
            None
        }
    }

    pub fn label(&self) -> (label: &'static str)
        ensures
            label@ == self.label_of(),
    {
        match self {
            RecordStatus::Pending => "pending",
            RecordStatus::Confirmed => "confirmed",
            RecordStatus::Failed => "failed",
            RecordStatus::NotFound => "not_found",
        }
    }

    pub fn from_label(label: &str) -> (status: Option<RecordStatus>)
        ensures
            status == RecordStatus::named(label@),
    {
        let text = String::from_str(label);
        if text == String::from_str("pending") {
            Some(RecordStatus::Pending)
        } else if text == String::from_str("confirmed") {
            Some(RecordStatus::Confirmed)
        } else if text == String::from_str("failed") {
            Some(RecordStatus::Failed)
        } else if text == String::from_str("not_found") {
            Some(RecordStatus::NotFound)
        } else {
            None
        }
    }
}

/// A name is read back as the kind or status that it was written for.
pub proof fn labels_read_back(kind: OperationKind, status: RecordStatus)
    ensures
        OperationKind::named(kind.label_of()) == Some(kind),
        RecordStatus::named(status.label_of()) == Some(status),
{
    reveal_strlit("mint");
    reveal_strlit("transfer");
    reveal_strlit("pending");
    reveal_strlit("confirmed");
    reveal_strlit("failed");
    reveal_strlit("not_found");
    assert("mint"@.len() != "transfer"@.len());
    assert("pending"@.len() != "confirmed"@.len());
    assert("pending"@.len() != "failed"@.len());
    assert("pending"@.len() != "not_found"@.len());
    assert("confirmed"@[0] != "not_found"@[0]);
    assert("confirmed"@.len() != "failed"@.len());
    assert("failed"@.len() != "not_found"@.len());
}

/// One value of a row's free-form metadata.
#[derive(Debug)]
pub enum MetadataValue {
    Text(String),
    Number(u64),
}

pub enum MetadataValueView {
    Text(Seq<char>),
    Number(u64),
}

impl View for MetadataValue {
    type V = MetadataValueView;

    open spec fn view(&self) -> MetadataValueView {
        match self {
            MetadataValue::Text(text) => MetadataValueView::Text(text@),
            MetadataValue::Number(number) => MetadataValueView::Number(*number),
        }
    }
}

/// One named entry of a row's free-form metadata.
#[derive(Debug)]
pub struct MetadataEntry {
    pub key: String,
    pub value: MetadataValue,
}

pub struct MetadataEntryView {
    pub key: Seq<char>,
    pub value: MetadataValueView,
}

impl View for MetadataEntry {
    type V = MetadataEntryView;

    open spec fn view(&self) -> MetadataEntryView {
        MetadataEntryView { key: self.key@, value: self.value@ }
    }
}

impl MetadataEntry {
    pub fn text(key: &str, value: &str) -> (entry: MetadataEntry)
        ensures
            entry@ == (MetadataEntryView { key: key@, value: MetadataValueView::Text(value@) }),
    {
        MetadataEntry {
            key: String::from_str(key),
            value: MetadataValue::Text(String::from_str(value)),
        }
    }

    pub fn number(key: &str, value: u64) -> (entry: MetadataEntry)
        ensures
            entry@ == (MetadataEntryView { key: key@, value: MetadataValueView::Number(value) }),
    {
        MetadataEntry { key: String::from_str(key), value: MetadataValue::Number(value) }
    }

    pub fn duplicate(&self) -> (copy: MetadataEntry)
        ensures
            copy@ == self@,
    {
        let value = match &self.value {
            MetadataValue::Text(text) => MetadataValue::Text(text.clone()),
            MetadataValue::Number(number) => MetadataValue::Number(*number),
        };
        MetadataEntry { key: self.key.clone(), value }
    }
}

/// The entries of a row's metadata, in order.
pub open spec fn metadata_of(entries: Seq<MetadataEntry>) -> Seq<MetadataEntryView> {
    entries.map_values(|entry: MetadataEntry| entry@)
}

/// Copies the entries of a row's metadata.
pub fn copy_metadata(entries: &Vec<MetadataEntry>) -> (copy: Vec<MetadataEntry>)
    ensures
        metadata_of(copy@) == metadata_of(entries@),
{
    let mut copy: Vec<MetadataEntry> = Vec::new();
    let mut i: usize = 0;
    while i < entries.len()
        invariant
            i <= entries.len(),
            copy@.len() == i,
            forall|j: int| 0 <= j < i ==> copy@[j]@ == entries@[j]@,
        decreases entries.len() - i,
    {
        copy.push(entries[i].duplicate());
        i += 1;
    }
    assert(metadata_of(copy@) =~= metadata_of(entries@));
    copy
}

/// The query of the native-coin balance endpoint.
#[derive(Debug)]
pub struct BalanceQuery {
    pub address: String,
}

/// The reply of the native-coin balance endpoint, in the smallest unit of the coin.
#[derive(Debug)]
pub struct BalanceResponse {
    pub address: String,
    pub balance_lamports: u64,
}

#[derive(Debug)]
pub struct CreateMintRequest {
    pub decimals: u8,
    pub mint_authority: String,
    pub freeze_authority: Option<String>,
}

#[derive(Debug)]
pub struct MintResponse {
    pub mint_address: String,
    pub signature: String,
    pub decimals: u8,
    pub mint_authority: String,
    pub freeze_authority: Option<String>,
}

#[derive(Debug)]
pub struct MintTokensRequest {
    pub user_id: u128,
    pub mint_address: String,
    pub destination_address: String,
    pub amount: u64,
    pub authority: String,
}

#[derive(Debug)]
pub struct TransferTokensRequest {
    pub user_id: u128,
    pub mint_address: String,
    pub from_address: String,
    pub to_address: String,
    pub amount: u64,
    pub owner: String,
}

#[derive(Debug)]
pub struct TransactionResponse {
    pub signature: String,
    pub slot: Option<u64>,
    pub status: String,
}

#[derive(Debug)]
pub struct TransactionQuery {
    pub user_id: u128,
    pub limit: Option<i64>,
    pub offset: Option<i64>,
}

#[derive(Debug)]
pub struct VerifyTransactionQuery {
    pub signature: String,
}

#[derive(Debug)]
pub struct TransactionStatus {
    pub signature: String,
    pub status: String,
    pub confirmations: Option<u64>,
    pub slot: Option<u64>,
}

/// One row of the transaction ledger, keyed by `transaction_hash`.
#[derive(Debug)]
pub struct TransactionRecord {
    pub id: u128,
    pub user_id: u128,
    pub transaction_hash: String,
    pub transaction_type: OperationKind,
    pub amount: u64,
    pub token_address: String,
    pub from_address: Option<String>,
    pub to_address: Option<String>,
    pub status: RecordStatus,
    pub block_number: Option<u64>,
    pub metadata: Vec<MetadataEntry>,
}

pub struct TransactionRecordView {
    pub id: u128,
    pub user_id: u128,
    pub transaction_hash: Seq<char>,
    pub transaction_type: OperationKind,
    pub amount: u64,
    pub token_address: Seq<char>,
    pub from_address: Option<Seq<char>>,
    pub to_address: Option<Seq<char>>,
    pub status: RecordStatus,
    pub block_number: Option<u64>,
    pub metadata: Seq<MetadataEntryView>,
}

impl View for TransactionRecord {
    type V = TransactionRecordView;

    open spec fn view(&self) -> TransactionRecordView {
        TransactionRecordView {
            id: self.id,
            user_id: self.user_id,
            transaction_hash: self.transaction_hash@,
            transaction_type: self.transaction_type,
            amount: self.amount,
            token_address: self.token_address@,
            from_address: text_of(self.from_address),
            to_address: text_of(self.to_address),
            status: self.status,
            block_number: self.block_number,
            metadata: metadata_of(self.metadata@),
        }
    }
}

impl TransactionRecord {
    pub fn duplicate(&self) -> (copy: TransactionRecord)
        ensures
            copy@ == self@,
    {
        TransactionRecord {
            id: self.id,
            user_id: self.user_id,
            transaction_hash: self.transaction_hash.clone(),
            transaction_type: self.transaction_type,
            amount: self.amount,
            token_address: self.token_address.clone(),
            from_address: copy_text(&self.from_address),
            to_address: copy_text(&self.to_address),
            status: self.status,
            block_number: self.block_number,
            metadata: copy_metadata(&self.metadata),
        }
    }
}

/// The records of a list, in order.
pub open spec fn transactions_of(list: Seq<TransactionRecord>) -> Seq<TransactionRecordView> {
    list.map_values(|record: TransactionRecord| record@)
}

/// One row of the table of known mints, keyed by `mint_address`.
#[derive(Debug)]
pub struct MintRecord {
    pub id: u128,
    pub mint_address: String,
    pub decimals: i16,
    pub mint_authority: String,
    pub freeze_authority: Option<String>,
    pub created_at: i64,
}

pub struct MintRecordView {
    pub id: u128,
    pub mint_address: Seq<char>,
    pub decimals: i16,
    pub mint_authority: Seq<char>,
    pub freeze_authority: Option<Seq<char>>,
    pub created_at: i64,
}

impl View for MintRecord {
    type V = MintRecordView;

    open spec fn view(&self) -> MintRecordView {
        MintRecordView {
            id: self.id,
            mint_address: self.mint_address@,
            decimals: self.decimals,
            mint_authority: self.mint_authority@,
            freeze_authority: text_of(self.freeze_authority),
            created_at: self.created_at,
        }
    }
}

impl MintRecord {
    pub fn duplicate(&self) -> (copy: MintRecord)
        ensures
            copy@ == self@,
    {
        MintRecord {
            id: self.id,
            mint_address: self.mint_address.clone(),
            decimals: self.decimals,
            mint_authority: self.mint_authority.clone(),
            freeze_authority: copy_text(&self.freeze_authority),
            created_at: self.created_at,
        }
    }
}

#[derive(Debug)]
pub struct TokenAccountInfo {
    pub address: String,
    pub mint: String,
    pub owner: String,
    pub amount: u64,
    pub decimals: u8,
}

#[derive(Debug)]
pub struct ErrorResponse {
    pub error: String,
    pub code: Option<String>,
    pub details: Option<Vec<MetadataEntry>>,
}

} // verus!
