//! The closed set of failures and the reply each one is turned into.

use vstd::prelude::*;
use vstd::string::*;

verus! {

/// Everything that can go wrong while serving a request.
///
/// The variants that stand for a collaborator's failure carry its description as text.
#[derive(Debug)]
pub enum AppError {
    /// The relational store failed.
    Database(String),
    /// The network RPC failed.
    Solana(String),
    /// A token program instruction could not be built or was refused.
    SolanaProgram(String),
    /// The caller supplied a malformed address, identifier or amount.
    InvalidInput(String),
    /// The requested resource does not exist.
    NotFound(String),
    /// The caller may not perform the operation.
    Unauthorized,
    /// Any other failure.
    Internal(String),
}

/// What the caller sees of a failure: the HTTP status and the fields of the JSON body.
#[derive(Debug)]
pub struct ErrorReply {
    pub status: u16,
    pub success: bool,
    pub error: String,
    pub code: Option<String>,
}

impl AppError {
    /// The HTTP status of the reply.
    pub open spec fn status_of(self) -> u16 {
        match self {
            AppError::Database(_) => 500,
            AppError::Solana(_) => 400,
            AppError::SolanaProgram(_) => 400,
            AppError::InvalidInput(_) => 400,
            AppError::NotFound(_) => 404,
            AppError::Unauthorized => 401,
            AppError::Internal(_) => 500,
        }
    }

    /// The machine-readable code of the reply.
    pub open spec fn code_of(self) -> Seq<char> {
        match self {
            AppError::Database(_) => "DB_ERROR"@,
            AppError::Solana(_) => "SOLANA_ERROR"@,
            AppError::SolanaProgram(_) => "PROGRAM_ERROR"@,
            AppError::InvalidInput(_) => "INVALID_INPUT"@,
            AppError::NotFound(_) => "NOT_FOUND"@,
            AppError::Unauthorized => "UNAUTHORIZED"@,
            AppError::Internal(_) => "INTERNAL_ERROR"@,
        }
    }

    /// The human-readable message of the reply. The detail of a storage or internal
    /// failure is withheld; that of a network or program failure follows a fixed prefix.
    pub open spec fn message_of(self) -> Seq<char> {
        match self {
            AppError::Database(_) => "Database error"@,
            AppError::Solana(detail) => "Blockchain error: "@ + detail@,
            AppError::SolanaProgram(detail) => "Program error: "@ + detail@,
            AppError::InvalidInput(msg) => msg@,
            AppError::NotFound(msg) => msg@,
            AppError::Unauthorized => "Unauthorized"@,
            AppError::Internal(_) => "Internal server error"@,
        }
    }

    /// Whether the failure is an `InvalidInput` with exactly this message.
    pub open spec fn is_invalid_input(self, message: Seq<char>) -> bool {
        self matches AppError::InvalidInput(m) && m@ == message
    }

    /// Whether the failure is a network failure with exactly this detail.
    pub open spec fn is_transport(self, detail: Seq<char>) -> bool {
        self matches AppError::Solana(d) && d@ == detail
    }

    /// Whether the failure is a storage failure with exactly this detail.
    pub open spec fn is_storage(self, detail: Seq<char>) -> bool {
        self matches AppError::Database(d) && d@ == detail
    }

    /// Whether the failure is an internal failure with exactly this detail.
    pub open spec fn is_internal(self, detail: Seq<char>) -> bool {
        self matches AppError::Internal(d) && d@ == detail
    }

    pub fn status_code(&self) -> (status: u16)
        ensures
            status == self.status_of(),
    {
        match self {
            AppError::Database(_) => 500,
            AppError::Solana(_) => 400,
            AppError::SolanaProgram(_) => 400,
            AppError::InvalidInput(_) => 400,
            AppError::NotFound(_) => 404,
            AppError::Unauthorized => 401,
            AppError::Internal(_) => 500,
        }
    }

    pub fn code(&self) -> (code: &'static str)
        ensures
            code@ == self.code_of(),
    {
        match self {
            AppError::Database(_) => "DB_ERROR",
            AppError::Solana(_) => "SOLANA_ERROR",
            AppError::SolanaProgram(_) => "PROGRAM_ERROR",
            AppError::InvalidInput(_) => "INVALID_INPUT",
            AppError::NotFound(_) => "NOT_FOUND",
            AppError::Unauthorized => "UNAUTHORIZED",
            AppError::Internal(_) => "INTERNAL_ERROR",
        }
    }

    pub fn message(&self) -> (message: String)
        ensures
            message@ == self.message_of(),
    {
        match self {
            AppError::Database(_) => String::from_str("Database error"),
            AppError::Solana(detail) => String::from_str("Blockchain error: ").concat(
                detail.as_str(),
            ),
            AppError::SolanaProgram(detail) => String::from_str("Program error: ").concat(
                detail.as_str(),
            ),
            AppError::InvalidInput(msg) => msg.clone(),
            AppError::NotFound(msg) => msg.clone(),
            AppError::Unauthorized => String::from_str("Unauthorized"),
            AppError::Internal(_) => String::from_str("Internal server error"),
        }
    }

    /// Turns the failure into the reply sent to the caller.
    pub fn into_response(self) -> (reply: ErrorReply)
        ensures
            reply.status == self.status_of(),
            !reply.success,
            reply.error@ == self.message_of(),
            reply.code matches Some(code) && code@ == self.code_of(),
    {
        let status = self.status_code();
        let code = String::from_str(self.code());
        let error = self.message();
        ErrorReply { status, success: false, error, code: Some(code) }
    }
}

/// Whether a request was refused as invalid input.
pub open spec fn refused<T>(outcome: Result<T, AppError>) -> bool {
    outcome matches Err(e) && e is InvalidInput
}

/// Every failure is answered with a client (4xx) or a server (5xx) status, and only a
/// storage or a catch-all failure counts as the server's.
pub proof fn status_is_client_or_server_error(e: AppError)
    ensures
        400 <= e.status_of() < 600,
        e.status_of() >= 500 <==> (e is Database || e is Internal),
{
}

/// The reply to a storage or an internal failure never shows the collaborator's detail:
/// two such failures that differ only in it get the same message.
pub proof fn storage_detail_is_withheld(a: String, b: String)
    ensures
        AppError::Database(a).message_of() == AppError::Database(b).message_of(),
        AppError::Internal(a).message_of() == AppError::Internal(b).message_of(),
{
}

} // verus!
