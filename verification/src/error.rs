//! The errors of the server's tools.
use vstd::prelude::*;
use vstd::string::*;

use crate::text::same_text;

verus! {

/// The stable codes that tell the errors apart.
#[derive(Debug, Clone, Copy, PartialEq, Eq, Structural, PartialOrd, Ord, Hash)]
pub enum ErrorCode {
    InvalidInput,
    PostureDenied,
    RateLimited,
    CircuitOpen,
    NotFound,
    ImapProtocol,
    SmtpProtocol,
    Tls,
    Auth,
    ConnectionLost,
    Timeout,
    AttachmentTooLarge,
    ProtectedFolder,
    ExpungeDenied,
    Config,
    Internal,
    NoAccount,
    UnknownAccount,
    Cancelled,
    UidValidityChanged,
}

/// The text of a code.
pub open spec fn code_text(code: ErrorCode) -> Seq<char> {
    match code {
        ErrorCode::InvalidInput => "ERR_INVALID_INPUT"@,
        ErrorCode::PostureDenied => "ERR_POSTURE_DENIED"@,
        ErrorCode::RateLimited => "ERR_RATE_LIMITED"@,
        ErrorCode::CircuitOpen => "ERR_CIRCUIT_OPEN"@,
        ErrorCode::NotFound => "ERR_NOT_FOUND"@,
        ErrorCode::ImapProtocol => "ERR_IMAP_PROTOCOL"@,
        ErrorCode::SmtpProtocol => "ERR_SMTP_PROTOCOL"@,
        ErrorCode::Tls => "ERR_TLS"@,
        ErrorCode::Auth => "ERR_AUTH"@,
        ErrorCode::ConnectionLost => "ERR_CONNECTION_LOST"@,
        ErrorCode::Timeout => "ERR_TIMEOUT"@,
        ErrorCode::AttachmentTooLarge => "ERR_ATTACHMENT_TOO_LARGE"@,
        ErrorCode::ProtectedFolder => "ERR_PROTECTED_FOLDER"@,
        ErrorCode::ExpungeDenied => "ERR_EXPUNGE_DENIED"@,
        ErrorCode::Config => "ERR_CONFIG"@,
        ErrorCode::Internal => "ERR_INTERNAL"@,
        ErrorCode::NoAccount => "ERR_NO_ACCOUNT"@,
        ErrorCode::UnknownAccount => "ERR_UNKNOWN_ACCOUNT"@,
        ErrorCode::Cancelled => "ERR_CANCELLED"@,
        ErrorCode::UidValidityChanged => "ERR_UID_VALIDITY_CHANGED"@,
    }
}

/// Every code.
pub open spec fn all_codes() -> Seq<ErrorCode> {
    seq![
        ErrorCode::InvalidInput,
        ErrorCode::PostureDenied,
        ErrorCode::RateLimited,
        ErrorCode::CircuitOpen,
        ErrorCode::NotFound,
        ErrorCode::ImapProtocol,
        ErrorCode::SmtpProtocol,
        ErrorCode::Tls,
        ErrorCode::Auth,
        ErrorCode::ConnectionLost,
        ErrorCode::Timeout,
        ErrorCode::AttachmentTooLarge,
        ErrorCode::ProtectedFolder,
        ErrorCode::ExpungeDenied,
        ErrorCode::Config,
        ErrorCode::Internal,
        ErrorCode::NoAccount,
        ErrorCode::UnknownAccount,
        ErrorCode::Cancelled,
        ErrorCode::UidValidityChanged,
    ]
}

/// The code of a text: `None` where no code has it.
pub open spec fn code_of_text(text: Seq<char>) -> Option<ErrorCode> {
    if exists|c: ErrorCode| #[trigger] code_text(c) == text {
        Some(choose|c: ErrorCode| #[trigger] code_text(c) == text)
    } else {
        None
    }
}

/// A number that tells the texts of the codes apart.
spec fn fingerprint(text: Seq<char>) -> int {
    text.len() * 65536 + text[4] as int * 256 + text[5] as int
}

proof fn lemma_fingerprint(code: ErrorCode)
    ensures
        fingerprint(code_text(code)) == match code {
            ErrorCode::InvalidInput => 1132878int,
            ErrorCode::PostureDenied => 1200207int,
            ErrorCode::RateLimited => 1069633int,
            ErrorCode::CircuitOpen => 1065801int,
            ErrorCode::NotFound => 872015int,
            ErrorCode::ImapProtocol => 1132877int,
            ErrorCode::SmtpProtocol => 1135437int,
            ErrorCode::Tls => 480332int,
            ErrorCode::Auth => 541013int,
            ErrorCode::ConnectionLost => 1262415int,
            ErrorCode::Timeout => 742473int,
            ErrorCode::AttachmentTooLarge => 1589588int,
            ErrorCode::ProtectedFolder => 1331282int,
            ErrorCode::ExpungeDenied => 1197400int,
            ErrorCode::Config => 672591int,
            ErrorCode::Internal => 805198int,
            ErrorCode::NoAccount => 937551int,
            ErrorCode::UnknownAccount => 1267022int,
            ErrorCode::Cancelled => 869185int,
            ErrorCode::UidValidityChanged => 1594697int,
        },
{
    match code {
        ErrorCode::InvalidInput => reveal_strlit("ERR_INVALID_INPUT"),
        ErrorCode::PostureDenied => reveal_strlit("ERR_POSTURE_DENIED"),
        ErrorCode::RateLimited => reveal_strlit("ERR_RATE_LIMITED"),
        ErrorCode::CircuitOpen => reveal_strlit("ERR_CIRCUIT_OPEN"),
        ErrorCode::NotFound => reveal_strlit("ERR_NOT_FOUND"),
        ErrorCode::ImapProtocol => reveal_strlit("ERR_IMAP_PROTOCOL"),
        ErrorCode::SmtpProtocol => reveal_strlit("ERR_SMTP_PROTOCOL"),
        ErrorCode::Tls => reveal_strlit("ERR_TLS"),
        ErrorCode::Auth => reveal_strlit("ERR_AUTH"),
        ErrorCode::ConnectionLost => reveal_strlit("ERR_CONNECTION_LOST"),
        ErrorCode::Timeout => reveal_strlit("ERR_TIMEOUT"),
        ErrorCode::AttachmentTooLarge => reveal_strlit("ERR_ATTACHMENT_TOO_LARGE"),
        ErrorCode::ProtectedFolder => reveal_strlit("ERR_PROTECTED_FOLDER"),
        ErrorCode::ExpungeDenied => reveal_strlit("ERR_EXPUNGE_DENIED"),
        ErrorCode::Config => reveal_strlit("ERR_CONFIG"),
        ErrorCode::Internal => reveal_strlit("ERR_INTERNAL"),
        ErrorCode::NoAccount => reveal_strlit("ERR_NO_ACCOUNT"),
        ErrorCode::UnknownAccount => reveal_strlit("ERR_UNKNOWN_ACCOUNT"),
        ErrorCode::Cancelled => reveal_strlit("ERR_CANCELLED"),
        ErrorCode::UidValidityChanged => reveal_strlit("ERR_UID_VALIDITY_CHANGED"),
    }
}

/// No two codes share a text.
pub proof fn law_code_texts_are_distinct(a: ErrorCode, b: ErrorCode)
    requires
        code_text(a) == code_text(b),
    ensures
        a == b,
{
    lemma_fingerprint(a);
    lemma_fingerprint(b);
}

/// A code is found again by its text.
pub proof fn law_code_reads_back(code: ErrorCode)
    ensures
        code_of_text(code_text(code)) == Some(code),
{
    let found = choose|c: ErrorCode| #[trigger] code_text(c) == code_text(code);
    law_code_texts_are_distinct(found, code);
}

proof fn lemma_all_codes_lists_each(code: ErrorCode)
    ensures
        exists|i: int| 0 <= i < all_codes().len() && #[trigger] all_codes()[i] == code,
{
    let i: int = match code {
        ErrorCode::InvalidInput => 0,
        ErrorCode::PostureDenied => 1,
        ErrorCode::RateLimited => 2,
        ErrorCode::CircuitOpen => 3,
        ErrorCode::NotFound => 4,
        ErrorCode::ImapProtocol => 5,
        ErrorCode::SmtpProtocol => 6,
        ErrorCode::Tls => 7,
        ErrorCode::Auth => 8,
        ErrorCode::ConnectionLost => 9,
        ErrorCode::Timeout => 10,
        ErrorCode::AttachmentTooLarge => 11,
        ErrorCode::ProtectedFolder => 12,
        ErrorCode::ExpungeDenied => 13,
        ErrorCode::Config => 14,
        ErrorCode::Internal => 15,
        ErrorCode::NoAccount => 16,
        ErrorCode::UnknownAccount => 17,
        ErrorCode::Cancelled => 18,
        ErrorCode::UidValidityChanged => 19,
    };
    assert(all_codes()[i] == code);
}

impl ErrorCode {
    /// Every code.
    pub fn all() -> (r: Vec<ErrorCode>)
        ensures
            r@ == all_codes(),
    {
        let mut r: Vec<ErrorCode> = Vec::new();
        r.push(ErrorCode::InvalidInput);
        r.push(ErrorCode::PostureDenied);
        r.push(ErrorCode::RateLimited);
        r.push(ErrorCode::CircuitOpen);
        r.push(ErrorCode::NotFound);
        r.push(ErrorCode::ImapProtocol);
        r.push(ErrorCode::SmtpProtocol);
        r.push(ErrorCode::Tls);
        r.push(ErrorCode::Auth);
        r.push(ErrorCode::ConnectionLost);
        r.push(ErrorCode::Timeout);
        r.push(ErrorCode::AttachmentTooLarge);
        r.push(ErrorCode::ProtectedFolder);
        r.push(ErrorCode::ExpungeDenied);
        r.push(ErrorCode::Config);
        r.push(ErrorCode::Internal);
        r.push(ErrorCode::NoAccount);
        r.push(ErrorCode::UnknownAccount);
        r.push(ErrorCode::Cancelled);
        r.push(ErrorCode::UidValidityChanged);
        r
    }

    /// The text of the code.
    pub fn as_str(self) -> (r: &'static str)
        ensures
            r@ == code_text(self),
    {
        match self {
            ErrorCode::InvalidInput => "ERR_INVALID_INPUT",
            ErrorCode::PostureDenied => "ERR_POSTURE_DENIED",
            ErrorCode::RateLimited => "ERR_RATE_LIMITED",
            ErrorCode::CircuitOpen => "ERR_CIRCUIT_OPEN",
            ErrorCode::NotFound => "ERR_NOT_FOUND",
            ErrorCode::ImapProtocol => "ERR_IMAP_PROTOCOL",
            ErrorCode::SmtpProtocol => "ERR_SMTP_PROTOCOL",
            ErrorCode::Tls => "ERR_TLS",
            ErrorCode::Auth => "ERR_AUTH",
            ErrorCode::ConnectionLost => "ERR_CONNECTION_LOST",
            ErrorCode::Timeout => "ERR_TIMEOUT",
            ErrorCode::AttachmentTooLarge => "ERR_ATTACHMENT_TOO_LARGE",
            ErrorCode::ProtectedFolder => "ERR_PROTECTED_FOLDER",
            ErrorCode::ExpungeDenied => "ERR_EXPUNGE_DENIED",
            ErrorCode::Config => "ERR_CONFIG",
            ErrorCode::Internal => "ERR_INTERNAL",
            ErrorCode::NoAccount => "ERR_NO_ACCOUNT",
            ErrorCode::UnknownAccount => "ERR_UNKNOWN_ACCOUNT",
            ErrorCode::Cancelled => "ERR_CANCELLED",
            ErrorCode::UidValidityChanged => "ERR_UID_VALIDITY_CHANGED",
        }
    }

    /// The code of a text: `None` where no code has it.
    pub fn parse(text: &str) -> (r: Option<ErrorCode>)
        ensures
            r == code_of_text(text@),
    {
        let all = ErrorCode::all();
        for i in 0..all.len()
            invariant
                all@ == all_codes(),
                forall|j: int| 0 <= j < i ==> code_text(#[trigger] all_codes()[j]) != text@,
        {
            if same_text(all[i].as_str(), text) {
                proof {
                    law_code_reads_back(all@[i as int]);
                }
                return Some(all[i]);
            }
        }
        proof {
            assert forall|c: ErrorCode| #[trigger] code_text(c) != text@ by {
                lemma_all_codes_lists_each(c);
            }
        }
        None
    }
}

/// An error of a tool call. The text that it is shown with is not part of it:
/// whoever shows it renders it.
#[derive(Debug, Clone, PartialEq, Eq)]
pub enum RimapError {
    /// A policy denial.
    Authz { code: ErrorCode, message: String },
    /// A failure of the mail server connection.
    Imap { code: ErrorCode, message: String },
    /// A failure of the mail submission connection.
    Smtp { code: ErrorCode, message: String },
    /// A fault of the server itself.
    Internal(String),
    /// No account was named and there is none to fall back to.
    NoAccount { available: Vec<String> },
    /// The named account does not exist.
    UnknownAccount { name: String, available: Vec<String> },
    /// A folder was replaced since its message numbers were read.
    UidValidityChanged { folder: String, expected: u32, actual: u32 },
    /// Too many calls in a short time.
    RateLimited { retry_after_ms: u64 },
    /// Too many failures in a short time.
    CircuitOpen { retry_after_ms: u64 },
    /// A part is over a size limit.
    AttachmentTooLarge { kind: String, limit: u64 },
}

/// The code of an error.
pub open spec fn error_code(err: RimapError) -> ErrorCode {
    match err {
        RimapError::Authz { code, .. } => code,
        RimapError::Imap { code, .. } => code,
        RimapError::Smtp { code, .. } => code,
        RimapError::Internal(_) => ErrorCode::Internal,
        RimapError::NoAccount { .. } => ErrorCode::NoAccount,
        RimapError::UnknownAccount { .. } => ErrorCode::UnknownAccount,
        RimapError::UidValidityChanged { .. } => ErrorCode::UidValidityChanged,
        RimapError::RateLimited { .. } => ErrorCode::RateLimited,
        RimapError::CircuitOpen { .. } => ErrorCode::CircuitOpen,
        RimapError::AttachmentTooLarge { .. } => ErrorCode::AttachmentTooLarge,
    }
}

impl RimapError {
    /// The code of the error.
    pub fn code(&self) -> (r: ErrorCode)
        ensures
            r == error_code(*self),
    {
        match self {
            RimapError::Authz { code, .. } => *code,
            RimapError::Imap { code, .. } => *code,
            RimapError::Smtp { code, .. } => *code,
            RimapError::Internal(_) => ErrorCode::Internal,
            RimapError::NoAccount { .. } => ErrorCode::NoAccount,
            RimapError::UnknownAccount { .. } => ErrorCode::UnknownAccount,
            RimapError::UidValidityChanged { .. } => ErrorCode::UidValidityChanged,
            RimapError::RateLimited { .. } => ErrorCode::RateLimited,
            RimapError::CircuitOpen { .. } => ErrorCode::CircuitOpen,
            RimapError::AttachmentTooLarge { .. } => ErrorCode::AttachmentTooLarge,
        }
    }
}

/// An error that a policy or a connection raises keeps the code that it was raised
/// with. Each other error has the code of its own name.
pub proof fn law_error_has_its_own_code(
    code: ErrorCode,
    message: String,
    available: Vec<String>,
    expected: u32,
    actual: u32,
    limit: u64,
)
    ensures
        error_code(RimapError::Authz { code, message }) == code,
        error_code(RimapError::Imap { code, message }) == code,
        error_code(RimapError::Smtp { code, message }) == code,
        code_text(error_code(RimapError::Internal(message))) == "ERR_INTERNAL"@,
        code_text(error_code(RimapError::NoAccount { available })) == "ERR_NO_ACCOUNT"@,
        code_text(error_code(RimapError::UnknownAccount { name: message, available }))
            == "ERR_UNKNOWN_ACCOUNT"@,
        code_text(
            error_code(RimapError::UidValidityChanged { folder: message, expected, actual }),
        ) == "ERR_UID_VALIDITY_CHANGED"@,
        code_text(error_code(RimapError::RateLimited { retry_after_ms: limit }))
            == "ERR_RATE_LIMITED"@,
        code_text(error_code(RimapError::CircuitOpen { retry_after_ms: limit }))
            == "ERR_CIRCUIT_OPEN"@,
        code_text(error_code(RimapError::AttachmentTooLarge { kind: message, limit }))
            == "ERR_ATTACHMENT_TOO_LARGE"@,
{
}

} // verus!
