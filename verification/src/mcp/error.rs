//! How an error of a tool call is told to the client.
//!
//! A failure that the caller can read and act on is part of the tool's result.
//! A failure of routing or of the server itself is a protocol error.
use vstd::prelude::*;
use vstd::string::*;

use crate::error;
use crate::error::{ErrorCode, RimapError};
use crate::json;
use crate::json::{set_member, text_array, Json, JsonV};
use crate::text;

verus! {

/// The tool is not allowed at the account's posture.
pub const POSTURE_DENIED: i32 = -32001;

/// A request came before the session was opened.
pub const NOT_INITIALIZED: i32 = -32002;

/// Too many calls in a short time.
pub const RATE_LIMITED: i32 = -32003;

/// Too many failures in a short time.
pub const CIRCUIT_OPEN: i32 = -32004;

/// A part is over a size limit.
pub const ATTACHMENT_TOO_LARGE: i32 = -32005;

/// The protocol's code for a resource that does not exist.
pub const RESOURCE_NOT_FOUND: i32 = -32002;

/// The protocol's code for parameters that cannot be served.
pub const INVALID_PARAMS: i32 = -32602;

/// The protocol's code for a fault of the server.
pub const INTERNAL_ERROR: i32 = -32603;

/// A protocol error.
pub struct ErrorData {
    pub code: i32,
    pub message: String,
    pub data: Option<Json>,
}

/// A piece of a tool's result.
pub enum Content {
    Text(String),
    /// A piece that is no text.
    Other,
}

/// The result of a tool call.
pub struct CallToolResult {
    pub content: Vec<Content>,
    pub structured_content: Option<Json>,
    pub is_error: Option<bool>,
}

/// The details by value.
pub open spec fn data_view(data: Option<Json>) -> Option<JsonV> {
    match data {
        Some(j) => Some(j@),
        None => None,
    }
}

/// A protocol error by value.
#[verifier::ext_equal]
pub struct ErrorDataV {
    pub code: int,
    pub message: Seq<char>,
    pub data: Option<JsonV>,
}

impl View for ErrorData {
    type V = ErrorDataV;

    open spec fn view(&self) -> ErrorDataV {
        ErrorDataV { code: self.code as int, message: self.message@, data: data_view(self.data) }
    }
}

/// A failure that the caller of the tool can read and act on.
pub open spec fn tool_execution_code(code: ErrorCode) -> bool {
    match code {
        ErrorCode::InvalidInput => false,
        ErrorCode::NoAccount => false,
        ErrorCode::UnknownAccount => false,
        ErrorCode::Config => false,
        ErrorCode::Internal => false,
        ErrorCode::Cancelled => false,
        _ => true,
    }
}

/// A denial on account of the folder, of which the client learns no more.
pub open spec fn folder_denial(code: ErrorCode) -> bool {
    code is ProtectedFolder || code is ExpungeDenied
}

/// The text of an error on the wire, where it is shown as `shown` elsewhere.
pub open spec fn wire_text(code: ErrorCode, shown: Seq<char>) -> Seq<char> {
    if folder_denial(code) {
        "operation denied for this folder"@
    } else {
        shown
    }
}

/// The details of an error for the client's program: `None` where it has none.
pub open spec fn error_details(err: RimapError) -> Option<JsonV> {
    let code = map!["error_code"@ => JsonV::Str(error::code_text(error::error_code(err)))];
    match err {
        RimapError::NoAccount { available } => Some(
            JsonV::Object(
                code.insert(
                    "available"@,
                    JsonV::Array(json::text_items(text::texts(available@))),
                ).insert("hint"@, JsonV::Str("call use_account or pass account argument"@)),
            ),
        ),
        RimapError::UnknownAccount { name, available } => Some(
            JsonV::Object(
                code.insert("name"@, JsonV::Str(name@)).insert(
                    "available"@,
                    JsonV::Array(json::text_items(text::texts(available@))),
                ),
            ),
        ),
        RimapError::UidValidityChanged { folder, expected, actual } => Some(
            JsonV::Object(
                code.insert("folder"@, JsonV::Str(folder@)).insert(
                    "expected"@,
                    JsonV::Int(expected as int),
                ).insert("actual"@, JsonV::Int(actual as int)),
            ),
        ),
        RimapError::RateLimited { retry_after_ms } => Some(
            JsonV::Object(code.insert("retry_after_ms"@, JsonV::Int(retry_after_ms as int))),
        ),
        RimapError::CircuitOpen { retry_after_ms } => Some(
            JsonV::Object(code.insert("retry_after_ms"@, JsonV::Int(retry_after_ms as int))),
        ),
        RimapError::AttachmentTooLarge { kind, limit } => Some(
            JsonV::Object(
                code.insert("kind"@, JsonV::Str(kind@)).insert("limit"@, JsonV::Int(limit as int)),
            ),
        ),
        _ => None,
    }
}

/// The details that go with a failed tool's result: the code at least.
pub open spec fn result_details(err: RimapError) -> JsonV {
    match error_details(err) {
        Some(details) => details,
        None => JsonV::Object(
            map!["error_code"@ => JsonV::Str(error::code_text(error::error_code(err)))],
        ),
    }
}

/// The protocol's code for an error.
pub open spec fn wire_code(code: ErrorCode) -> i32 {
    match code {
        ErrorCode::InvalidInput => INVALID_PARAMS,
        ErrorCode::NoAccount => INVALID_PARAMS,
        ErrorCode::UnknownAccount => INVALID_PARAMS,
        ErrorCode::UidValidityChanged => INVALID_PARAMS,
        ErrorCode::NotFound => RESOURCE_NOT_FOUND,
        ErrorCode::PostureDenied => POSTURE_DENIED,
        ErrorCode::ProtectedFolder => POSTURE_DENIED,
        ErrorCode::ExpungeDenied => POSTURE_DENIED,
        ErrorCode::RateLimited => RATE_LIMITED,
        ErrorCode::CircuitOpen => CIRCUIT_OPEN,
        ErrorCode::AttachmentTooLarge => ATTACHMENT_TOO_LARGE,
        _ => INTERNAL_ERROR,
    }
}

/// An error as a protocol error.
pub open spec fn mcp_error_v(err: RimapError, shown: Seq<char>) -> ErrorDataV {
    ErrorDataV {
        code: wire_code(error::error_code(err)) as int,
        message: wire_text(error::error_code(err), shown),
        data: error_details(err),
    }
}

/// Whether an error is a failure that the caller of the tool can read and act
/// on.
pub fn is_tool_execution_error(err: &RimapError) -> (r: bool)
    ensures
        r == tool_execution_code(error::error_code(*err)),
{
    match err.code() {
        ErrorCode::NotFound
        | ErrorCode::UidValidityChanged
        | ErrorCode::RateLimited
        | ErrorCode::CircuitOpen
        | ErrorCode::AttachmentTooLarge
        | ErrorCode::ImapProtocol
        | ErrorCode::SmtpProtocol
        | ErrorCode::Tls
        | ErrorCode::Auth
        | ErrorCode::ConnectionLost
        | ErrorCode::Timeout
        | ErrorCode::PostureDenied
        | ErrorCode::ProtectedFolder
        | ErrorCode::ExpungeDenied => true,
        ErrorCode::InvalidInput
        | ErrorCode::NoAccount
        | ErrorCode::UnknownAccount
        | ErrorCode::Config
        | ErrorCode::Internal
        | ErrorCode::Cancelled => false,
    }
}

/// The text of an error on the wire. `shown` is the text that the error is shown
/// with elsewhere.
pub fn wire_message(err: &RimapError, shown: &str) -> (r: String)
    ensures
        r@ == wire_text(error::error_code(*err), shown@),
{
    match err.code() {
        ErrorCode::ProtectedFolder | ErrorCode::ExpungeDenied => {
            "operation denied for this folder".to_owned()
        },
        _ => shown.to_owned(),
    }
}

fn coded(code: ErrorCode) -> (members: Vec<(String, Json)>)
    ensures
        json::object_view(members@) == map!["error_code"@ => JsonV::Str(error::code_text(code))],
{
    let mut members: Vec<(String, Json)> = Vec::new();
    set_member(&mut members, "error_code", Json::Str(code.as_str().to_owned()));
    members
}

/// The details of an error for the client's program: `None` where it has none.
pub fn structured_error_data(err: &RimapError) -> (r: Option<Json>)
    ensures
        data_view(r) == error_details(*err),
{
    let mut members = coded(err.code());
    match err {
        RimapError::NoAccount { available } => {
            set_member(&mut members, "available", text_array(available));
            set_member(
                &mut members,
                "hint",
                Json::Str("call use_account or pass account argument".to_owned()),
            );
        },
        RimapError::UnknownAccount { name, available } => {
            set_member(&mut members, "name", Json::Str(name.clone()));
            set_member(&mut members, "available", text_array(available));
        },
        RimapError::UidValidityChanged { folder, expected, actual } => {
            set_member(&mut members, "folder", Json::Str(folder.clone()));
            set_member(&mut members, "expected", Json::UInt(*expected as u64));
            set_member(&mut members, "actual", Json::UInt(*actual as u64));
        },
        RimapError::RateLimited { retry_after_ms } => {
            set_member(&mut members, "retry_after_ms", Json::UInt(*retry_after_ms));
        },
        RimapError::CircuitOpen { retry_after_ms } => {
            set_member(&mut members, "retry_after_ms", Json::UInt(*retry_after_ms));
        },
        RimapError::AttachmentTooLarge { kind, limit } => {
            set_member(&mut members, "kind", Json::Str(kind.clone()));
            set_member(&mut members, "limit", Json::UInt(*limit));
        },
        _ => {
            return None;
        },
    }
    Some(Json::Object(members))
}

/// The result of a tool that failed: its text, and the code with the details.
pub fn to_error_call_result(err: &RimapError, shown: &str) -> (r: CallToolResult)
    ensures
        r.is_error == Some(true),
        r.content@.len() == 1,
        r.content@[0] matches Content::Text(t) && t@ == wire_text(error::error_code(*err), shown@),
        r.structured_content matches Some(data) && data@ == result_details(*err),
{
    let mut content: Vec<Content> = Vec::new();
    content.push(Content::Text(wire_message(err, shown)));
    let data = match structured_error_data(err) {
        Some(data) => data,
        None => Json::Object(coded(err.code())),
    };
    CallToolResult { content, structured_content: Some(data), is_error: Some(true) }
}

/// The protocol error of an error.
pub fn to_mcp_error(err: &RimapError, shown: &str) -> (r: ErrorData)
    ensures
        r@ == mcp_error_v(*err, shown@),
{
    let message = wire_message(err, shown);
    let data = structured_error_data(err);
    let code: i32 = match err.code() {
        ErrorCode::InvalidInput
        | ErrorCode::NoAccount
        | ErrorCode::UnknownAccount
        | ErrorCode::UidValidityChanged => INVALID_PARAMS,
        ErrorCode::NotFound => RESOURCE_NOT_FOUND,
        ErrorCode::PostureDenied | ErrorCode::ProtectedFolder | ErrorCode::ExpungeDenied => {
            POSTURE_DENIED
        },
        ErrorCode::RateLimited => RATE_LIMITED,
        ErrorCode::CircuitOpen => CIRCUIT_OPEN,
        ErrorCode::AttachmentTooLarge => ATTACHMENT_TOO_LARGE,
        ErrorCode::ImapProtocol
        | ErrorCode::SmtpProtocol
        | ErrorCode::Tls
        | ErrorCode::Auth
        | ErrorCode::ConnectionLost
        | ErrorCode::Timeout
        | ErrorCode::Config
        | ErrorCode::Internal
        | ErrorCode::Cancelled => INTERNAL_ERROR,
    };
    ErrorData { code, message, data }
}

/// Whatever a folder denial is shown with, the client reads the same text, and no
/// details but the code.
pub proof fn law_folder_denial_is_opaque(err: RimapError, shown: Seq<char>, other: Seq<char>)
    requires
        folder_denial(error::error_code(err)),
    ensures
        wire_text(error::error_code(err), shown) == wire_text(error::error_code(err), other),
        error_details(err) is None,
{
}

/// The details are the same on both ways to the client, and always carry the
/// code.
pub proof fn law_details_carry_code(err: RimapError)
    ensures
        error_details(err) matches Some(details) ==> details == result_details(err),
        json::field(result_details(err), "error_code"@) == Some(
            JsonV::Str(error::code_text(error::error_code(err))),
        ),
{
    reveal_strlit("error_code");
    reveal_strlit("available");
    reveal_strlit("hint");
    reveal_strlit("name");
    reveal_strlit("folder");
    reveal_strlit("expected");
    reveal_strlit("actual");
    reveal_strlit("retry_after_ms");
    reveal_strlit("kind");
    reveal_strlit("limit");
    assert("error_code"@.len() == 10 && "available"@.len() == 9 && "hint"@.len() == 4);
    assert("name"@.len() == 4 && "folder"@.len() == 6 && "expected"@.len() == 8);
    assert("actual"@.len() == 6 && "retry_after_ms"@.len() == 14);
    assert("kind"@.len() == 4 && "limit"@.len() == 5);
}

/// How long to wait goes with a call that is refused for a time, under one name for
/// both refusals.
pub proof fn law_wait_is_told(retry_after_ms: u64)
    ensures
        error_details(RimapError::RateLimited { retry_after_ms }) matches Some(d) && json::field(
            d,
            "retry_after_ms"@,
        ) == Some(JsonV::Int(retry_after_ms as int)) && json::field(d, "error_code"@) == Some(
            JsonV::Str("ERR_RATE_LIMITED"@),
        ),
        error_details(RimapError::CircuitOpen { retry_after_ms }) matches Some(d) && json::field(
            d,
            "retry_after_ms"@,
        ) == Some(JsonV::Int(retry_after_ms as int)) && json::field(d, "error_code"@) == Some(
            JsonV::Str("ERR_CIRCUIT_OPEN"@),
        ),
{
    reveal_strlit("error_code");
    reveal_strlit("available");
    reveal_strlit("hint");
    reveal_strlit("name");
    reveal_strlit("folder");
    reveal_strlit("expected");
    reveal_strlit("actual");
    reveal_strlit("retry_after_ms");
    reveal_strlit("kind");
    reveal_strlit("limit");
    assert("error_code"@.len() == 10 && "available"@.len() == 9 && "hint"@.len() == 4);
    assert("name"@.len() == 4 && "folder"@.len() == 6 && "expected"@.len() == 8);
    assert("actual"@.len() == 6 && "retry_after_ms"@.len() == 14);
    assert("kind"@.len() == 4 && "limit"@.len() == 5);
    assert("folder"@[0] == 'f' && "actual"@[0] == 'a');
}

/// The accounts to choose from go with a call that named none or a wrong one, one by
/// one and in their order, and so does the name that was asked for.
pub proof fn law_accounts_to_choose_from_are_told(name: String, available: Vec<String>, i: int)
    requires
        0 <= i < available@.len(),
    ensures
        error_details(RimapError::NoAccount { available }) matches Some(d) && (json::field(
            d,
            "available"@,
        ) matches Some(JsonV::Array(items)) && items.len() == available@.len() && items[i]
            == JsonV::Str(available@[i]@)) && json::field(d, "hint"@) == Some(
            JsonV::Str("call use_account or pass account argument"@),
        ),
        error_details(RimapError::UnknownAccount { name, available }) matches Some(d) && (
        json::field(d, "available"@) matches Some(JsonV::Array(items)) && items.len()
            == available@.len() && items[i] == JsonV::Str(available@[i]@)) && json::field(
            d,
            "name"@,
        ) == Some(JsonV::Str(name@)),
{
    reveal_strlit("error_code");
    reveal_strlit("available");
    reveal_strlit("hint");
    reveal_strlit("name");
    reveal_strlit("folder");
    reveal_strlit("expected");
    reveal_strlit("actual");
    reveal_strlit("retry_after_ms");
    reveal_strlit("kind");
    reveal_strlit("limit");
    assert("error_code"@.len() == 10 && "available"@.len() == 9 && "hint"@.len() == 4);
    assert("name"@.len() == 4 && "folder"@.len() == 6 && "expected"@.len() == 8);
    assert("actual"@.len() == 6 && "retry_after_ms"@.len() == 14);
    assert("kind"@.len() == 4 && "limit"@.len() == 5);
    assert("folder"@[0] == 'f' && "actual"@[0] == 'a');
}

/// A folder that was replaced is told by its name, with what was expected and what
/// was found, and a part over a limit by its kind, with the limit.
pub proof fn law_what_went_wrong_is_told(
    folder: String,
    expected: u32,
    actual: u32,
    kind: String,
    limit: u64,
)
    ensures
        error_details(RimapError::UidValidityChanged { folder, expected, actual }) matches Some(d)
            && json::field(d, "folder"@) == Some(JsonV::Str(folder@)) && json::field(
            d,
            "expected"@,
        ) == Some(JsonV::Int(expected as int)) && json::field(d, "actual"@) == Some(
            JsonV::Int(actual as int),
        ),
        error_details(RimapError::AttachmentTooLarge { kind, limit }) matches Some(d)
            && json::field(d, "kind"@) == Some(JsonV::Str(kind@)) && json::field(d, "limit"@)
            == Some(JsonV::Int(limit as int)),
{
    reveal_strlit("error_code");
    reveal_strlit("available");
    reveal_strlit("hint");
    reveal_strlit("name");
    reveal_strlit("folder");
    reveal_strlit("expected");
    reveal_strlit("actual");
    reveal_strlit("retry_after_ms");
    reveal_strlit("kind");
    reveal_strlit("limit");
    assert("error_code"@.len() == 10 && "available"@.len() == 9 && "hint"@.len() == 4);
    assert("name"@.len() == 4 && "folder"@.len() == 6 && "expected"@.len() == 8);
    assert("actual"@.len() == 6 && "retry_after_ms"@.len() == 14);
    assert("kind"@.len() == 4 && "limit"@.len() == 5);
    assert("folder"@[0] == 'f' && "actual"@[0] == 'a');
}

/// A failure is a protocol error, and no result of the tool, only where the call
/// could not be routed, was cancelled, or the server itself is at fault.
pub proof fn law_protocol_errors_are_faults_of_routing_or_server(err: RimapError)
    ensures
        err is Internal || err is NoAccount || err is UnknownAccount ==> !tool_execution_code(
            error::error_code(err),
        ),
        err is UidValidityChanged || err is RateLimited || err is CircuitOpen
            || err is AttachmentTooLarge ==> tool_execution_code(error::error_code(err)),
        !tool_execution_code(error::error_code(err)) ==> wire_code(error::error_code(err))
            == -32602 || wire_code(error::error_code(err)) == -32603,
{
}

/// What the mail server, the mail submission, the network or a policy answers is for
/// the tool's caller to read: whatever counts against a connection does, and so does
/// every denial.
pub proof fn law_denials_and_connection_failures_are_results(code: ErrorCode)
    ensures
        code is ConnectionLost || code is Auth || code is Timeout || code is Tls
            || code is ImapProtocol || code is SmtpProtocol ==> tool_execution_code(code),
        code is PostureDenied || code is ProtectedFolder || code is ExpungeDenied
            ==> tool_execution_code(code),
        code is NotFound || code is UidValidityChanged || code is AttachmentTooLarge
            ==> tool_execution_code(code),
        code is RateLimited || code is CircuitOpen ==> tool_execution_code(code),
        code is InvalidInput || code is Config || code is Cancelled || code is Internal
            ==> !tool_execution_code(code),
{
}

/// On the wire the denials share one code. What is to be waited for, what is too
/// large and what is not there have each their own. What the caller got wrong is told
/// by the protocol's code for parameters, and everything else by its code for faults.
pub proof fn law_codes_on_the_wire(code: ErrorCode)
    ensures
        code is PostureDenied || code is ProtectedFolder || code is ExpungeDenied <==> wire_code(
            code,
        ) == -32001,
        code is NotFound <==> wire_code(code) == -32002,
        code is RateLimited <==> wire_code(code) == -32003,
        code is CircuitOpen <==> wire_code(code) == -32004,
        code is AttachmentTooLarge <==> wire_code(code) == -32005,
        code is InvalidInput || code is NoAccount || code is UnknownAccount
            || code is UidValidityChanged <==> wire_code(code) == -32602,
        -32005 <= wire_code(code) <= -32001 || wire_code(code) == -32602 || wire_code(code)
            == -32603,
{
}

/// Whatever is no denial on account of a folder is shown to the client as it is shown
/// elsewhere.
pub proof fn law_other_errors_are_shown_as_they_are(err: RimapError, shown: Seq<char>)
    ensures
        !(error::error_code(err) is ProtectedFolder) && !(error::error_code(err) is ExpungeDenied)
            ==> mcp_error_v(err, shown).message == shown,
        error::error_code(err) is ProtectedFolder || error::error_code(err) is ExpungeDenied
            ==> mcp_error_v(err, shown).message == "operation denied for this folder"@,
        mcp_error_v(err, shown).data == error_details(err),
{
}

/// A protocol error is told field by field as it is held.
pub proof fn law_error_is_told_as_it_is_held(e: ErrorData)
    ensures
        e@.code == e.code,
        e@.message == e.message@,
        e.data matches Some(d) ==> e@.data == Some(d@),
        e.data is None ==> e@.data is None,
{
}

} // verus!
