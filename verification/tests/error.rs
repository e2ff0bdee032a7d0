use rimap_server::error::{ErrorCode, RimapError};
use rimap_server::json::{render_json, Json};
use rimap_server::mcp::error::{
    is_tool_execution_error, structured_error_data, to_error_call_result, to_mcp_error,
    CallToolResult, Content, ATTACHMENT_TOO_LARGE, CIRCUIT_OPEN, INTERNAL_ERROR, INVALID_PARAMS,
    NOT_INITIALIZED, POSTURE_DENIED, RATE_LIMITED, RESOURCE_NOT_FOUND,
};
use rmcp::model::ErrorCode as McpCode;
use serde_json::Value;

fn authz_error(code: ErrorCode, msg: &str) -> RimapError {
    RimapError::Authz {
        code,
        message: msg.to_owned(),
    }
}

fn value(data: &Option<Json>) -> Value {
    let data = data.as_ref().expect("details are there");
    serde_json::from_str(&render_json(data)).expect("details are JSON")
}

fn list(items: &[&str]) -> Value {
    Value::Array(items.iter().map(|s| Value::from(*s)).collect())
}

fn result_text(result: &CallToolResult) -> String {
    match result.content.first() {
        Some(Content::Text(text)) => text.clone(),
        _ => panic!("result must carry text content"),
    }
}

#[test]
fn invalid_input_maps_to_invalid_params() {
    let err = authz_error(ErrorCode::InvalidInput, "bad uid");
    assert_eq!(McpCode(to_mcp_error(&err, "bad uid").code), McpCode::INVALID_PARAMS);
}

#[test]
fn not_found_maps_to_resource_not_found() {
    let err = RimapError::Imap {
        code: ErrorCode::NotFound,
        message: "no such UID".to_owned(),
    };
    assert_eq!(
        McpCode(to_mcp_error(&err, "no such UID").code),
        McpCode::RESOURCE_NOT_FOUND
    );
}

#[test]
fn posture_denied_maps_to_custom_code() {
    let err = authz_error(ErrorCode::PostureDenied, "tool denied");
    assert_eq!(to_mcp_error(&err, "tool denied").code, POSTURE_DENIED);
}

#[test]
fn internal_errors_map_to_internal_error() {
    let err = RimapError::Internal("bug".to_owned());
    assert_eq!(McpCode(to_mcp_error(&err, "bug").code), McpCode::INTERNAL_ERROR);
}

#[test]
fn message_is_preserved() {
    let err = authz_error(ErrorCode::RateLimited, "slow down");
    assert!(to_mcp_error(&err, "slow down").message.contains("slow down"));
}

#[test]
fn not_initialized_code_value() {
    assert_eq!(NOT_INITIALIZED, -32002);
}

#[test]
fn custom_codes_lie_in_jsonrpc_server_error_range() {
    assert_eq!(POSTURE_DENIED, -32001);
    assert_eq!(NOT_INITIALIZED, -32002);
    assert_eq!(RATE_LIMITED, -32003);
    assert_eq!(CIRCUIT_OPEN, -32004);
    assert_eq!(ATTACHMENT_TOO_LARGE, -32005);
}

#[test]
fn protocol_codes_are_those_of_the_protocol() {
    assert_eq!(McpCode(RESOURCE_NOT_FOUND), McpCode::RESOURCE_NOT_FOUND);
    assert_eq!(McpCode(INVALID_PARAMS), McpCode::INVALID_PARAMS);
    assert_eq!(McpCode(INTERNAL_ERROR), McpCode::INTERNAL_ERROR);
}

#[test]
fn protected_folder_uses_opaque_message() {
    let text = "folder `INBOX` is protected and cannot be deleted";
    let mcp = to_mcp_error(&authz_error(ErrorCode::ProtectedFolder, text), text);
    assert_eq!(mcp.code, POSTURE_DENIED);
    assert!(!mcp.message.contains("INBOX"));
    assert!(!mcp.message.contains("protected_folders"));
    assert_eq!(mcp.message, "operation denied for this folder");
}

#[test]
fn expunge_denied_uses_opaque_message() {
    let text = "expunge denied for folder `Sent`; add it to expunge_folders";
    let mcp = to_mcp_error(&authz_error(ErrorCode::ExpungeDenied, text), text);
    assert_eq!(mcp.code, POSTURE_DENIED);
    assert!(!mcp.message.contains("Sent"));
    assert!(!mcp.message.contains("expunge_folders"));
    assert_eq!(mcp.message, "operation denied for this folder");
}

#[test]
fn no_account_carries_structured_data() {
    let err = RimapError::NoAccount {
        available: vec!["work".into(), "personal".into()],
    };
    let data = value(&to_mcp_error(&err, "no account").data);
    assert_eq!(data["error_code"], "ERR_NO_ACCOUNT");
    assert_eq!(data["available"], list(&["work", "personal"]));
    assert!(data["hint"].as_str().is_some_and(|h| h.contains("use_account")));
}

#[test]
fn unknown_account_carries_structured_data() {
    let err = RimapError::UnknownAccount {
        name: "missing".into(),
        available: vec!["work".into()],
    };
    let data = value(&to_mcp_error(&err, "unknown account").data);
    assert_eq!(data["error_code"], "ERR_UNKNOWN_ACCOUNT");
    assert_eq!(data["name"], "missing");
    assert_eq!(data["available"], list(&["work"]));
}

#[test]
fn rate_limited_carries_structured_data() {
    let err = RimapError::RateLimited { retry_after_ms: 250 };
    let mcp = to_mcp_error(&err, "rate limited");
    assert_eq!(mcp.code, RATE_LIMITED);
    let v = value(&mcp.data);
    assert_eq!(v["error_code"], "ERR_RATE_LIMITED");
    assert_eq!(v["retry_after_ms"], 250);
}

#[test]
fn circuit_open_carries_structured_data() {
    let err = RimapError::CircuitOpen { retry_after_ms: 0 };
    let mcp = to_mcp_error(&err, "circuit open");
    assert_eq!(mcp.code, CIRCUIT_OPEN);
    let v = value(&mcp.data);
    assert_eq!(v["error_code"], "ERR_CIRCUIT_OPEN");
    assert_eq!(v["retry_after_ms"], 0);
}

#[test]
fn attachment_too_large_carries_structured_data() {
    let err = RimapError::AttachmentTooLarge {
        kind: "message_bytes".to_string(),
        limit: 26_214_400,
    };
    let mcp = to_mcp_error(&err, "too large");
    assert_eq!(mcp.code, ATTACHMENT_TOO_LARGE);
    let v = value(&mcp.data);
    assert_eq!(v["error_code"], "ERR_ATTACHMENT_TOO_LARGE");
    assert_eq!(v["kind"], "message_bytes");
    assert_eq!(v["limit"], 26_214_400);
}

#[test]
fn uid_validity_changed_carries_structured_data() {
    let err = RimapError::UidValidityChanged {
        folder: "INBOX".into(),
        expected: 100,
        actual: 101,
    };
    let data = value(&to_mcp_error(&err, "UIDVALIDITY changed").data);
    assert_eq!(data["error_code"], "ERR_UID_VALIDITY_CHANGED");
    assert_eq!(data["folder"], "INBOX");
    assert_eq!(data["expected"], 100);
    assert_eq!(data["actual"], 101);
}

#[test]
fn classification_covers_every_error_code_with_no_wildcard() {
    fn expected(code: ErrorCode) -> bool {
        match code {
            ErrorCode::NotFound
            | ErrorCode::UidValidityChanged
            | ErrorCode::RateLimited
            | ErrorCode::CircuitOpen
            | ErrorCode::AttachmentTooLarge
            | ErrorCode::ImapProtocol
            | ErrorCode::SmtpProtocol
            | ErrorCode::Tls
            | ErrorCode::Auth
            | ErrorCode::ConnectionLost
            | ErrorCode::Timeout
            | ErrorCode::PostureDenied
            | ErrorCode::ProtectedFolder
            | ErrorCode::ExpungeDenied => true,
            ErrorCode::InvalidInput
            | ErrorCode::NoAccount
            | ErrorCode::UnknownAccount
            | ErrorCode::Config
            | ErrorCode::Internal
            | ErrorCode::Cancelled => false,
        }
    }

    const ALL: &[ErrorCode] = &[
        ErrorCode::InvalidInput,
        ErrorCode::PostureDenied,
        ErrorCode::RateLimited,
        ErrorCode::CircuitOpen,
        ErrorCode::NotFound,
        ErrorCode::ImapProtocol,
        ErrorCode::SmtpProtocol,
        ErrorCode::Tls,
        ErrorCode::Auth,
        ErrorCode::ConnectionLost,
        ErrorCode::Timeout,
        ErrorCode::AttachmentTooLarge,
        ErrorCode::ProtectedFolder,
        ErrorCode::ExpungeDenied,
        ErrorCode::Config,
        ErrorCode::Internal,
        ErrorCode::NoAccount,
        ErrorCode::UnknownAccount,
        ErrorCode::Cancelled,
        ErrorCode::UidValidityChanged,
    ];

    for &code in ALL {
        let err = RimapError::Imap {
            code,
            message: "x".into(),
        };
        assert_eq!(is_tool_execution_error(&err), expected(code), "{code:?}");
    }
    assert_eq!(ALL.len(), 20, "list must enumerate all ErrorCode variants");
}

#[test]
fn not_found_becomes_iserror_result_with_code() {
    let text = "no such UID 5 in INBOX";
    let err = RimapError::Imap {
        code: ErrorCode::NotFound,
        message: text.into(),
    };
    assert!(is_tool_execution_error(&err));
    let result = to_error_call_result(&err, text);
    assert_eq!(result.is_error, Some(true));
    assert!(result_text(&result).contains("no such UID 5 in INBOX"));
    assert_eq!(value(&result.structured_content)["error_code"], "ERR_NOT_FOUND");
}

#[test]
fn protected_folder_iserror_result_is_opaque() {
    let text = "folder `INBOX` is protected; remove it from protected_folders";
    let err = authz_error(ErrorCode::ProtectedFolder, text);
    assert!(is_tool_execution_error(&err));
    let result = to_error_call_result(&err, text);
    let shown = result_text(&result);
    assert_eq!(shown, "operation denied for this folder");
    assert!(!shown.contains("INBOX"));
    assert!(!shown.contains("protected_folders"));
    assert_eq!(
        value(&result.structured_content)["error_code"],
        "ERR_PROTECTED_FOLDER"
    );
}

#[test]
fn rate_limited_iserror_result_carries_retry_hint() {
    let err = RimapError::RateLimited { retry_after_ms: 250 };
    let result = to_error_call_result(&err, "rate limited");
    assert_eq!(result.is_error, Some(true));
    let sc = value(&result.structured_content);
    assert_eq!(sc["error_code"], "ERR_RATE_LIMITED");
    assert_eq!(sc["retry_after_ms"], 250);
}

#[test]
fn uid_validity_changed_iserror_result_carries_expected_actual() {
    let err = RimapError::UidValidityChanged {
        folder: "INBOX".into(),
        expected: 5,
        actual: 6,
    };
    let result = to_error_call_result(&err, "UIDVALIDITY changed for INBOX");
    assert_eq!(result.is_error, Some(true));
    assert!(result_text(&result).contains("UIDVALIDITY changed"));
    let sc = value(&result.structured_content);
    assert_eq!(sc["error_code"], "ERR_UID_VALIDITY_CHANGED");
    assert_eq!(sc["expected"], 5);
    assert_eq!(sc["actual"], 6);
}

#[test]
fn every_code_reads_back_from_its_text() {
    for code in ErrorCode::all() {
        assert_eq!(ErrorCode::parse(code.as_str()), Some(code));
    }
    assert_eq!(ErrorCode::parse("ERR_NO_SUCH_CODE"), None);
    assert_eq!(ErrorCode::all().len(), 20);
}

#[test]
fn a_coded_error_without_details_has_none() {
    let err = RimapError::Imap {
        code: ErrorCode::Timeout,
        message: "slow".into(),
    };
    assert!(structured_error_data(&err).is_none());
    let result = to_error_call_result(&err, "slow");
    assert_eq!(value(&result.structured_content)["error_code"], "ERR_TIMEOUT");
}
