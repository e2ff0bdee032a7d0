use rimap_server::account::{AccountId, DEFAULT_ACCOUNT_NAME};
use rimap_server::boot::registry::AccountState;
use rimap_server::error::{ErrorCode, RimapError};
use rimap_server::mcp::audit_envelope::{open_envelope, StartWrite};
use rimap_server::mcp::dispatch::{
    audit_account, dispatch_infrastructure, dispatch_tool, guard_signal,
    rimap_error_to_breaker_reason, under_ceiling, FailureReason, GuardSignal, Handler,
    InfrastructureHandler, PostureContext,
};
use rimap_server::tool::{Posture, ToolName};

#[test]
fn breaker_reason_maps_every_error_code() {
    fn expected_reason(code: ErrorCode) -> Option<FailureReason> {
        match code {
            ErrorCode::ConnectionLost => Some(FailureReason::ConnectionLost),
            ErrorCode::Auth => Some(FailureReason::Auth),
            ErrorCode::Timeout => Some(FailureReason::Timeout),
            ErrorCode::ImapProtocol | ErrorCode::SmtpProtocol => Some(FailureReason::Protocol),
            ErrorCode::Tls => Some(FailureReason::Tls),
            ErrorCode::InvalidInput
            | ErrorCode::PostureDenied
            | ErrorCode::RateLimited
            | ErrorCode::CircuitOpen
            | ErrorCode::NotFound
            | ErrorCode::AttachmentTooLarge
            | ErrorCode::ProtectedFolder
            | ErrorCode::ExpungeDenied
            | ErrorCode::Config
            | ErrorCode::Internal
            | ErrorCode::NoAccount
            | ErrorCode::UnknownAccount
            | ErrorCode::Cancelled
            | ErrorCode::UidValidityChanged => None,
        }
    }

    const ALL: &[ErrorCode] = &[
        ErrorCode::ConnectionLost,
        ErrorCode::Auth,
        ErrorCode::Timeout,
        ErrorCode::ImapProtocol,
        ErrorCode::SmtpProtocol,
        ErrorCode::Tls,
        ErrorCode::InvalidInput,
        ErrorCode::PostureDenied,
        ErrorCode::RateLimited,
        ErrorCode::CircuitOpen,
        ErrorCode::NotFound,
        ErrorCode::AttachmentTooLarge,
        ErrorCode::ProtectedFolder,
        ErrorCode::ExpungeDenied,
        ErrorCode::Config,
        ErrorCode::Internal,
        ErrorCode::NoAccount,
        ErrorCode::UnknownAccount,
        ErrorCode::Cancelled,
        ErrorCode::UidValidityChanged,
    ];

    for &code in ALL {
        let err = RimapError::Imap {
            code,
            message: "x".into(),
        };
        assert_eq!(
            rimap_error_to_breaker_reason(&err),
            expected_reason(code),
            "mapping mismatch for {code:?}"
        );
    }
    assert_eq!(ALL.len(), 20);
}

#[test]
fn smtp_errors_are_breaker_neutral() {
    for code in [
        ErrorCode::Auth,
        ErrorCode::SmtpProtocol,
        ErrorCode::Tls,
        ErrorCode::Timeout,
        ErrorCode::ConnectionLost,
    ] {
        let err = RimapError::Smtp {
            code,
            message: "x".into(),
        };
        assert_eq!(rimap_error_to_breaker_reason(&err), None, "{code:?}");
        assert_eq!(guard_signal(Some(&err)), GuardSignal::Silent);
    }
    assert_eq!(guard_signal(None), GuardSignal::Success);
}

#[test]
fn posture_context_round_trips_account_and_infrastructure() {
    assert_eq!(
        PostureContext::Account(Posture::DraftSafe).posture(),
        Some(Posture::DraftSafe)
    );
    assert_eq!(
        PostureContext::Account(Posture::Readonly).posture(),
        Some(Posture::Readonly)
    );
    assert_eq!(PostureContext::Infrastructure.posture(), None);
}

#[test]
fn ceiling_elapsing_reports_timeout_and_runs_cleanup() {
    let (outcome, cleanup) = under_ceiling::<()>(0, None);
    match outcome {
        Err(RimapError::Imap { code, message }) => {
            assert_eq!(code, ErrorCode::Timeout);
            assert!(message.contains("tool_call_timeout_seconds"), "{message}");
        }
        _ => panic!("a pending dispatch must be cut off by the ceiling"),
    }
    assert!(cleanup);
}

#[test]
fn dispatch_within_ceiling_passes_through() {
    let (outcome, cleanup) = under_ceiling(30, Some(Ok::<u32, RimapError>(7)));
    assert!(matches!(outcome, Ok(7)));
    assert!(!cleanup);
}

#[test]
fn inner_error_passes_through_without_cleanup() {
    let inner = RimapError::Imap {
        code: ErrorCode::Timeout,
        message: "list timed out".into(),
    };
    let (outcome, cleanup) = under_ceiling::<()>(30, Some(Err(inner)));
    match outcome {
        Err(e) => {
            assert_eq!(e.code().as_str(), "ERR_TIMEOUT");
            assert!(matches!(e, RimapError::Imap { message, .. } if message == "list timed out"));
        }
        Ok(()) => panic!("inner error"),
    }
    assert!(!cleanup);
}

#[test]
fn a_cut_call_names_its_ceiling() {
    let (outcome, _) = under_ceiling::<u32>(30, None);
    assert!(matches!(
        outcome,
        Err(RimapError::Imap { code: ErrorCode::Timeout, message })
            if message == "tool call exceeded the 30s ceiling (limits.tool_call_timeout_seconds)"
    ));
}

fn handler(tool: ToolName) -> Result<Handler, RimapError> {
    match open_envelope(StartWrite::Written(1), tool, None) {
        Ok((_, ticket)) => dispatch_tool(ticket, tool),
        Err(_) => panic!("a written start record opens the envelope"),
    }
}

#[test]
fn every_tool_is_served_in_one_place() {
    for tool in ToolName::all() {
        let infrastructure = dispatch_infrastructure(Ok(()), tool).is_ok();
        assert_eq!(handler(tool).is_ok(), !infrastructure, "{tool:?}");
        assert_eq!(infrastructure, tool.is_infrastructure(), "{tool:?}");
    }
    assert!(matches!(handler(ToolName::SearchAdvanced), Ok(Handler::Search)));
    assert!(matches!(
        handler(ToolName::UseAccount),
        Err(RimapError::Internal(m)) if m == "infrastructure tools must not reach dispatch_tool"
    ));
    assert!(!Handler::ListFolders.takes_arguments());
    assert!(Handler::Search.takes_arguments());
}

#[test]
fn account_tools_wait_for_the_limiter() {
    assert!(matches!(
        dispatch_infrastructure(Ok(()), ToolName::ListAccounts),
        Ok(InfrastructureHandler::ListAccounts)
    ));
    let refusal = RimapError::RateLimited { retry_after_ms: 5 };
    assert!(matches!(
        dispatch_infrastructure(Err(refusal), ToolName::UseAccount),
        Err(RimapError::RateLimited { retry_after_ms: 5 })
    ));
    assert!(matches!(
        dispatch_infrastructure(Ok(()), ToolName::Search),
        Err(RimapError::Internal(m)) if m == "not an infrastructure tool: search"
    ));
}

#[test]
fn the_default_account_is_logged_without_a_name() {
    let account = |name: &str| AccountState {
        id: AccountId::new(name).unwrap(),
        posture: Posture::Full,
        advertised: vec![],
        imap_username: String::new(),
        imap_host: String::new(),
        smtp_configured: true,
        tool_call_timeout_secs: 1,
    };
    assert_eq!(audit_account(&account(DEFAULT_ACCOUNT_NAME)), None);
    assert_eq!(audit_account(&account("work")), Some("work".to_string()));
}
