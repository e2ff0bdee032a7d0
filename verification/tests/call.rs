use rimap_server::account::{AccountId, DEFAULT_ACCOUNT_NAME};
use rimap_server::boot::registry::{AccountRegistry, AccountState};
use rimap_server::error::{ErrorCode, RimapError};
use rimap_server::json::parse_json;
use rimap_server::mcp::audit_envelope::{Reply, StartWrite, ToolEnd, ToolStatus};
use rimap_server::mcp::call::{
    call_for, call_start, call_step, posture_for, Call, CallAction, CallEvent, CallPhase,
};
use rimap_server::mcp::dispatch::{
    dispatch_infrastructure, FailureReason, GuardSignal, PostureContext,
};
use rimap_server::mcp::error::{Content, INTERNAL_ERROR};
use rimap_server::mcp::server::CallPlan;
use rimap_server::tool::{Posture, ToolName};

fn search() -> Call {
    Call {
        tool: ToolName::Search,
        account: Some("work".to_string()),
        ceiling_secs: Some(30),
    }
}

fn run(call: &Call, events: Vec<CallEvent>) -> (CallPhase, Vec<CallAction>) {
    let (mut phase, first) = call_start();
    let mut actions = vec![first];
    for event in events {
        match call_step(call, phase, event) {
            Some((next, action)) => {
                phase = next;
                actions.push(action);
            }
            None => panic!("the event cannot come after {} actions", actions.len()),
        }
    }
    (phase, actions)
}

fn concluded(action: &CallAction) -> (GuardSignal, bool, &ToolEnd) {
    match action {
        CallAction::Conclude { signal, give_up, end } => (*signal, *give_up, end),
        _ => panic!("the call is not concluded"),
    }
}

#[test]
fn a_call_runs_from_its_start_record_to_its_answer() {
    let value = parse_json("{\"meta\":{\"total\":2}}").unwrap();
    let (phase, actions) = run(
        &search(),
        vec![
            CallEvent::Started(StartWrite::Written(41)),
            CallEvent::Admitted,
            CallEvent::Finished(Ok(value), 12),
            CallEvent::EndRecorded(String::new()),
        ],
    );
    assert!(matches!(phase, CallPhase::Over));
    assert_eq!(actions.len(), 5);
    assert!(matches!(actions[0], CallAction::WriteStart));
    assert!(matches!(actions[1], CallAction::AskGuard));
    assert!(matches!(actions[2], CallAction::Dispatch(_)));
    let (signal, give_up, end) = concluded(&actions[3]);
    assert_eq!(signal, GuardSignal::Success);
    assert!(!give_up);
    assert_eq!(end.start_seq, 41);
    assert_eq!(end.tool, ToolName::Search);
    assert_eq!(end.account.as_deref(), Some("work"));
    assert_eq!(end.duration_ms, 12);
    assert_eq!(end.outcome.status, ToolStatus::Succeeded);
    assert!(end.outcome.error_code.is_none());
    assert!(matches!(&actions[4], CallAction::Answer(Reply::Value(_))));
}

#[test]
fn a_failed_tool_is_recorded_and_answered_with_its_error() {
    let failure = RimapError::Imap {
        code: ErrorCode::ConnectionLost,
        message: "reset by peer".to_string(),
    };
    let (_, actions) = run(
        &search(),
        vec![
            CallEvent::Started(StartWrite::Written(7)),
            CallEvent::Admitted,
            CallEvent::Finished(Err(failure), 3),
            CallEvent::EndRecorded("reset by peer".to_string()),
        ],
    );
    let (signal, give_up, end) = concluded(&actions[3]);
    assert_eq!(signal, GuardSignal::Failure(FailureReason::ConnectionLost));
    assert!(!give_up);
    assert_eq!(end.outcome.status, ToolStatus::Error);
    assert_eq!(end.outcome.error_code, Some(ErrorCode::ConnectionLost));
    match &actions[4] {
        CallAction::Answer(Reply::Failed(result)) => {
            assert_eq!(result.is_error, Some(true));
            assert!(
                matches!(&result.content[0], Content::Text(text) if text.contains("reset by peer"))
            );
        }
        _ => panic!("the client is answered with the failed result"),
    }
}

#[test]
fn a_refused_call_does_not_run() {
    let (phase, actions) = run(
        &search(),
        vec![
            CallEvent::Started(StartWrite::Written(8)),
            CallEvent::Refused(RimapError::RateLimited { retry_after_ms: 250 }, 1),
            CallEvent::EndRecorded("slow down".to_string()),
        ],
    );
    assert!(matches!(phase, CallPhase::Over));
    assert!(!actions.iter().any(|a| matches!(a, CallAction::Dispatch(_))));
    let (signal, give_up, end) = concluded(&actions[2]);
    assert_eq!(signal, GuardSignal::Silent);
    assert!(!give_up);
    assert_eq!(end.outcome.error_code, Some(ErrorCode::RateLimited));
}

#[test]
fn a_call_over_its_ceiling_gives_up_the_connection() {
    let (phase, actions) = run(
        &search(),
        vec![
            CallEvent::Started(StartWrite::Written(9)),
            CallEvent::Admitted,
            CallEvent::CutOff(30_001),
        ],
    );
    let (signal, give_up, end) = concluded(&actions[3]);
    assert_eq!(signal, GuardSignal::Failure(FailureReason::Timeout));
    assert!(give_up);
    assert_eq!(end.duration_ms, 30_001);
    assert_eq!(end.outcome.error_code, Some(ErrorCode::Timeout));
    match phase {
        CallPhase::Ending { result: Err(RimapError::Imap { message, .. }) } => assert_eq!(
            message,
            "tool call exceeded the 30s ceiling (limits.tool_call_timeout_seconds)"
        ),
        _ => panic!("the call ends with the ceiling's error"),
    }
}

#[test]
fn an_unlimited_call_is_not_cut_off_and_tells_no_guard() {
    let call = Call { tool: ToolName::ListAccounts, account: None, ceiling_secs: None };
    let (phase, _) = run(
        &call,
        vec![CallEvent::Started(StartWrite::Written(1)), CallEvent::Admitted],
    );
    assert!(call_step(&call, phase, CallEvent::CutOff(5)).is_none());
    let value = parse_json("{}").unwrap();
    let (_, actions) = run(
        &call,
        vec![
            CallEvent::Started(StartWrite::Written(1)),
            CallEvent::Admitted,
            CallEvent::Finished(Ok(value), 5),
        ],
    );
    let (signal, _, _) = concluded(&actions[3]);
    assert_eq!(signal, GuardSignal::Silent);
}

#[test]
fn a_call_that_is_given_up_is_recorded_as_cancelled() {
    let before = vec![CallEvent::Started(StartWrite::Written(5))];
    let (phase, _) = run(&search(), before);
    match call_step(&search(), phase, CallEvent::Dropped(77)) {
        Some((CallPhase::Over, CallAction::RecordCancelled(end))) => {
            assert_eq!(end.start_seq, 5);
            assert_eq!(end.duration_ms, 77);
            assert_eq!(end.outcome.status, ToolStatus::Cancelled);
            assert_eq!(end.outcome.error_code, Some(ErrorCode::Cancelled));
        }
        _ => panic!("the record of a given-up call is handed on"),
    }
}

#[test]
fn nothing_is_recorded_for_a_call_given_up_before_its_start_or_after_its_end() {
    let (phase, _) = call_start();
    assert!(matches!(
        call_step(&search(), phase, CallEvent::Dropped(1)),
        Some((CallPhase::Over, CallAction::Nothing))
    ));
    let (phase, _) = run(
        &search(),
        vec![
            CallEvent::Started(StartWrite::Written(5)),
            CallEvent::Admitted,
            CallEvent::CutOff(9),
        ],
    );
    assert!(matches!(
        call_step(&search(), phase, CallEvent::Dropped(10)),
        Some((CallPhase::Over, CallAction::Nothing))
    ));
}

#[test]
fn a_call_whose_start_is_refused_is_answered_and_over() {
    let (phase, actions) = run(
        &search(),
        vec![CallEvent::Started(StartWrite::Refused("disk full".to_string()))],
    );
    assert!(matches!(phase, CallPhase::Over));
    match &actions[1] {
        CallAction::Answer(Reply::Protocol(e)) => {
            assert_eq!(e.code, INTERNAL_ERROR);
            assert_eq!(e.message, "audit write failed: disk full");
        }
        _ => panic!("the client gets a protocol error"),
    }
}

#[test]
fn events_out_of_turn_are_not_taken() {
    let (phase, _) = call_start();
    assert!(call_step(&search(), phase, CallEvent::Admitted).is_none());
    let (phase, _) = run(&search(), vec![CallEvent::Started(StartWrite::Written(2))]);
    assert!(call_step(&search(), phase, CallEvent::EndRecorded(String::new())).is_none());
}

fn account(name: &str, timeout: u64) -> AccountState {
    AccountState {
        id: AccountId::new(name).unwrap(),
        posture: Posture::Full,
        advertised: vec![],
        imap_username: "alice".to_string(),
        imap_host: "127.0.0.1".to_string(),
        smtp_configured: false,
        tool_call_timeout_secs: timeout,
    }
}

fn planned(account: &str) -> CallPlan {
    CallPlan::Account {
        account: account.to_string(),
        tool: ToolName::Search,
    }
}

#[test]
fn a_call_on_an_account_is_logged_under_its_name() {
    let registry =
        AccountRegistry::new(vec![account("work", 30), account(DEFAULT_ACCOUNT_NAME, 60)]);
    let call = call_for(&planned("work"), &registry).unwrap();
    assert_eq!(call.tool, ToolName::Search);
    assert_eq!(call.account.as_deref(), Some("work"));
    assert_eq!(call.ceiling_secs, Some(30));
    let call = call_for(&planned(DEFAULT_ACCOUNT_NAME), &registry).unwrap();
    assert_eq!(call.account, None);
    assert_eq!(call.ceiling_secs, Some(60));
    assert_eq!(
        posture_for(&planned("work"), &registry),
        Some(PostureContext::Account(Posture::Full))
    );
    assert!(call_for(&planned("home"), &registry).is_none());
    assert!(posture_for(&planned("home"), &registry).is_none());
}

#[test]
fn a_call_about_accounts_is_logged_under_none() {
    let registry = AccountRegistry::new(vec![account("work", 30)]);
    let plan = CallPlan::Infrastructure(ToolName::UseAccount);
    assert_eq!(posture_for(&plan, &registry), Some(PostureContext::Infrastructure));
    let call = call_for(&plan, &registry).unwrap();
    assert_eq!(call.tool, ToolName::UseAccount);
    assert_eq!(call.account, None);
    assert_eq!(call.ceiling_secs, None);
    let verdict = Err(RimapError::RateLimited { retry_after_ms: 150 });
    let refusal = dispatch_infrastructure(verdict, call.tool).err().unwrap();
    let (_, actions) = run(
        &call,
        vec![
            CallEvent::Started(StartWrite::Written(9)),
            CallEvent::Refused(refusal, 1),
            CallEvent::EndRecorded("slow down".to_string()),
        ],
    );
    let (signal, _, end) = concluded(&actions[2]);
    assert_eq!(signal, GuardSignal::Silent);
    assert_eq!(end.account, None);
    assert_eq!(end.outcome.error_code, Some(ErrorCode::RateLimited));
    match &actions[3] {
        CallAction::Answer(Reply::Failed(failed)) => {
            assert_eq!(failed.is_error, Some(true));
            let data = failed.structured_content.as_ref().unwrap();
            let text = rimap_server::json::render_json(data);
            assert!(text.contains("\"error_code\":\"ERR_RATE_LIMITED\""), "{text}");
        }
        _ => panic!("expected a failed result"),
    }
}

fn ended(call: &Call, result: Result<&str, RimapError>) -> (ToolEnd, Reply) {
    let result = match result {
        Ok(text) => Ok(parse_json(text).unwrap()),
        Err(e) => Err(e),
    };
    let (_, mut actions) = run(
        call,
        vec![
            CallEvent::Started(StartWrite::Written(1)),
            CallEvent::Admitted,
            CallEvent::Finished(result, 1),
            CallEvent::EndRecorded("shown".to_string()),
        ],
    );
    match (actions.pop(), actions.pop()) {
        (Some(CallAction::Answer(reply)), Some(CallAction::Conclude { end, .. })) => (end, reply),
        _ => panic!("a call ends with its record and its answer"),
    }
}

fn unlimited(tool: ToolName) -> Call {
    Call { tool, account: None, ceiling_secs: None }
}

#[test]
fn dropped_run_with_audit_envelope_emits_exactly_one_cancellation() {
    let (phase, actions) = run(
        &unlimited(ToolName::ListAccounts),
        vec![
            CallEvent::Started(StartWrite::Written(6)),
            CallEvent::Admitted,
            CallEvent::Dropped(4),
        ],
    );
    assert!(matches!(phase, CallPhase::Over));
    let ends: Vec<&ToolEnd> = actions
        .iter()
        .filter_map(|action| match action {
            CallAction::RecordCancelled(end) => Some(end),
            CallAction::Conclude { end, .. } => Some(end),
            _ => None,
        })
        .collect();
    assert_eq!(ends.len(), 1);
    assert_eq!(ends[0].outcome.status, ToolStatus::Cancelled);
    assert_eq!(ends[0].outcome.error_code, Some(ErrorCode::Cancelled));
    assert_eq!(ends[0].start_seq, 6);
}

#[test]
fn fired_ceiling_records_err_timeout_not_cancellation() {
    let call = Call {
        tool: ToolName::ListFolders,
        account: Some("work".to_string()),
        ceiling_secs: Some(0),
    };
    let (_, actions) = run(
        &call,
        vec![
            CallEvent::Started(StartWrite::Written(1)),
            CallEvent::Admitted,
            CallEvent::CutOff(50),
            CallEvent::EndRecorded("cut".to_string()),
        ],
    );
    assert!(!actions.iter().any(|a| matches!(a, CallAction::RecordCancelled(_))));
    let (_, _, end) = concluded(&actions[3]);
    assert_eq!(end.outcome.status, ToolStatus::Error);
    assert_eq!(end.outcome.error_code, Some(ErrorCode::Timeout));
    match &actions[4] {
        CallAction::Answer(Reply::Failed(failed)) => assert_eq!(failed.is_error, Some(true)),
        _ => panic!("a fired ceiling is a tool-execution failure, not a protocol one"),
    }
}

#[test]
fn tool_end_records_export_provenance_from_result() {
    let (end, _) = ended(
        &unlimited(ToolName::ExportMessages),
        Ok(r#"{"meta":{"path":"/srv/dl/messages-xyz.mbox","sha256":"ab","total_bytes":4096,
               "succeeded":[{"uid":7},{"uid":9}],"failed":[{"uid":8}]}}"#),
    );
    assert_eq!(end.outcome.status, ToolStatus::Succeeded);
    let summary = &end.outcome.result_summary;
    assert_eq!(summary.artifact_path.as_deref(), Some("/srv/dl/messages-xyz.mbox"));
    assert_eq!(summary.artifact_bytes, Some(4096));
    assert_eq!(summary.uids_exported, [7, 9]);
    assert_eq!(summary.uids_failed, [8]);
}

#[test]
fn execution_error_returns_iserror_result_and_records_error() {
    let (end, reply) = ended(
        &unlimited(ToolName::FetchMessage),
        Err(RimapError::Imap {
            code: ErrorCode::NotFound,
            message: "no such UID".to_string(),
        }),
    );
    match reply {
        Reply::Failed(failed) => {
            assert_eq!(failed.is_error, Some(true));
            let data = failed.structured_content.expect("structured content");
            let text = rimap_server::json::render_json(&data);
            let data: serde_json::Value = serde_json::from_str(&text).unwrap();
            assert_eq!(data["error_code"], "ERR_NOT_FOUND");
        }
        _ => panic!("execution error must surface as a failed result"),
    }
    assert_eq!(end.outcome.status, ToolStatus::Error);
    assert_eq!(end.outcome.error_code, Some(ErrorCode::NotFound));
}

#[test]
fn protocol_error_still_returns_err_error_data() {
    let (_, reply) = ended(
        &unlimited(ToolName::FetchMessage),
        Err(RimapError::Authz {
            code: ErrorCode::InvalidInput,
            message: "bad uid".to_string(),
        }),
    );
    match reply {
        Reply::Protocol(e) => assert_eq!(e.code, rmcp::model::ErrorCode::INVALID_PARAMS.0),
        _ => panic!("protocol error must surface as a protocol error"),
    }
}

#[test]
fn tool_start_failure_fail_closed_aborts_with_no_orphan() {
    let (phase, actions) = run(
        &unlimited(ToolName::ListAccounts),
        vec![CallEvent::Started(StartWrite::Refused("forced".to_string()))],
    );
    assert!(matches!(phase, CallPhase::Over));
    assert_eq!(actions.len(), 2);
    assert!(matches!(
        &actions[1],
        CallAction::Answer(Reply::Protocol(e)) if e.message == "audit write failed: forced"
    ));
}
