use rimap_server::error::{ErrorCode, RimapError};
use rimap_server::json::parse_json;
use rimap_server::mcp::audit_envelope::{
    duration_ms, open_envelope, reply, tool_outcome, AuditEnvelopeGuard, Reply, StartWrite,
    ToolStatus,
};
use rimap_server::mcp::drain::{track, DispatchDrain, SHUTDOWN_CUT_MESSAGE};
use rimap_server::mcp::error::{ErrorData, INTERNAL_ERROR, INVALID_PARAMS};
use rimap_server::serve::{
    initialize_failure_is_handled_rejection, process_end_reason, serve_start, serve_step,
    InitFailure, ProcessEndReason, ServeAction, ServeEvent, ServeFailure, ServePhase,
};
use rimap_server::tool::ToolName;
use rmcp::model::ErrorCode as McpErrorCode;

#[test]
fn invalid_params_is_handled_rejection() {
    assert!(initialize_failure_is_handled_rejection(McpErrorCode::INVALID_PARAMS.0));
}

#[test]
fn internal_error_is_not_handled_rejection() {
    assert!(!initialize_failure_is_handled_rejection(McpErrorCode::INTERNAL_ERROR.0));
}

#[test]
fn method_not_found_is_not_handled_rejection() {
    assert!(!initialize_failure_is_handled_rejection(McpErrorCode::METHOD_NOT_FOUND.0));
}

#[test]
fn unknown_codes_are_not_handled_rejection() {
    assert!(!initialize_failure_is_handled_rejection(-32099));
    assert!(!initialize_failure_is_handled_rejection(-32603 - 1));
    assert!(!initialize_failure_is_handled_rejection(-32700));
}

fn run(events: Vec<ServeEvent>) -> (ServePhase, Vec<ServeAction>) {
    let (mut phase, first) = serve_start();
    let mut actions = vec![first];
    for event in events {
        match serve_step(phase, event) {
            Some((next, action)) => {
                phase = next;
                actions.push(action);
            }
            None => panic!("the event cannot come after {actions:?}"),
        }
    }
    (phase, actions)
}

fn outcome(phase: ServePhase) -> (Result<(), ServeFailure>, u64) {
    match phase {
        ServePhase::Done { outcome, undrained } => (outcome, undrained),
        _ => panic!("the session is not done"),
    }
}

#[test]
fn a_session_ends_in_order() {
    let (phase, actions) = run(vec![
        ServeEvent::RegistryBuilt,
        ServeEvent::Opened,
        ServeEvent::ServiceEnded(Ok(())),
        ServeEvent::Drained(2),
        ServeEvent::BridgesDown(Ok(())),
        ServeEvent::DrainerJoined,
    ]);
    assert_eq!(
        actions,
        [
            ServeAction::BuildRegistry,
            ServeAction::RaceInit,
            ServeAction::RaceService,
            ServeAction::DrainDispatches,
            ServeAction::DrainSupervisor,
            ServeAction::JoinDrainer,
            ServeAction::Finish,
        ]
    );
    let (result, undrained) = outcome(phase);
    assert!(result.is_ok());
    assert_eq!(undrained, 2);
    assert!(matches!(process_end_reason(&result), ProcessEndReason::Eof));
}

#[test]
fn a_broken_bridge_fails_the_session() {
    let (phase, actions) = run(vec![
        ServeEvent::RegistryBuilt,
        ServeEvent::Opened,
        ServeEvent::BridgesEnded(Err("broken pipe".to_string())),
        ServeEvent::Drained(0),
        ServeEvent::BridgesDown(Err("later".to_string())),
        ServeEvent::DrainerJoined,
    ]);
    assert!(actions.contains(&ServeAction::ShutdownAfterFailure));
    let (result, _) = outcome(phase);
    match &result {
        Err(e) => assert_eq!(e.text(), "validator bridge: broken pipe"),
        Ok(()) => panic!("the session failed"),
    }
    assert!(matches!(process_end_reason(&result), ProcessEndReason::Error));
}

#[test]
fn a_failed_registry_ends_at_once() {
    let (phase, actions) = run(vec![ServeEvent::RegistryFailed("no host".to_string())]);
    assert_eq!(actions, [ServeAction::BuildRegistry, ServeAction::Finish]);
    let (result, undrained) = outcome(phase);
    assert_eq!(undrained, 0);
    assert!(matches!(result, Err(e) if e.text() == "building account registry: no host"));
}

#[test]
fn a_request_before_the_session_is_answered() {
    let (phase, actions) = run(vec![
        ServeEvent::RegistryBuilt,
        ServeEvent::NotOpened {
            failure: InitFailure::ExpectedInitialize,
            intercepted: false,
        },
        ServeEvent::EnvelopeWritten,
        ServeEvent::BridgesDown(Ok(())),
        ServeEvent::Drained(0),
    ]);
    assert!(actions.contains(&ServeAction::EmitPreInitEnvelope));
    assert!(outcome(phase).0.is_ok());
}

#[test]
fn a_refused_session_ends_by_its_code() {
    for (code, ends_well) in [(INVALID_PARAMS, true), (INTERNAL_ERROR, false)] {
        let (phase, _) = run(vec![
            ServeEvent::RegistryBuilt,
            ServeEvent::NotOpened {
                failure: InitFailure::Refused {
                    code,
                    message: "m".to_string(),
                },
                intercepted: false,
            },
            ServeEvent::BridgesDown(Ok(())),
            ServeEvent::Drained(0),
        ]);
        assert_eq!(outcome(phase).0.is_ok(), ends_well, "{code}");
    }
}

#[test]
fn an_intercepted_request_ends_well() {
    let (phase, _) = run(vec![
        ServeEvent::RegistryBuilt,
        ServeEvent::BridgesEndedUnopened {
            fault: Ok(()),
            intercepted: true,
        },
        ServeEvent::BridgesDown(Ok(())),
        ServeEvent::Drained(0),
    ]);
    assert!(outcome(phase).0.is_ok());
    let (phase, _) = run(vec![
        ServeEvent::RegistryBuilt,
        ServeEvent::BridgesEndedUnopened {
            fault: Ok(()),
            intercepted: false,
        },
        ServeEvent::BridgesDown(Ok(())),
        ServeEvent::Drained(0),
    ]);
    assert!(matches!(
        outcome(phase).0,
        Err(ServeFailure::BridgesExitedBeforeInit)
    ));
}

#[test]
fn an_event_out_of_turn_is_refused() {
    assert!(serve_step(ServePhase::Building, ServeEvent::Opened).is_none());
    assert!(serve_step(ServePhase::Serving, ServeEvent::RegistryBuilt).is_none());
}

#[test]
fn dropped_guard_enqueues_cancellation_record() {
    let mut guard = AuditEnvelopeGuard::new(9, ToolName::Search, Some("test".to_string()));
    let end = guard.on_drop(15).expect("an armed guard records the drop");
    assert_eq!(end.start_seq, 9);
    assert_eq!(end.tool, ToolName::Search);
    assert_eq!(end.account.as_deref(), Some("test"));
    assert_eq!(end.duration_ms, 15);
    assert!(matches!(end.outcome.status, ToolStatus::Cancelled));
    assert_eq!(end.outcome.error_code, Some(ErrorCode::Cancelled));
    assert!(guard.on_drop(16).is_none());
}

#[test]
fn disarmed_guard_does_not_enqueue() {
    let mut guard = AuditEnvelopeGuard::new(1, ToolName::Search, Some("test".to_string()));
    guard.disarm();
    assert!(guard.on_drop(1).is_none());
}

#[test]
fn a_finished_call_is_recorded_once() {
    let value = parse_json(r#"{"meta":{"path":"/srv/a.pdf","size_bytes":3}}"#).unwrap();
    let mut guard = AuditEnvelopeGuard::new(4, ToolName::DownloadAttachment, None);
    let end = guard.finish(20, Ok(&value));
    assert!(matches!(end.outcome.status, ToolStatus::Succeeded));
    assert_eq!(end.outcome.result_summary.artifact_path.as_deref(), Some("/srv/a.pdf"));
    assert_eq!(end.outcome.result_summary.artifact_bytes, Some(3));
    assert!(guard.on_drop(21).is_none());
}

#[test]
fn a_failed_call_is_recorded_with_its_code() {
    let err = RimapError::Imap {
        code: ErrorCode::Timeout,
        message: "slow".to_string(),
    };
    let recorded = tool_outcome(ToolName::Search, Err(&err));
    assert!(matches!(recorded.status, ToolStatus::Error));
    assert_eq!(recorded.error_code, Some(ErrorCode::Timeout));
}

#[test]
fn a_call_without_a_start_record_does_not_run() {
    match open_envelope(
        StartWrite::Refused("disk full".to_string()),
        ToolName::Search,
        None,
    ) {
        Err(e) => {
            assert_eq!(e.code, INTERNAL_ERROR);
            assert_eq!(e.message, "audit write failed: disk full");
        }
        Ok(_) => panic!("a refused start record must stop the call"),
    }
    match open_envelope(
        StartWrite::Panicked("ERR_INTERNAL: spawn_blocking panicked".to_string()),
        ToolName::Search,
        None,
    ) {
        Err(e) => {
            assert_eq!(e.code, INTERNAL_ERROR);
            assert_eq!(e.message, "ERR_INTERNAL: spawn_blocking panicked");
        }
        Ok(_) => panic!("a panicked write must stop the call"),
    }
}

#[test]
fn a_reply_says_what_a_call_came_to() {
    assert!(matches!(
        reply(Ok(parse_json("{}").unwrap()), ""),
        Reply::Value(_)
    ));
    let failed = RimapError::Imap {
        code: ErrorCode::NotFound,
        message: "gone".to_string(),
    };
    assert!(matches!(reply(Err(failed), "gone"), Reply::Failed(r) if r.is_error == Some(true)));
    let bug = RimapError::Internal("bug".to_string());
    assert!(matches!(reply(Err(bug), "bug"), Reply::Protocol(e) if e.code == INTERNAL_ERROR));
}

#[test]
fn long_durations_saturate() {
    assert_eq!(duration_ms(12), 12);
    assert_eq!(duration_ms(u128::MAX), u64::MAX);
}

#[test]
fn a_drain_counts_what_is_registered() {
    let mut drain = DispatchDrain::new();
    assert!(drain.admits());
    assert!(drain.is_drained());
    drain.open();
    drain.open();
    drain.close();
    assert_eq!(drain.inflight(), 1);
    drain.cancel();
    assert!(!drain.admits());
    assert_eq!(drain.shutdown(false), 1);
    drain.close();
    drain.close();
    assert!(drain.is_drained());
    assert_eq!(drain.shutdown(true), 0);
}

#[test]
fn a_cut_call_is_answered_with_an_error() {
    assert!(matches!(track(Some(Ok::<u8, ErrorData>(1))), Ok(1)));
    match track::<u8>(None) {
        Err(e) => {
            assert_eq!(e.code, INTERNAL_ERROR);
            assert_eq!(e.message, SHUTDOWN_CUT_MESSAGE);
        }
        Ok(_) => panic!("a cut call has no result"),
    }
}

#[test]
fn a_dispatch_starting_after_shutdown_never_polls_its_body() {
    let mut drain = DispatchDrain::new();
    assert!(drain.begin());
    assert!(matches!(drain.finish(Some(Ok::<u8, ErrorData>(1))), Ok(1)));
    assert!(drain.is_drained());
    drain.open();
    drain.cancel();
    assert!(!drain.begin());
    assert_eq!(drain.inflight(), 2);
    match drain.finish::<u8>(None) {
        Err(e) => assert_eq!(e.message, "server is shutting down"),
        Ok(_) => panic!("a call after the shutdown has no result"),
    }
    assert_eq!(drain.inflight(), 1);
}
