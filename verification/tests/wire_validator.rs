use rimap_server::mcp::wire_validator::duplicates::has_duplicate_keys_in_rmcp_strict_positions;
use rimap_server::mcp::wire_validator::envelope::{
    invalid_request, parse_error, synthesize_error_line, validate, ErrorEnvelope, RequestId,
    ValidationOutcome,
};
use rimap_server::mcp::wire_validator::inbound::{
    act_on_reading, after_interception, inbound_step, pre_init_answer, InboundAction,
};
use rimap_server::mcp::wire_validator::message::ClientMessage;
use rimap_server::mcp::wire_validator::supervisor::{
    flatten, BridgeExit, Side, ValidatorSupervisor, Watch,
};
use serde_json::Value;

fn reject(code: i32, id: Option<RequestId>) -> ValidationOutcome {
    ValidationOutcome::Reject(ErrorEnvelope {
        code,
        message: if code == -32700 {
            "Parse error".to_string()
        } else {
            "Invalid Request".to_string()
        },
        id,
    })
}

fn number(n: i64) -> Option<RequestId> {
    Some(RequestId::Number(n))
}

fn read(line: &str) -> Value {
    serde_json::from_str(line.trim_end()).unwrap()
}

fn check_empty_line_skips() {
    assert_eq!(validate(""), ValidationOutcome::Skip);
    assert_eq!(validate("   "), ValidationOutcome::Skip);
    assert_eq!(validate("\r"), ValidationOutcome::Skip);
}

#[test]
fn wire_validator_empty_line_skips() {
    check_empty_line_skips();
}

#[test]
fn mod_empty_line_skips() {
    check_empty_line_skips();
}

#[test]
fn wire_validator_invalid_json_returns_parse_error() {
    assert_eq!(validate("not valid json"), reject(-32700, None));
}

#[test]
fn mod_invalid_json_returns_parse_error() {
    assert_eq!(validate("not valid json"), reject(-32700, None));
}

fn check_non_object_returns_invalid_request() {
    assert_eq!(validate("[1, 2, 3]"), reject(-32600, None));
    assert_eq!(validate("\"a string\""), reject(-32600, None));
    assert_eq!(validate("42"), reject(-32600, None));
    assert_eq!(validate("null"), reject(-32600, None));
}

#[test]
fn wire_validator_non_object_returns_invalid_request() {
    check_non_object_returns_invalid_request();
}

#[test]
fn mod_non_object_returns_invalid_request() {
    check_non_object_returns_invalid_request();
}

#[test]
fn wire_validator_missing_jsonrpc_returns_invalid_request() {
    assert_eq!(validate(r#"{"method":"a"}"#), reject(-32600, None));
}

#[test]
fn mod_missing_jsonrpc_returns_invalid_request() {
    assert_eq!(validate(r#"{"method":"a"}"#), reject(-32600, None));
}

#[test]
fn wire_validator_wrong_jsonrpc_value_returns_invalid_request() {
    assert_eq!(
        validate(r#"{"jsonrpc":"1.0","method":"x","id":1}"#),
        reject(-32600, number(1))
    );
}

#[test]
fn mod_wrong_jsonrpc_value_returns_invalid_request() {
    assert_eq!(
        validate(r#"{"jsonrpc":"1.0","method":"x","id":1}"#),
        reject(-32600, number(1))
    );
}

#[test]
fn duplicate_top_level_keys_reject() {
    assert_eq!(
        validate(r#"{"jsonrpc":"2.0","id":99,"res":"2.0","id":99,"result":{"x":1}}"#),
        reject(-32600, None)
    );
}

#[test]
fn duplicate_keys_inside_error_body_reject() {
    assert_eq!(
        validate(r#"{"jsonrpc":"2.0","id":1,"error":{"code":175,"message":75,"message":"x"}}"#),
        reject(-32600, None)
    );
}

#[test]
fn duplicate_keys_inside_params_still_forwards() {
    assert_eq!(
        validate(r#"{"jsonrpc":"2.0","method":"x","id":1,"params":{"k":1,"k":2}}"#),
        ValidationOutcome::Forward
    );
}

#[test]
fn duplicate_keys_inside_error_data_still_forwards() {
    assert_eq!(
        validate(
            r#"{"jsonrpc":"2.0","id":1,"error":{"code":-32000,"message":"x","data":{"k":1,"k":2}}}"#
        ),
        ValidationOutcome::Forward
    );
}

#[test]
fn typoed_jsonrpc_with_fractional_id_does_not_echo_id() {
    assert_eq!(validate(r#"{".sonrpc":"2.0","id":2.5}"#), reject(-32600, None));
}

fn check_valid_request_forwards() {
    assert_eq!(
        validate(r#"{"jsonrpc":"2.0","method":"tools/list","id":1}"#),
        ValidationOutcome::Forward
    );
    assert_eq!(
        validate(r#"{"jsonrpc":"2.0","method":"tools/list","id":"abc"}"#),
        ValidationOutcome::Forward
    );
}

#[test]
fn wire_validator_valid_request_forwards() {
    check_valid_request_forwards();
}

#[test]
fn mod_valid_request_forwards() {
    check_valid_request_forwards();
}

#[test]
fn wire_validator_valid_notification_forwards() {
    assert_eq!(
        validate(r#"{"jsonrpc":"2.0","method":"notifications/cancelled"}"#),
        ValidationOutcome::Forward
    );
}

#[test]
fn mod_valid_notification_forwards() {
    assert_eq!(
        validate(r#"{"jsonrpc":"2.0","method":"notifications/cancelled"}"#),
        ValidationOutcome::Forward
    );
}

#[test]
fn wire_validator_null_id_returns_invalid_request() {
    assert_eq!(
        validate(r#"{"jsonrpc":"2.0","method":"x","id":null}"#),
        reject(-32600, None)
    );
}

#[test]
fn mod_null_id_returns_invalid_request() {
    assert_eq!(
        validate(r#"{"jsonrpc":"2.0","method":"x","id":null}"#),
        reject(-32600, None)
    );
}

fn check_array_or_object_id_returns_invalid_request() {
    assert_eq!(
        validate(r#"{"jsonrpc":"2.0","method":"x","id":[1,2]}"#),
        reject(-32600, None)
    );
    assert_eq!(
        validate(r#"{"jsonrpc":"2.0","method":"x","id":{"k":"v"}}"#),
        reject(-32600, None)
    );
    assert_eq!(
        validate(r#"{"jsonrpc":"2.0","method":"x","id":true}"#),
        reject(-32600, None)
    );
}

#[test]
fn wire_validator_array_or_object_id_returns_invalid_request() {
    check_array_or_object_id_returns_invalid_request();
}

#[test]
fn mod_array_or_object_id_returns_invalid_request() {
    check_array_or_object_id_returns_invalid_request();
}

#[test]
fn wire_validator_non_string_method_returns_invalid_request() {
    assert_eq!(
        validate(r#"{"jsonrpc":"2.0","method":42,"id":1}"#),
        reject(-32600, number(1))
    );
}

#[test]
fn mod_non_string_method_returns_invalid_request() {
    assert_eq!(
        validate(r#"{"jsonrpc":"2.0","method":42,"id":1}"#),
        reject(-32600, number(1))
    );
}

#[test]
fn fractional_id_rejects() {
    assert_eq!(
        validate(r#"{"jsonrpc":"2.0","method":"x","id":1.5}"#),
        reject(-32600, None)
    );
}

#[test]
fn out_of_i64_range_id_rejects() {
    assert_eq!(
        validate(r#"{"jsonrpc":"2.0","method":"x","id":9223372036854775808}"#),
        reject(-32600, None)
    );
}

#[test]
fn wire_validator_valid_response_forwards() {
    assert_eq!(
        validate(r#"{"jsonrpc":"2.0","id":99,"result":{"x":1}}"#),
        ValidationOutcome::Forward
    );
}

#[test]
fn mod_valid_response_forwards() {
    assert_eq!(
        validate(r#"{"jsonrpc":"2.0","result":{},"id":1}"#),
        ValidationOutcome::Forward
    );
}

#[test]
fn valid_error_response_forwards() {
    assert_eq!(
        validate(r#"{"jsonrpc":"2.0","id":99,"error":{"code":-32601,"message":"not found"}}"#),
        ValidationOutcome::Forward
    );
}

#[test]
fn valid_error_forwards() {
    assert_eq!(
        validate(r#"{"jsonrpc":"2.0","error":{"code":-32000,"message":"x"},"id":1}"#),
        ValidationOutcome::Forward
    );
}

#[test]
fn params_without_id_forwards() {
    assert_eq!(
        validate(r#"{"jsonrpc":"2.0","method":"initialize","params":{}}"#),
        ValidationOutcome::Forward
    );
}

#[test]
fn response_without_id_returns_invalid_request() {
    assert_eq!(validate(r#"{"jsonrpc":"2.0","result":{}}"#), reject(-32600, None));
    assert_eq!(
        validate(r#"{"jsonrpc":"2.0","error":{"code":1,"message":"x"}}"#),
        reject(-32600, None)
    );
}

#[test]
fn result_without_id_rejects() {
    assert_eq!(validate(r#"{"jsonrpc":"2.0","result":{}}"#), reject(-32600, None));
}

#[test]
fn error_without_id_rejects() {
    assert_eq!(
        validate(r#"{"jsonrpc":"2.0","error":{"code":-32000,"message":"x"}}"#),
        reject(-32600, None)
    );
}

#[test]
fn both_result_and_error_returns_invalid_request() {
    assert_eq!(
        validate(r#"{"jsonrpc":"2.0","id":1,"result":{},"error":{"code":1,"message":"x"}}"#),
        reject(-32600, number(1))
    );
}

#[test]
fn malformed_error_body_returns_invalid_request() {
    assert_eq!(
        validate(r#"{"jsonrpc":"2.0","id":1,"error":{"code":"x","message":"y"}}"#),
        reject(-32600, number(1))
    );
    assert_eq!(
        validate(r#"{"jsonrpc":"2.0","id":1,"error":{"message":"only message"}}"#),
        reject(-32600, number(1))
    );
    assert_eq!(
        validate(r#"{"jsonrpc":"2.0","id":1,"error":"not even an object"}"#),
        reject(-32600, number(1))
    );
}

#[test]
fn empty_object_returns_invalid_request() {
    assert_eq!(validate(r"{}"), reject(-32600, None));
}

#[test]
fn mixed_method_and_result_returns_invalid_request() {
    assert_eq!(
        validate(r#"{"jsonrpc":"2.0","method":"x","id":1,"result":{}}"#),
        reject(-32600, number(1))
    );
}

#[test]
fn synthesize_invalid_request_with_null_id_omits_id_field() {
    let env = ErrorEnvelope {
        code: -32600,
        message: "Invalid Request".to_string(),
        id: None,
    };
    let line = synthesize_error_line(&env);
    assert!(line.ends_with('\n'));
    let parsed = read(&line);
    assert_eq!(parsed["jsonrpc"], "2.0");
    let obj = parsed.as_object().unwrap();
    assert!(!obj.contains_key("id"), "id must be omitted: {parsed}");
    assert_eq!(parsed["error"]["code"], -32600);
    assert_eq!(parsed["error"]["message"], "Invalid Request");
    assert!(parsed["error"].get("data").is_none());
}

#[test]
fn synthesize_parse_error_has_correct_code() {
    let parsed = read(&synthesize_error_line(&parse_error()));
    assert_eq!(parsed["error"]["code"], -32700);
    assert_eq!(parsed["error"]["message"], "Parse error");
}

#[test]
fn synthesize_echoes_numeric_id() {
    let env = invalid_request(number(42));
    assert_eq!(read(&synthesize_error_line(&env))["id"], 42);
}

#[test]
fn synthesize_echoes_string_id() {
    let env = invalid_request(Some(RequestId::Text("abc".to_string())));
    assert_eq!(read(&synthesize_error_line(&env))["id"], "abc");
}

#[test]
fn parse_error_returns_valid_envelope() {
    let parsed = read(&synthesize_error_line(&parse_error()));
    assert_eq!(parsed["jsonrpc"], "2.0");
    assert_eq!(parsed["error"]["code"], -32700);
    assert_eq!(parsed["error"]["message"], "Parse error");
    assert_eq!(parsed["id"], Value::Null);
}

#[test]
fn invalid_request_returns_valid_envelope() {
    let parsed = read(&synthesize_error_line(&invalid_request(number(42))));
    assert_eq!(parsed["jsonrpc"], "2.0");
    assert_eq!(parsed["error"]["code"], -32600);
    assert_eq!(parsed["error"]["message"], "Invalid Request");
    assert_eq!(parsed["id"], 42);
}

#[test]
fn envelope_lines_are_newline_terminated() {
    let line = synthesize_error_line(&invalid_request(number(1)));
    assert!(line.ends_with('\n'));
}

#[test]
fn envelope_lines_contain_exactly_one_newline() {
    let line = synthesize_error_line(&invalid_request(number(1)));
    assert_eq!(line.matches('\n').count(), 1);
}

#[test]
fn validate_integration_rejects_malformed_envelope() {
    let malformed = r#"{"jsonrpc":"2.0","id":1,"result":{"x":1},"result":{"y":2}}"#;
    assert!(matches!(validate(malformed), ValidationOutcome::Reject(_)));
}

#[test]
fn validate_integration_forwards_valid_envelope() {
    let valid = r#"{"jsonrpc":"2.0","method":"tools/list","id":1}"#;
    assert_eq!(validate(valid), ValidationOutcome::Forward);
}

#[test]
fn validate_integration_skips_empty_lines() {
    assert_eq!(validate(""), ValidationOutcome::Skip);
    assert_eq!(validate("\n"), ValidationOutcome::Skip);
    assert_eq!(validate("  \t  \r\n"), ValidationOutcome::Skip);
}

#[test]
fn error_line_is_exact() {
    let env = invalid_request(Some(RequestId::Text("a\nb".to_string())));
    assert_eq!(
        synthesize_error_line(&env),
        "{\"error\":{\"code\":-32600,\"message\":\"Invalid Request\"},\"id\":\"a\\nb\",\"jsonrpc\":\"2.0\"}\n"
    );
    assert_eq!(
        synthesize_error_line(&parse_error()),
        "{\"error\":{\"code\":-32700,\"message\":\"Parse error\"},\"jsonrpc\":\"2.0\"}\n"
    );
}

#[test]
fn repeated_fields_are_found_where_they_count() {
    for line in [
        r#"{"id":1,"id":2}"#,
        r#" { "jsonrpc" : "2.0" , "jsonrpc" : "2.0" } "#,
        r#"{"error":{"code":1,"code":2}}"#,
        r#"{"a":[1,{"b":2}],"c":"}","a":3}"#,
    ] {
        assert!(has_duplicate_keys_in_rmcp_strict_positions(line), "{line}");
    }
    for line in [
        "",
        "[]",
        "42",
        r#"{}"#,
        r#"{"id":1,"method":"x","params":{"id":1,"id":2}}"#,
        r#"{"result":{"k":1,"k":2}}"#,
        r#"{"error":{"data":{"k":1,"k":2}}}"#,
        r#"{"a":1,"a":2} x"#,
        r#"{"a":1,"a":2"#,
    ] {
        assert!(!has_duplicate_keys_in_rmcp_strict_positions(line), "{line}");
    }
}

fn forwarded(action: &InboundAction) -> bool {
    matches!(action, InboundAction::Forward)
}

#[test]
fn validate_inbound_forwards_valid_envelope() {
    let line = b"{\"jsonrpc\":\"2.0\",\"method\":\"tools/list\",\"id\":1}\n";
    let (action, open) = inbound_step(true, line);
    assert!(forwarded(&action));
    assert!(open);
}

#[test]
fn inbound_intercepts_a_request_before_the_session_is_open() {
    let line = b"{\"jsonrpc\":\"2.0\",\"method\":\"tools/list\",\"id\":7}\r\n";
    let (action, open) = inbound_step(false, line);
    assert!(matches!(action, InboundAction::Intercept(RequestId::Number(7))));
    assert!(!open);
}

#[test]
fn inbound_opens_the_session_on_initialize() {
    let line = b"{\"jsonrpc\":\"2.0\",\"id\":1,\"method\":\"initialize\",\"params\":{\"protocolVersion\":\"2025-11-25\",\"capabilities\":{},\"clientInfo\":{\"name\":\"c\",\"version\":\"1\"}}}\n";
    let (action, open) = inbound_step(false, line);
    assert!(forwarded(&action));
    assert!(open);
}

#[test]
fn inbound_drops_blank_lines() {
    let (action, open) = inbound_step(false, b"  \r\n");
    assert!(matches!(action, InboundAction::Drop));
    assert!(!open);
}

#[test]
fn validate_inbound_non_utf8_returns_parse_error() {
    let (action, _) = inbound_step(true, b"\xff\xfe\n");
    match action {
        InboundAction::Answer(line) => assert_eq!(read(&line)["error"]["code"], -32700),
        _ => panic!("expected an answer"),
    }
}

#[test]
fn inbound_answers_what_is_no_message() {
    let (action, _) = inbound_step(true, b"{\"jsonrpc\":\"2.0\",\"id\":3}\n");
    match action {
        InboundAction::Answer(line) => {
            let parsed = read(&line);
            assert_eq!(parsed["error"]["code"], -32600);
            assert_eq!(parsed["id"], 3);
        }
        _ => panic!("expected an answer"),
    }
}

#[test]
fn an_aborted_bridge_is_no_fault_and_a_panicked_one_is() {
    assert_eq!(flatten(BridgeExit::Finished(Ok(()))), Ok(()));
    assert_eq!(flatten(BridgeExit::Aborted), Ok(()));
    assert_eq!(
        flatten(BridgeExit::Panicked("boom".to_string())),
        Err("bridge task panic: boom".to_string())
    );
    assert_eq!(
        flatten(BridgeExit::Finished(Err("pipe".to_string()))),
        Err("pipe".to_string())
    );
}

#[test]
fn watch_for_error_returns_on_first_error() {
    let mut sup = ValidatorSupervisor::new();
    let exit = BridgeExit::Finished(Err("inbound failed".to_string()));
    let watch = sup.watch_for_error(Side::Inbound, exit);
    assert!(matches!(watch, Watch::Over(Err(e)) if e == "inbound failed"));
    assert!(!sup.may_await(Side::Inbound));
    assert!(sup.may_await(Side::Outbound));
}

#[test]
fn watch_for_error_returns_ok_when_both_bridges_finish() {
    let mut sup = ValidatorSupervisor::new();
    let first = sup.watch_for_error(Side::Inbound, BridgeExit::Finished(Ok(())));
    assert!(!matches!(first, Watch::Over(_)));
    let second = sup.watch_for_error(Side::Outbound, BridgeExit::Finished(Ok(())));
    assert!(matches!(second, Watch::Over(Ok(()))));
    assert!(sup.nothing_to_watch());
}

#[test]
fn drain_returns_ok_when_both_bridges_exit_ok() {
    let sup = ValidatorSupervisor::new();
    let clean = || Some(BridgeExit::Finished(Ok(())));
    assert_eq!(sup.drain(clean(), clean()), Ok(()));
}

#[test]
fn drain_surfaces_first_error() {
    let sup = ValidatorSupervisor::new();
    let r = sup.drain(
        Some(BridgeExit::Finished(Err("inbound boom".to_string()))),
        Some(BridgeExit::Finished(Ok(()))),
    );
    assert_eq!(r, Err("inbound boom".to_string()));
    let sup = ValidatorSupervisor::new();
    let r = sup.drain(
        Some(BridgeExit::Finished(Err("in".to_string()))),
        Some(BridgeExit::Finished(Err("out".to_string()))),
    );
    assert_eq!(r, Err("in".to_string()));
}

#[test]
fn shutdown_after_failure_aborts_inbound() {
    let sup = ValidatorSupervisor::new();
    let r = sup.shutdown_after_failure(
        Some(BridgeExit::Aborted),
        Some(BridgeExit::Finished(Ok(()))),
    );
    assert_eq!(r, Ok(()));
}

#[test]
fn validate_inbound_skips_empty_lines() {
    let lines: [&[u8]; 3] =
        [b"\n", b"\n", b"{\"jsonrpc\":\"2.0\",\"method\":\"x\",\"id\":1}\n"];
    let passed = lines.iter().filter(|line| forwarded(&inbound_step(true, line).0)).count();
    assert_eq!(passed, 1);
}

#[test]
fn a_stopped_bridge_does_not_hide_the_other() {
    let sup = ValidatorSupervisor::new();
    let r = sup.shutdown_after_failure(
        Some(BridgeExit::Aborted),
        Some(BridgeExit::Finished(Err("out".to_string()))),
    );
    assert_eq!(r, Err("out".to_string()));
}

#[test]
fn a_session_forwards_calls_only_after_initialize() {
    let lines: [&[u8]; 5] = [
        b"{\"jsonrpc\":\"2.0\",\"id\":0,\"method\":\"ping\"}\n",
        b"{\"jsonrpc\":\"2.0\",\"id\":1,\"method\":\"initialize\",\"params\":{\"protocolVersion\":\"2025-11-25\",\"capabilities\":{},\"clientInfo\":{\"name\":\"c\",\"version\":\"1\"}}}\n",
        b"not a message\n",
        b"\n",
        b"{\"jsonrpc\":\"2.0\",\"id\":2,\"method\":\"tools/list\"}\r\n",
    ];
    let mut open = false;
    let mut forwarded: Vec<usize> = Vec::new();
    for (i, line) in lines.iter().enumerate() {
        let (action, now_open) = inbound_step(open, line);
        if action == InboundAction::Forward {
            forwarded.push(i);
        }
        open = now_open;
    }
    assert!(open);
    assert_eq!(forwarded, [0, 1, 4]);
}

#[test]
fn a_repeated_key_in_what_is_no_json_is_a_parse_error() {
    assert_eq!(validate(r#"{"a":1,"a":2} x"#), reject(-32700, None));
    assert_eq!(validate(r#"{"a":1,"a":2}"#), reject(-32600, None));
}

#[test]
fn a_request_that_the_stack_cannot_read_is_intercepted_too() {
    let line = b"{\"jsonrpc\":\"2.0\",\"id\":1,\"method\":\"tools/list\",\"params\":{\"_meta\":1}}\n";
    let (action, open) = inbound_step(false, line);
    assert!(matches!(action, InboundAction::Intercept(RequestId::Number(1))));
    assert!(!open);
    let (action, open) = inbound_step(true, line);
    assert!(forwarded(&action));
    assert!(open);
}

#[test]
fn a_ping_and_a_notification_pass_before_the_session() {
    for line in [
        r#"{"jsonrpc":"2.0","id":1,"method":"ping"}"#,
        r#"{"jsonrpc":"2.0","method":"notifications/initialized"}"#,
    ] {
        let (action, open) = inbound_step(false, line.as_bytes());
        assert!(forwarded(&action), "{line}");
        assert!(!open);
    }
}

#[test]
fn an_intercepted_request_is_answered_once() {
    assert_eq!(
        pre_init_answer(RequestId::Number(7)),
        "{\"error\":{\"code\":-32002,\"message\":\"Server not initialized\"},\"id\":7,\"jsonrpc\":\"2.0\"}\n"
    );
    let written = after_interception(Ok(()));
    assert!(written.raised);
    assert!(written.result.is_ok());
    let broken = after_interception(Err("broken pipe".to_string()));
    assert!(!broken.raised);
    assert_eq!(
        broken.result.unwrap_err(),
        "writing pre-init error envelope to stdout: broken pipe"
    );
}

#[test]
fn the_reading_of_a_line_decides_what_is_done() {
    let forward = ValidationOutcome::Forward;
    let request = || Ok(ClientMessage::Request(RequestId::Number(2)));
    let early = Some(RequestId::Number(1));
    let (action, open) = act_on_reading(false, early.clone(), request(), &forward);
    assert_eq!(action, InboundAction::Intercept(RequestId::Number(1)));
    assert!(!open);
    let (action, _) = act_on_reading(false, None, request(), &forward);
    assert_eq!(action, InboundAction::Intercept(RequestId::Number(2)));
    let (action, open) = act_on_reading(false, None, Ok(ClientMessage::Initialize), &forward);
    assert_eq!(action, InboundAction::Forward);
    assert!(open);
    let (action, open) = act_on_reading(false, None, Ok(ClientMessage::Ping), &forward);
    assert_eq!(action, InboundAction::Forward);
    assert!(!open);
    let (action, open) = act_on_reading(true, early, request(), &forward);
    assert_eq!(action, InboundAction::Forward);
    assert!(open);
}

#[test]
fn a_line_of_any_white_space_is_skipped() {
    for code in 0..=0x10_ffff_u32 {
        if let Some(c) = char::from_u32(code) {
            let skipped = validate(&c.to_string()) == ValidationOutcome::Skip;
            assert_eq!(skipped, c.is_whitespace(), "{code:x}");
        }
    }
}
