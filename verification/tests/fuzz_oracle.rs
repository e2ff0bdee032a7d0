use rimap_server::mcp::fuzz_oracle::{
    check_error_envelope_valid, check_line, check_rmcp_accepts, fuzz_validate, FuzzOutcome,
};

#[test]
fn rmcp_accepts_a_well_formed_request() {
    let line = r#"{"jsonrpc":"2.0","method":"tools/list","id":1}"#;
    assert!(check_rmcp_accepts(line).is_ok());
}

#[test]
fn rmcp_rejects_missing_jsonrpc_version() {
    let line = r#"{"method":"tools/list","id":1}"#;
    assert!(check_rmcp_accepts(line).is_err());
}

#[test]
fn rmcp_rejects_envelope_with_no_method_result_or_error() {
    let line = r#"{"jsonrpc":"2.0","id":1}"#;
    assert!(check_rmcp_accepts(line).is_err());
}

#[test]
fn error_envelope_schema_accepts_canonical_minus_32600() {
    let line = r#"{"jsonrpc":"2.0","id":1,"error":{"code":-32600,"message":"Invalid Request"}}"#;
    assert_eq!(check_error_envelope_valid(line), Ok(()));
}

#[test]
fn error_envelope_schema_rejects_missing_error_field() {
    let line = r#"{"jsonrpc":"2.0","id":1}"#;
    assert!(check_error_envelope_valid(line).is_err());
}

#[test]
fn error_envelope_schema_rejects_array_id() {
    let line = r#"{"jsonrpc":"2.0","id":[1,2],"error":{"code":-32600,"message":"x"}}"#;
    assert!(check_error_envelope_valid(line).is_err());
}

#[test]
fn what_is_no_json_is_no_error_response() {
    assert!(check_error_envelope_valid("{").is_err());
}

#[test]
fn every_rejection_is_a_valid_error_response() {
    for line in [
        "not json",
        "[]",
        r#"{"id":"aA"}"#,
        r#"{"jsonrpc":"2.0","id":-3,"method":1}"#,
        r#"{"jsonrpc":"2.0","id":1,"id":1}"#,
    ] {
        match fuzz_validate(line) {
            FuzzOutcome::Reject(answer) => {
                assert_eq!(check_error_envelope_valid(&answer), Ok(()), "{line}");
            }
            _ => panic!("{line} must be rejected"),
        }
    }
}

#[test]
fn every_forwarded_line_is_one_that_rmcp_accepts() {
    for line in [
        r#"{"jsonrpc":"2.0","method":"tools/list","id":1}"#,
        r#"{"jsonrpc":"2.0","method":"notifications/cancelled"}"#,
        r#"{"jsonrpc":"2.0","id":"x","result":{}}"#,
        r#"{"jsonrpc":"2.0","id":9,"error":{"code":-1,"message":"m"}}"#,
    ] {
        assert!(matches!(fuzz_validate(line), FuzzOutcome::Forward), "{line}");
        assert!(check_rmcp_accepts(line).is_ok(), "{line}");
    }
    assert!(matches!(fuzz_validate(" \t"), FuzzOutcome::Skip));
}

#[test]
fn the_oracles_hold_of_lines_with_readable_metadata() {
    let deep = format!(
        r#"{{"jsonrpc":"2.0","id":1,"method":"x","params":{{"a":{}1{}}}}}"#,
        "[".repeat(120),
        "]".repeat(120)
    );
    for line in [
        "",
        "  ",
        "{",
        "null",
        r#"{"jsonrpc":"2.0"}"#,
        r#"{"jsonrpc":"2.0","method":"","id":-9223372036854775808}"#,
        r#"{"jsonrpc":"2.0","method":"no/such","id":"","extra":[1,2]}"#,
        r#"{"jsonrpc":"2.0","method":"tools/call","id":1,"params":{}}"#,
        r#"{"jsonrpc":"2.0","method":"tools/call","id":1,"params":{"name":7}}"#,
        r#"{"jsonrpc":"2.0","method":"tools/call","id":1,"params":null}"#,
        r#"{"jsonrpc":"2.0","method":"ping","id":1,"params":{"_meta":{"progressToken":1}}}"#,
        r#"{"jsonrpc":"2.0","method":"x","id":1,"params":{"_meta":null,"k":1,"k":2}}"#,
        r#"{"jsonrpc":"2.0","method":"initialize","params":{"protocolVersion":1.5e3}}"#,
        r#"{"jsonrpc":"2.0","method":"notifications/progress","params":{}}"#,
        r#"{"jsonrpc":"2.0","id":1,"result":null}"#,
        r#"{"jsonrpc":"2.0","id":1,"result":[],"params":{"_meta":5}}"#,
        r#"{"jsonrpc":"2.0","id":1,"error":{"code":2147483647,"message":"","data":{"k":1,"k":2}}}"#,
        r#"{"jsonrpc":"2.0","id":1,"error":{"code":2147483648,"message":""}}"#,
        deep.as_str(),
    ] {
        assert_eq!(check_line(line), Ok(()), "{line}");
    }
}

#[test]
fn metadata_that_rmcp_cannot_read_is_forwarded_and_refused() {
    for line in [
        r#"{"jsonrpc":"2.0","method":"x","id":1,"params":{"_meta":5}}"#,
        r#"{"jsonrpc":"2.0","method":"x","params":{"_meta":[]}}"#,
        r#"{"jsonrpc":"2.0","method":"x","id":1,"params":{"_meta":{},"_meta":{}}}"#,
    ] {
        assert!(matches!(fuzz_validate(line), FuzzOutcome::Forward), "{line}");
        assert!(check_line(line).is_err(), "{line}");
    }
}

#[test]
fn an_error_response_takes_no_id_of_another_kind() {
    for (line, valid) in [
        (r#"{"jsonrpc":"2.0","error":{"code":1,"message":"m"}}"#, true),
        (r#"{"jsonrpc":"2.0","id":"a","error":{"code":1,"message":"m","data":[]}}"#, true),
        (r#"{"jsonrpc":"2.0","id":null,"error":{"code":1,"message":"m"}}"#, false),
        (r#"{"jsonrpc":"2.1","id":1,"error":{"code":1,"message":"m"}}"#, false),
        (r#"{"jsonrpc":"2.0","id":1,"error":{"code":"1","message":"m"}}"#, false),
        (r#"{"jsonrpc":"2.0","id":1,"error":{"code":1}}"#, false),
        (r#"{"jsonrpc":"2.0","id":1,"error":7}"#, false),
        ("7", false),
    ] {
        assert_eq!(check_error_envelope_valid(line).is_ok(), valid, "{line}");
    }
}
