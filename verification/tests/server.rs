use rimap_server::account::{AccountId, DEFAULT_ACCOUNT_NAME};
use rimap_server::boot::registry::{AccountRegistry, AccountState};
use rimap_server::error::{ErrorCode, RimapError};
use rimap_server::json::{parse_json, render_json, Json};
use rimap_server::mcp::error::{
    to_error_call_result, CallToolResult, Content, ErrorData, INVALID_PARAMS,
};
use rimap_server::mcp::server::{
    active_selection_changes_advertisement, announces_list_change, build_advertised_tool,
    call_tool_result_to_rimap_error, check_protocol_version, error_data_to_rimap_error,
    extract_json_from_call_tool_result, instructions, list_tools, namespaced_title, plan_call,
    refusal_error, unsupported_protocol_version_error, CallPlan, CallRefusal,
    SERVER_INSTRUCTIONS_MULTI_ACCOUNT, SERVER_INSTRUCTIONS_SINGLE_ACCOUNT,
};
use rimap_server::mcp::tool_catalog::{build_tool_def, Tool, ToolAnnotationHints, ToolSource};
use rimap_server::tool::{Posture, ToolName};
use rmcp::model::{ErrorCode as McpCode, ProtocolVersion};
use serde_json::Value;

fn value(data: &Option<Json>) -> Value {
    let data = data.as_ref().expect("details are there");
    serde_json::from_str(&render_json(data)).expect("details are JSON")
}

fn list(items: &[&str]) -> Value {
    Value::Array(items.iter().map(|s| Value::from(*s)).collect())
}

fn hints() -> ToolAnnotationHints {
    ToolAnnotationHints {
        read_only: true,
        destructive: false,
        idempotent: true,
        open_world: false,
    }
}

fn source(tool: ToolName) -> ToolSource {
    let schema = |part: &str| {
        parse_json(&format!("{{\"title\":\"T\",\"$id\":\"{}.{part}\"}}", tool.as_str())).unwrap()
    };
    ToolSource {
        hints: hints(),
        input_schema: schema("in"),
        output_schema: schema("out"),
    }
}

fn all_sources() -> Vec<ToolSource> {
    ToolName::all().into_iter().map(source).collect()
}

fn account(name: &str) -> AccountState {
    AccountState {
        id: AccountId::new(name).unwrap(),
        posture: Posture::DraftSafe,
        advertised: vec![ToolName::Search, ToolName::SearchAdvanced, ToolName::FetchMessage],
        imap_username: format!("{name}@test.invalid"),
        imap_host: "127.0.0.1".to_string(),
        smtp_configured: false,
        tool_call_timeout_secs: 300,
    }
}

#[test]
fn shape_matches_spec() {
    let err = unsupported_protocol_version_error("1999-01-01");
    assert_eq!(McpCode(err.code), McpCode::INVALID_PARAMS);
    assert!(err.message.contains("1999-01-01"));
    assert!(err.message.contains("2025-11-25"));
    assert_eq!(value(&err.data)["supported_versions"], list(&["2025-11-25"]));
}

#[test]
fn uses_runtime_latest() {
    let err = unsupported_protocol_version_error("anything-goes");
    let data = value(&err.data);
    let arr = data["supported_versions"].as_array().expect("an array");
    assert_eq!(arr.len(), 1);
    assert_eq!(arr[0].as_str().expect("string"), ProtocolVersion::LATEST.as_str());
}

#[test]
fn empty_peer_version_still_produces_envelope() {
    let err = unsupported_protocol_version_error("");
    assert_eq!(McpCode(err.code), McpCode::INVALID_PARAMS);
    assert!(err.message.contains("''"));
}

#[test]
fn data_field_is_present() {
    assert!(unsupported_protocol_version_error("1999-01-01").data.is_some());
}

#[test]
fn only_the_latest_version_is_served() {
    assert!(check_protocol_version("2025-11-25").is_ok());
    match check_protocol_version("2024-11-05") {
        Err(e) => assert_eq!(
            e.message,
            "Unsupported protocol version: '2024-11-05'. Server supports: 2025-11-25."
        ),
        Ok(()) => panic!("an older version must be refused"),
    }
}

#[test]
fn get_info_emits_single_account_instructions_for_single_default_account() {
    let accounts = vec![account(DEFAULT_ACCOUNT_NAME)];
    assert_eq!(instructions(&accounts), SERVER_INSTRUCTIONS_SINGLE_ACCOUNT);
    assert_ne!(instructions(&accounts), SERVER_INSTRUCTIONS_MULTI_ACCOUNT);
    assert_eq!(
        instructions(&vec![account("work")]),
        SERVER_INSTRUCTIONS_MULTI_ACCOUNT
    );
}

#[test]
fn server_instructions_constants_exist_and_differ() {
    assert!(!SERVER_INSTRUCTIONS_SINGLE_ACCOUNT.is_empty());
    assert!(!SERVER_INSTRUCTIONS_MULTI_ACCOUNT.is_empty());
    assert_ne!(SERVER_INSTRUCTIONS_SINGLE_ACCOUNT, SERVER_INSTRUCTIONS_MULTI_ACCOUNT);
    assert!(!SERVER_INSTRUCTIONS_SINGLE_ACCOUNT.contains("use_account"));
    assert!(SERVER_INSTRUCTIONS_MULTI_ACCOUNT.contains("use_account"));
}

#[test]
fn multi_account_text_acknowledges_single_account_auto_resolve() {
    assert!(!SERVER_INSTRUCTIONS_MULTI_ACCOUNT.contains("With more than one account configured"));
    assert!(SERVER_INSTRUCTIONS_MULTI_ACCOUNT.contains("auto-selects"));
}

#[test]
fn no_change_when_reselecting_same_account() {
    assert!(!active_selection_changes_advertisement(Some("work"), Some("work"), 3));
}

#[test]
fn change_when_switching_accounts() {
    assert!(active_selection_changes_advertisement(Some("work"), Some("personal"), 3));
}

#[test]
fn first_selection_changes_only_with_multiple_accounts() {
    assert!(active_selection_changes_advertisement(None, Some("work"), 2));
    assert!(!active_selection_changes_advertisement(None, Some("solo"), 1));
}

#[test]
fn clearing_selection_mirrors_first_selection() {
    assert!(active_selection_changes_advertisement(Some("work"), None, 2));
    assert!(!active_selection_changes_advertisement(Some("solo"), None, 1));
}

#[test]
fn no_selection_either_side_is_no_change() {
    assert!(!active_selection_changes_advertisement(None, None, 5));
}

#[test]
fn namespaced_title_prefixes_account_id() {
    assert_eq!(namespaced_title("work", "Search Messages"), "[work] Search Messages");
    assert_eq!(namespaced_title("a-b_c", "Fetch Message"), "[a-b_c] Fetch Message");
}

fn annotation_title(tool: &Tool) -> Option<&str> {
    tool.annotations.as_ref().and_then(|a| a.title.as_deref())
}

#[test]
fn build_advertised_tool_mirrors_title_into_annotations_when_namespaced() {
    let base = build_tool_def(ToolName::Search, &source(ToolName::Search)).expect("search is defined");
    let clone = build_advertised_tool(&base, "work", Posture::DraftSafe, true);
    assert_eq!(clone.title.as_deref(), Some("[work] Search Messages"));
    assert!(clone.annotations.is_some());
    assert_eq!(annotation_title(&clone), clone.title.as_deref());
}

#[test]
fn build_advertised_tool_bare_branch_preserves_base_fields() {
    let base = build_tool_def(ToolName::Search, &source(ToolName::Search)).expect("search is defined");
    let clone = build_advertised_tool(&base, "default", Posture::DraftSafe, false);
    assert_eq!(clone.name, base.name);
    assert_eq!(clone.title, base.title);
    assert_eq!(clone.description, base.description);
    assert_eq!(annotation_title(&clone), annotation_title(&base));
}

fn names(tools: &[Tool]) -> Vec<&str> {
    tools.iter().map(|t| t.name.as_str()).collect()
}

#[test]
fn a_single_default_account_lists_bare_names() {
    let tools = list_tools(&vec![account("default")], None, &all_sources());
    assert_eq!(
        names(&tools),
        ["use_account", "list_accounts", "search", "fetch_message"]
    );
}

#[test]
fn named_accounts_list_namespaced_names() {
    let accounts = vec![account("home"), account("work")];
    let tools = list_tools(&accounts, None, &all_sources());
    assert_eq!(
        names(&tools),
        [
            "use_account",
            "list_accounts",
            "home.search",
            "home.fetch_message",
            "work.search",
            "work.fetch_message"
        ]
    );
    let tools = list_tools(&accounts, Some("work"), &all_sources());
    assert_eq!(
        names(&tools),
        ["use_account", "list_accounts", "work.search", "work.fetch_message"]
    );
}

#[test]
fn every_listed_tool_can_be_called() {
    let registry = AccountRegistry::new(vec![account("home"), account("work")]);
    for tool in list_tools(registry.accounts(), None, &all_sources()) {
        assert!(plan_call(&registry, &tool.name, None).is_ok(), "{}", tool.name);
    }
}

#[test]
fn a_namespaced_call_reaches_its_account() {
    let registry = AccountRegistry::new(vec![account("home"), account("work")]);
    match plan_call(&registry, "work.search", None) {
        Ok(CallPlan::Account { account, tool }) => {
            assert_eq!(account, "work");
            assert_eq!(tool, ToolName::Search);
        }
        _ => panic!("the call must reach the account"),
    }
    match plan_call(&registry, "use_account", None) {
        Ok(CallPlan::Infrastructure(tool)) => assert_eq!(tool, ToolName::UseAccount),
        _ => panic!("the call must reach the account tools"),
    }
}

#[test]
fn refused_calls_say_why() {
    let registry = AccountRegistry::new(vec![account("home"), account("work")]);
    assert!(matches!(
        plan_call(&registry, "no_such_tool", None),
        Err(CallRefusal::UnknownTool(name)) if name == "no_such_tool"
    ));
    assert!(matches!(
        plan_call(&registry, "search", None),
        Err(CallRefusal::Protocol(_))
    ));
    assert!(matches!(
        plan_call(&registry, "absent.search", None),
        Err(CallRefusal::Account(RimapError::UnknownAccount { name, .. })) if name == "absent"
    ));
    match plan_call(&registry, "no_such_tool", None) {
        Err(refusal) => {
            let e = refusal_error(refusal, "unknown tool");
            assert_eq!(e.code, INVALID_PARAMS);
            assert_eq!(e.message, "unknown tool");
        }
        Ok(_) => panic!("no tool has the name"),
    }
}

#[test]
fn a_change_is_announced_only_after_a_successful_selection() {
    assert!(announces_list_change(ToolName::UseAccount, true, None, Some("work"), 2));
    assert!(!announces_list_change(ToolName::UseAccount, false, None, Some("work"), 2));
    assert!(!announces_list_change(ToolName::Search, true, None, Some("work"), 2));
    assert!(!announces_list_change(ToolName::UseAccount, true, Some("a"), Some("a"), 2));
}

#[test]
fn a_result_is_read_from_its_structure_or_its_text() {
    let structured = CallToolResult {
        content: vec![Content::Text("{}".to_string())],
        structured_content: parse_json(r#"{"a":1}"#),
        is_error: None,
    };
    assert_eq!(
        render_json(&extract_json_from_call_tool_result(structured)),
        r#"{"a":1}"#
    );
    let text = CallToolResult {
        content: vec![Content::Text(r#"{"b":2}"#.to_string())],
        structured_content: None,
        is_error: None,
    };
    assert_eq!(render_json(&extract_json_from_call_tool_result(text)), r#"{"b":2}"#);
    for content in [vec![], vec![Content::Other], vec![Content::Text("no json".to_string())]] {
        let nothing = CallToolResult {
            content,
            structured_content: None,
            is_error: None,
        };
        assert!(matches!(extract_json_from_call_tool_result(nothing), Json::Null));
    }
}

#[test]
fn a_failure_keeps_its_code_in_the_log() {
    let err = RimapError::Imap {
        code: ErrorCode::NotFound,
        message: "gone".to_string(),
    };
    let result = to_error_call_result(&err, "gone");
    match call_tool_result_to_rimap_error(&result) {
        RimapError::Imap { code, message } => {
            assert_eq!(code, ErrorCode::NotFound);
            assert_eq!(message, "gone");
        }
        _ => panic!("expected the code of the failure"),
    }
    let protocol = ErrorData {
        code: -32603,
        message: "bug".to_string(),
        data: None,
    };
    assert!(matches!(
        error_data_to_rimap_error(&protocol),
        RimapError::Internal(m) if m == "mcp error -32603: bug"
    ));
}

#[test]
fn every_entry_carries_the_schemas_of_its_tool() {
    let accounts = vec![account("home"), account("work")];
    for tool in list_tools(&accounts, None, &all_sources()) {
        let name = tool.tool.as_str();
        let input = if tool.tool == ToolName::ListFolders || tool.tool == ToolName::ListAccounts {
            r#"{"properties":{},"type":"object"}"#.to_string()
        } else {
            format!("{{\"$id\":\"{name}.in\"}}")
        };
        assert_eq!(render_json(&tool.input_schema), input);
        assert_eq!(render_json(&tool.output_schema), format!("{{\"$id\":\"{name}.out\"}}"));
    }
}
