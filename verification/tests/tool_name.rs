use rimap_server::account::{AccountId, DEFAULT_ACCOUNT_NAME};
use rimap_server::boot::registry::AccountState;
use rimap_server::json::{parse_json, Json};
use rimap_server::mcp::error::INVALID_PARAMS;
use rimap_server::mcp::tool_name::{
    is_bare_simple_tool_name, is_legacy_single_account, is_valid_account_prefix, refine_tool_name,
    split_tool_name, validate_bare_tool_namespace,
};
use rimap_server::tool::{Posture, ToolName};

fn args(text: &str) -> Vec<(String, Json)> {
    match parse_json(text) {
        Some(Json::Object(members)) => members,
        _ => panic!("arguments are an object"),
    }
}

fn refined(base: ToolName, text: &str) -> ToolName {
    refine_tool_name(base, Some(&args(text)))
}

fn account(name: &str) -> AccountState {
    AccountState {
        id: AccountId::new(name).unwrap(),
        posture: Posture::DraftSafe,
        advertised: vec![],
        imap_username: format!("{name}@test.invalid"),
        imap_host: "127.0.0.1".to_string(),
        smtp_configured: false,
        tool_call_timeout_secs: 300,
    }
}

#[test]
fn split_tool_name_bare() {
    assert_eq!(split_tool_name("send_email"), (None, "send_email"));
}

#[test]
fn split_tool_name_namespaced() {
    assert_eq!(split_tool_name("work.send_email"), (Some("work"), "send_email"));
}

#[test]
fn split_tool_name_preserves_dotted_sub_capability() {
    assert_eq!(
        split_tool_name("search.advanced_query"),
        (None, "search.advanced_query")
    );
    assert_eq!(
        split_tool_name("fetch_message.include_html"),
        (None, "fetch_message.include_html")
    );
}

#[test]
fn split_tool_name_unknown_returns_bare() {
    assert_eq!(split_tool_name("garbage"), (None, "garbage"));
    assert_eq!(split_tool_name("work.garbage"), (None, "work.garbage"));
}

#[test]
fn split_tool_name_rejects_invalid_prefix() {
    assert_eq!(
        split_tool_name("bad_name.send_email"),
        (None, "bad_name.send_email")
    );
}

#[test]
fn every_namespaced_name_splits_into_its_parts() {
    for tool in ToolName::all() {
        let name = format!("work.{}", tool.as_str());
        assert_eq!(split_tool_name(&name), (Some("work"), tool.as_str()));
    }
}

#[test]
fn refine_tool_name_promotes_sub_capabilities() {
    assert_eq!(
        refined(ToolName::FetchMessage, r#"{"include_html":true}"#),
        ToolName::FetchMessageHtml
    );
    assert_eq!(
        refined(ToolName::Search, r#"{"advanced_query":"FROM x"}"#),
        ToolName::SearchAdvanced
    );
}

#[test]
fn refine_tool_name_promotes_a_draft_with_html() {
    assert_eq!(
        refined(ToolName::CreateDraft, r#"{"body_html":"<p>x</p>"}"#),
        ToolName::CreateDraftHtml
    );
    assert_eq!(
        refined(ToolName::CreateDraft, r#"{"body_html":null}"#),
        ToolName::CreateDraft
    );
}

#[test]
fn is_bare_simple_tool_name_rejects_namespaced() {
    assert!(!is_bare_simple_tool_name("work.send_email"));
    assert!(!is_bare_simple_tool_name("personal.list_folders"));
}

#[test]
fn is_bare_simple_tool_name_rejects_sub_capability_dotted() {
    assert!(!is_bare_simple_tool_name("search.advanced_query"));
    assert!(!is_bare_simple_tool_name("fetch_message.include_html"));
}

#[test]
fn is_bare_simple_tool_name_rejects_infrastructure_tools() {
    assert!(!is_bare_simple_tool_name("use_account"));
    assert!(!is_bare_simple_tool_name("list_accounts"));
}

#[test]
fn is_bare_simple_tool_name_rejects_unknown_names() {
    assert!(!is_bare_simple_tool_name("nuke_inbox"));
}

#[test]
fn is_bare_simple_tool_name_accepts_bare_simple_tool_names() {
    for name in ["send_email", "list_folders", "search", "mark_read"] {
        assert!(is_bare_simple_tool_name(name), "expected bare simple: {name}");
    }
}

#[test]
fn is_legacy_single_account_classifies_each_branch() {
    assert!(!is_legacy_single_account(&vec![]));
    assert!(is_legacy_single_account(&vec![account(DEFAULT_ACCOUNT_NAME)]));
    assert!(!is_legacy_single_account(&vec![account("work")]));
    assert!(!is_legacy_single_account(&vec![
        account(DEFAULT_ACCOUNT_NAME),
        account("personal")
    ]));
}

#[test]
fn validate_bare_tool_namespace_truth_table() {
    assert!(validate_bare_tool_namespace(true, "send_email").is_ok());
    assert!(validate_bare_tool_namespace(true, "work.send_email").is_ok());
    match validate_bare_tool_namespace(false, "send_email") {
        Err(err) => {
            assert_eq!(
                rmcp::model::ErrorCode(err.code),
                rmcp::model::ErrorCode::INVALID_PARAMS
            );
            assert_eq!(err.code, INVALID_PARAMS);
            assert!(err.message.contains("multi-account mode"));
            assert!(err.message.contains("send_email"));
        }
        Ok(()) => panic!("a bare name must be refused"),
    }
    assert!(validate_bare_tool_namespace(false, "work.send_email").is_ok());
    assert!(validate_bare_tool_namespace(false, "use_account").is_ok());
    assert!(validate_bare_tool_namespace(false, "list_accounts").is_ok());
}

#[test]
fn refine_tool_name_is_identity_for_all_other_variants() {
    let args = args(r#"{"include_html":true,"advanced_query":"FROM x"}"#);
    for name in ToolName::all() {
        assert_eq!(refine_tool_name(name, None), name, "{name:?} changed with no args");
        let refined = refine_tool_name(name, Some(&args));
        match name {
            ToolName::FetchMessage => assert_eq!(refined, ToolName::FetchMessageHtml),
            ToolName::Search => assert_eq!(refined, ToolName::SearchAdvanced),
            other => assert_eq!(refined, other, "{other:?} unexpectedly refined"),
        }
    }
}

#[test]
fn refine_tool_name_promotes_search_on_body() {
    assert_eq!(
        refined(ToolName::Search, r#"{"body":"hello"}"#),
        ToolName::SearchAdvanced
    );
}

#[test]
fn refine_tool_name_promotes_search_on_text() {
    assert_eq!(
        refined(ToolName::Search, r#"{"text":"anywhere"}"#),
        ToolName::SearchAdvanced
    );
}

#[test]
fn refine_tool_name_promotes_search_on_bcc() {
    assert_eq!(
        refined(ToolName::Search, r#"{"bcc":"blind@example.com"}"#),
        ToolName::SearchAdvanced
    );
}

#[test]
fn refine_tool_name_promotes_search_on_non_empty_headers() {
    assert_eq!(
        refined(
            ToolName::Search,
            r#"{"headers":[{"name":"List-Id","value":"rust"}]}"#
        ),
        ToolName::SearchAdvanced
    );
}

#[test]
fn refine_tool_name_does_not_promote_on_empty_headers_array() {
    assert_eq!(refined(ToolName::Search, r#"{"headers":[]}"#), ToolName::Search);
}

#[test]
fn refine_tool_name_does_not_promote_on_explicit_null_body() {
    assert_eq!(refined(ToolName::Search, r#"{"body":null}"#), ToolName::Search);
}

#[test]
fn refine_tool_name_does_not_promote_on_envelope_or_flag_fields() {
    for field in ["cc", "larger", "sent_since", "answered"] {
        assert_eq!(
            refined(ToolName::Search, &format!(r#"{{"{field}":"payload"}}"#)),
            ToolName::Search,
            "{field} unexpectedly promoted"
        );
    }
}

#[test]
fn account_prefixes_are_account_names() {
    assert!(is_valid_account_prefix("work-2"));
    assert!(!is_valid_account_prefix("bad_name"));
    assert!(!is_valid_account_prefix(""));
}

#[test]
fn tool_names_read_back() {
    for tool in ToolName::all() {
        assert_eq!(ToolName::parse(tool.as_str()), Some(tool));
    }
    assert_eq!(ToolName::parse("nuke_inbox"), None);
    assert_eq!(ToolName::all().len(), 27);
}
