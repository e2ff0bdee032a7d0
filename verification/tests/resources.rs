use rimap_server::account::AccountId;
use rimap_server::boot::registry::{AccountRegistry, AccountState};
use rimap_server::error::RimapError;
use rimap_server::json::render_json;
use rimap_server::mcp::error::{INVALID_PARAMS, RESOURCE_NOT_FOUND};
use rimap_server::mcp::resources::{
    account_resource_metadata, list_resources, read_resource, static_doc_content, static_doc_resources, ReadRefusal,
    StaticDocs, POSTURES_DOC_URI, WORKFLOWS_DOC_URI,
};
use rimap_server::tool::{Posture, ToolName};
use serde_json::Value;

fn docs() -> StaticDocs {
    StaticDocs {
        postures: "# Postures".to_string(),
        workflows: "# Workflows".to_string(),
    }
}

fn account(name: &str) -> AccountState {
    AccountState {
        id: AccountId::new(name).unwrap(),
        posture: Posture::DraftSafe,
        advertised: vec![ToolName::ListFolders, ToolName::Search, ToolName::SearchAdvanced],
        imap_username: format!("{name}@test.invalid"),
        imap_host: "127.0.0.1".to_string(),
        smtp_configured: false,
        tool_call_timeout_secs: 300,
    }
}

fn check_static_doc_resources() {
    let resources = static_doc_resources();
    assert_eq!(resources.len(), 2);
    for r in &resources {
        assert_eq!(r.mime_type, "text/markdown");
    }
    let uris: Vec<&str> = resources.iter().map(|r| r.uri.as_str()).collect();
    assert!(uris.contains(&POSTURES_DOC_URI));
    assert!(uris.contains(&WORKFLOWS_DOC_URI));
}

#[test]
fn resources_static_doc_resources_advertises_both_uris_as_markdown() {
    check_static_doc_resources();
}

#[test]
fn server_static_doc_resources_advertises_both_uris_as_markdown() {
    check_static_doc_resources();
}

fn check_static_doc_content() {
    let docs = docs();
    assert_eq!(static_doc_content(&docs, POSTURES_DOC_URI), Some("# Postures"));
    assert_eq!(static_doc_content(&docs, WORKFLOWS_DOC_URI), Some("# Workflows"));
    assert_eq!(static_doc_content(&docs, "rimap://accounts/default"), None);
    assert_eq!(static_doc_content(&docs, "rimap://docs/nonexistent"), None);
}

#[test]
fn resources_static_doc_content_resolves_known_uris_and_rejects_unknown() {
    check_static_doc_content();
}

#[test]
fn server_static_doc_content_resolves_known_uris_and_rejects_unknown() {
    check_static_doc_content();
}

#[test]
fn resource_payload_reports_posture() {
    let json = account_resource_metadata("work", &account("work"));
    let payload: Value = serde_json::from_str(&render_json(&json)).unwrap();
    assert_eq!(payload["posture"], "draft-safe");
    assert_eq!(payload["name"], "work");
    assert_eq!(payload["imap_host"], "127.0.0.1");
    assert_eq!(payload["smtp_configured"], false);
    assert!(payload["available_tools"].is_array());
}

#[test]
fn resource_lists_the_tools_that_can_be_called() {
    let registry = AccountRegistry::new(vec![account("default")]);
    let contents = match read_resource(&registry, &docs(), "rimap://accounts/default") {
        Ok(contents) => contents,
        Err(_) => panic!("the account must be readable"),
    };
    assert_eq!(contents.mime_type, "application/json");
    let payload: Value = serde_json::from_str(&contents.text).unwrap();
    let tools: Vec<&str> = payload["available_tools"]
        .as_array()
        .unwrap()
        .iter()
        .map(|t| t.as_str().unwrap())
        .collect();
    assert_eq!(tools, ["list_folders", "search"]);
}

#[test]
fn every_listed_account_is_readable() {
    let registry = AccountRegistry::new(vec![account("work"), account("home")]);
    let listed = list_resources(registry.accounts());
    assert_eq!(listed.len(), 4);
    assert_eq!(listed[2].uri, "rimap://accounts/home");
    assert_eq!(listed[2].description, "IMAP account: home@test.invalid on 127.0.0.1");
    assert_eq!(listed[3].name, "work");
    for resource in &listed {
        assert!(read_resource(&registry, &docs(), &resource.uri).is_ok());
    }
}

#[test]
fn what_is_not_listed_is_refused() {
    let registry = AccountRegistry::new(vec![account("work")]);
    match read_resource(&registry, &docs(), "file:///etc/hosts") {
        Err(ReadRefusal::Protocol(e)) => assert_eq!(e.code, INVALID_PARAMS),
        _ => panic!("expected a refusal"),
    }
    match read_resource(&registry, &docs(), "rimap://accounts/NOT ok") {
        Err(ReadRefusal::Protocol(e)) => assert_eq!(e.code, RESOURCE_NOT_FOUND),
        _ => panic!("expected a refusal"),
    }
    match read_resource(&registry, &docs(), "rimap://accounts/absent") {
        Err(ReadRefusal::Account(RimapError::UnknownAccount { name, available })) => {
            assert_eq!(name, "absent");
            assert_eq!(available, ["work"]);
        }
        _ => panic!("expected an unknown account"),
    }
}
