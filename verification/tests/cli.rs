use rimap_server::account::AccountId;
use rimap_server::boot::tool_matrix::{AccountConfig, Verdict};
use rimap_server::cli::dry_run::{
    account_report, dry_run_report, write_fingerprint_section, Preflight, Probe,
};
use rimap_server::cli::dump_tool_doc::{dump_tool_doc, min_posture, DocSource, PostureAllowance};
use rimap_server::cli::dump_tool_schemas::{build_schemas, dump_tool_schemas};
use rimap_server::cli::{dispatch_subcommand, AuditAction, Cli, Command, Task};
use rimap_server::json::{from_value, parse_json, render_json, render_json_pretty, to_value};
use rimap_server::tool::{Posture, ToolName};
use serde_json::Value;

fn reached(fingerprint: &str) -> Preflight {
    Preflight::Reached {
        capabilities: vec!["IMAP4REV1".into()],
        fingerprint: fingerprint.to_string(),
    }
}

#[test]
fn write_fingerprint_section_unpinned_prints_paste_hint() {
    let fp = "ab:cd:ef";
    let text = write_fingerprint_section(&reached(fp), None);
    assert!(text.contains("TLS fingerprint (sha256):"));
    assert!(text.contains(fp));
    assert!(text.contains("tls_fingerprint_sha256 ="));
}

#[test]
fn write_fingerprint_section_pinned_match_prints_confirmation() {
    let fp = "ab:cd:ef";
    let text = write_fingerprint_section(&reached(fp), Some(fp));
    assert!(text.contains("matches configured pin"));
    assert!(!text.contains("tls_fingerprint_sha256 ="));
}

#[test]
fn write_fingerprint_section_pinned_mismatch_prints_diagnostic() {
    let result = Preflight::PinMismatch {
        observed: "01:02".to_string(),
        expected: "03:04".to_string(),
        shown: "fingerprint mismatch".to_string(),
    };
    let text = write_fingerprint_section(&result, Some("03:04"));
    assert!(text.contains("observed:"));
    assert!(text.contains("expected:"));
    assert!(text.contains("01:02"));
    assert!(text.contains("03:04"));
    assert!(text.contains("hint:"));
}

#[test]
fn write_fingerprint_section_other_error_prints_nothing() {
    let result = Preflight::Failed {
        shown: "tcp_connect timed out".to_string(),
    };
    assert!(write_fingerprint_section(&result, None).is_empty());
}

#[test]
fn write_fingerprint_section_pinned_ok_mismatch_defensive_prints_observed() {
    let text = write_fingerprint_section(&reached("01:02"), Some("03:04"));
    assert!(text.contains("TLS fingerprint (sha256):"));
    assert!(text.contains("01:02"));
    assert!(text.contains("pin mismatch") && text.contains("unexpected"));
    assert!(!text.contains("tls_fingerprint_sha256 ="));
    assert!(!text.contains("matches configured pin"));
    assert!(!text.contains("expected:"));
}

fn config(name: &str) -> AccountConfig {
    AccountConfig {
        id: AccountId::new(name).unwrap(),
        posture: Posture::DraftSafe,
        imap_host: "imap.example.com".to_string(),
        tool_overrides: vec![
            (ToolName::Search, Verdict::Deny),
            (ToolName::DeleteMessage, Verdict::Allow),
        ],
        account_written_tools: vec![ToolName::Search],
        protected_folders: vec!["INBOX".to_string(), "Sent".to_string()],
        account_written_protected_folders: false,
        expunge_folders: vec![],
        account_written_expunge_folders: true,
    }
}

#[test]
fn a_report_lists_tools_policy_and_server() {
    let rows = vec![
        (ToolName::ListFolders, true),
        (ToolName::SearchAdvanced, false),
        (ToolName::UseAccount, false),
        (ToolName::ListAccounts, false),
    ];
    let text = account_report(
        &config("work"),
        true,
        &rows,
        "imap.example.com",
        993,
        &reached("ab:cd"),
        None,
    );
    assert_eq!(
        text,
        "Account: work\n\
         Effective matrix (posture = draft-safe)\n  \
         [ok ] list_folders\n  \
         [deny] search.advanced_query\n\
         Infrastructure tools (always available):\n  \
         [ok ] use_account\n  \
         [ok ] list_accounts\n\
         Explicit tool overrides:\n  \
         search=deny(account)\n  \
         delete_message=allow(inherited)\n\
         Protected folders (configured; server special-use folders are added at boot):\n  \
         INBOX(inherited)\n  \
         Sent(inherited)\n\
         Expunge folders: none\n\
         Capabilities (imap.example.com:993):\n  \
         [ok ] IMAP4REV1\n\
         TLS fingerprint (sha256):\n  \
         ab:cd\n  \
         (add `tls_fingerprint_sha256 = \"ab:cd\"` under [imap] in config.toml to pin)\n"
    );
}

#[test]
fn a_report_on_one_unreachable_account() {
    let mut acfg = config("default");
    acfg.tool_overrides.clear();
    let text = account_report(
        &acfg,
        false,
        &vec![],
        "127.0.0.1",
        1143,
        &Preflight::Failed {
            shown: "refused".to_string(),
        },
        None,
    );
    assert!(text.starts_with("Effective matrix (posture = draft-safe)\n"));
    assert!(!text.contains("Account:"));
    assert!(text.contains("Explicit tool overrides: none\n"));
    assert!(text.ends_with("Capabilities (127.0.0.1:1143): unavailable (refused)\n"));
}

fn allowance(from: usize) -> PostureAllowance {
    PostureAllowance {
        readonly: from == 0,
        draft_safe: from <= 1,
        full: from <= 2,
        destructive: from <= 3,
    }
}

fn sources() -> Vec<DocSource> {
    ToolName::all()
        .into_iter()
        .map(|tool| DocSource {
            tool,
            allowed: allowance(if tool == ToolName::ExportMessages { 4 } else { 0 }),
            input_schema: parse_json(r#"{"type":"object"}"#).unwrap(),
            output_schema: parse_json(r#"{"type":"object"}"#).unwrap(),
        })
        .collect()
}

#[test]
fn dump_emits_one_json_line_per_advertised_tool() {
    let text = dump_tool_doc(sources());
    let lines: Vec<&str> = text.lines().collect();
    let expected = ToolName::all()
        .into_iter()
        .filter(|tn| {
            !matches!(
                tn,
                ToolName::SearchAdvanced | ToolName::FetchMessageHtml | ToolName::CreateDraftHtml
            )
        })
        .count();
    assert_eq!(lines.len(), expected, "one record per advertised tool");
    for line in lines {
        let v: Value = serde_json::from_str(line).expect("valid JSON line");
        assert!(v["name"].is_string(), "record has a name: {line}");
        assert!(v["input_schema"].is_object());
        assert!(v["output_schema"].is_object());
        let mp = &v["min_posture"];
        assert!(mp.is_string() || mp.is_null());
        assert_eq!(mp.is_null(), v["name"] == "export_messages");
    }
}

fn dumped() -> serde_json::Map<String, Value> {
    let schemas = build_schemas()
        .iter()
        .map(|_| {
            parse_json(
                r#"{"title":"ToolResponse","type":"object","properties":{"meta":{},"untrusted":{}}}"#,
            )
            .unwrap()
        })
        .collect();
    let text = dump_tool_schemas(schemas);
    assert!(text.ends_with("}\n"));
    serde_json::from_str(&text).unwrap()
}

#[test]
fn dump_emits_one_key_per_in_scope_tool() {
    let parsed = dumped();
    for name in [
        "list_folders",
        "list_accounts",
        "use_account",
        "list_labels",
        "mark_read",
        "mark_unread",
        "flag",
        "unflag",
        "add_label",
        "remove_label",
        "move_message",
        "create_draft",
        "send_email",
        "delete_message",
        "expunge",
        "create_folder",
        "rename_folder",
        "delete_folder",
        "search",
        "fetch_message",
        "list_attachments",
        "download_attachment",
    ] {
        assert!(parsed.contains_key(name), "missing schema for {name}");
        let entry = &parsed[name];
        assert_eq!(entry["type"], "object");
        assert!(entry["properties"]["meta"].is_object());
        assert!(entry.get("title").is_none());
    }
    assert_eq!(parsed.len(), 22);
}

fn cli(command: Option<Command>, dry_run: bool) -> Cli {
    Cli {
        config: None,
        dry_run,
        allow_empty_accounts: false,
        command,
    }
}

#[test]
fn a_subcommand_goes_before_everything_else() {
    let login = Command::Login {
        account: "default".to_string(),
        host: "h".to_string(),
        username: "u".to_string(),
    };
    assert_eq!(dispatch_subcommand(&cli(Some(login), true)), Some(Task::Login));
    let merge = Command::Audit {
        action: AuditAction::Merge {
            path: "audit.jsonl".to_string(),
            since: None,
            until: None,
            tool: None,
            kind: None,
            process: None,
            account: None,
        },
    };
    assert_eq!(
        dispatch_subcommand(&cli(Some(merge), false)),
        Some(Task::AuditMerge)
    );
    assert_eq!(
        dispatch_subcommand(&cli(Some(Command::DumpToolDoc), false)),
        Some(Task::DumpToolDoc)
    );
    assert_eq!(dispatch_subcommand(&cli(None, true)), Some(Task::DryRun));
    assert_eq!(dispatch_subcommand(&cli(None, false)), None);
}

fn probed(name: &str) -> (AccountConfig, Probe) {
    let probe = Probe {
        rows: vec![(ToolName::ListFolders, true), (ToolName::UseAccount, false)],
        host: "127.0.0.1".to_string(),
        port: 1143,
        result: Preflight::Failed { shown: "refused".to_string() },
        pinned: None,
    };
    (config(name), probe)
}

#[test]
fn accounts_are_named_where_there_are_several() {
    assert_eq!(dry_run_report(&vec![]), "");
    let one = dry_run_report(&vec![probed("work")]);
    assert!(!one.contains("Account:"));
    assert_eq!(one.matches("Effective matrix").count(), 1);
    assert!(!one.contains("[deny] use_account"));
    let two = dry_run_report(&vec![probed("work"), probed("home")]);
    assert_eq!(two.matches("Effective matrix").count(), 2);
    assert_eq!(two, format!("Account: work\n{one}Account: home\n{one}"));
}

#[test]
fn tools_are_documented_in_the_order_of_declaration() {
    let text = dump_tool_doc(sources());
    let names: Vec<String> = text
        .lines()
        .map(|line| {
            let record: Value = serde_json::from_str(line).unwrap();
            record["name"].as_str().unwrap().to_string()
        })
        .collect();
    let expected: Vec<&str> =
        ToolName::all().iter().map(|t| t.as_str()).filter(|t| !t.contains('.')).collect();
    assert_eq!(names, expected);
    assert_eq!(names.len(), 24);
}

#[test]
fn fractions_are_written_as_they_were_read() {
    for text in ["1.5", "-0.0", "1e+300", "0.1", "5e-324", "[0.30000000000000004,{\"a\":-2.25}]"] {
        let value: Value = serde_json::from_str(text).unwrap();
        let tree = from_value(value.clone());
        assert_eq!(to_value(&tree), value, "{text}");
        assert_eq!(render_json(&tree), value.to_string());
        assert_eq!(
            render_json_pretty(&tree),
            serde_json::to_string_pretty(&value).unwrap()
        );
    }
    for bits in [0.1 + 0.2, 1.0 / 3.0, f64::MAX, f64::MIN_POSITIVE, 123456789.125e-30] {
        let value = Value::from(bits);
        assert_eq!(to_value(&from_value(value.clone())), value);
    }
    let mut one = sources().remove(1);
    assert_eq!(one.tool, ToolName::Search);
    one.input_schema = parse_json(r#"{"maximum":2.5}"#).unwrap();
    assert!(dump_tool_doc(vec![one]).contains(r#""input_schema":{"maximum":2.5}"#));
}

/// An account as the flat configuration makes it: nothing is inherited.
fn flat(name: &str) -> (AccountConfig, Probe) {
    let (mut acfg, mut probe) = probed(name);
    acfg.tool_overrides.clear();
    acfg.account_written_tools.clear();
    acfg.account_written_protected_folders = true;
    probe.rows = vec![
        (ToolName::ListFolders, true),
        (ToolName::SearchAdvanced, false),
        (ToolName::UseAccount, false),
        (ToolName::ListAccounts, false),
    ];
    (acfg, probe)
}

#[test]
fn dry_run_prints_matrix_with_default_posture() {
    let text = dry_run_report(&vec![flat("default")]);
    assert!(text.contains("draft-safe"));
    assert!(text.contains("list_folders"));
    assert!(text.contains("search.advanced_query"));
    assert!(text.contains("[deny] search.advanced_query"));
    assert!(text.contains("[ok ] list_folders"));
}

#[test]
fn dry_run_lists_infrastructure_tools_separately() {
    let text = dry_run_report(&vec![flat("default")]);
    assert!(!text.contains("[deny] use_account"), "{text}");
    assert!(!text.contains("[deny] list_accounts"), "{text}");
    assert!(text.contains("Infrastructure tools (always available)"), "{text}");
    assert!(text.contains("use_account"), "{text}");
    assert!(text.contains("list_accounts"), "{text}");
}

#[test]
fn dry_run_marks_inherited_and_account_written_overrides() {
    let (mut acfg, probe) = probed("work");
    acfg.posture = Posture::Readonly;
    let text = dry_run_report(&vec![(acfg, probe)]);
    assert!(text.contains("Explicit tool overrides:"), "{text}");
    assert!(text.contains("delete_message=allow(inherited)"), "{text}");
    assert!(text.contains("search=deny(account)"), "{text}");
}

#[test]
fn dry_run_prints_inherited_folder_lists() {
    let (mut work, work_probe) = probed("work");
    work.posture = Posture::Readonly;
    work.expunge_folders = vec!["Trash".to_string()];
    work.account_written_expunge_folders = false;
    let (mut personal, personal_probe) = probed("personal");
    personal.expunge_folders = vec!["Junk".to_string()];
    personal.account_written_expunge_folders = true;
    let text = dry_run_report(&vec![(personal, personal_probe), (work, work_probe)]);
    assert!(text.contains(
        "Protected folders (configured; server special-use folders are added at boot):"
    ));
    assert!(text.contains("  INBOX(inherited)"), "{text}");
    assert!(text.contains("Expunge folders:") && text.contains("  Trash(inherited)"), "{text}");
    assert!(text.contains("  Junk(account)"), "{text}");
}

#[test]
fn dry_run_reports_an_empty_expunge_list_as_none() {
    let text = dry_run_report(&vec![flat("default")]);
    assert!(text.contains("Expunge folders: none"), "{text}");
    assert!(text.contains("  INBOX(account)"), "{text}");
}

#[test]
fn dry_run_reports_no_explicit_overrides_as_none() {
    let text = dry_run_report(&vec![flat("default")]);
    assert!(text.contains("Explicit tool overrides: none"), "{text}");
}

#[test]
fn dry_run_single_account_omits_account_header() {
    let text = dry_run_report(&vec![flat("default")]);
    assert!(!text.contains("Account:"), "{text}");
}

#[test]
fn dry_run_multi_account_prints_account_headers() {
    let text = dry_run_report(&vec![flat("personal"), flat("work")]);
    assert!(text.contains("Account: work"), "{text}");
    assert!(text.contains("Account: personal"), "{text}");
}

#[test]
fn min_posture_reflects_the_matrix() {
    let listed = allowance(0);
    let read = allowance(1);
    let sent = allowance(2);
    let expunged = allowance(3);
    let exported = allowance(4);
    assert_eq!(min_posture(listed), Some(Posture::Readonly));
    assert_eq!(min_posture(read), Some(Posture::DraftSafe));
    assert_eq!(min_posture(sent), Some(Posture::Full));
    assert_eq!(min_posture(expunged), Some(Posture::Destructive));
    assert_eq!(min_posture(exported), None);
}
