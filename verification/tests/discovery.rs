use rimap_server::account::AccountId;
use rimap_server::boot::discovery::{merge_protected_folders, resolve_folder_policy};
use rimap_server::boot::mutf7::{decode_folder_name, normalize_folder_name};
use rimap_server::boot::tool_matrix::{AccountConfig, FolderSource, SpecialUseDiscovery};
use rimap_server::tool::Posture;

fn owned(names: &[&str]) -> Vec<String> {
    names.iter().map(|s| (*s).to_string()).collect()
}

#[test]
fn merge_appends_discovered_names_after_configured() {
    let merged = merge_protected_folders(&owned(&["INBOX"]), owned(&["[Gmail]/Sent Mail"]));
    assert_eq!(merged, owned(&["INBOX", "[Gmail]/Sent Mail"]));
}

#[test]
fn merge_dedups_case_insensitively() {
    let merged = merge_protected_folders(&owned(&["Sent"]), owned(&["sent", "Trash"]));
    assert_eq!(merged, owned(&["Sent", "Trash"]));
}

#[test]
fn merge_preserves_configured_order_and_keeps_empties() {
    let merged = merge_protected_folders(&owned(&["a", "b"]), Vec::new());
    assert_eq!(merged, owned(&["a", "b"]));

    let merged = merge_protected_folders(&Vec::new(), owned(&["x"]));
    assert_eq!(merged, owned(&["x"]));
}

#[test]
fn merge_dedups_within_discovered_against_running_result() {
    let merged = merge_protected_folders(&Vec::new(), owned(&["Archive", "archive"]));
    assert_eq!(merged, owned(&["Archive"]));
}

#[test]
fn merge_dedup_mutf7_and_unicode_form_treated_as_same() {
    let merged = merge_protected_folders(&owned(&["Gelöscht"]), owned(&["Gel&APY-scht"]));
    assert_eq!(merged, owned(&["Gelöscht"]));
}

#[test]
fn merge_dedup_non_ascii_case_difference_is_single_entry() {
    let merged = merge_protected_folders(&owned(&["Gelöscht"]), owned(&["GELÖSCHT"]));
    assert_eq!(merged, owned(&["Gelöscht"]));
}

#[test]
fn folder_names_decode() {
    for (name, decoded) in [
        ("INBOX", Some("INBOX")),
        ("", Some("")),
        ("A&-B", Some("A&B")),
        ("Gel&APY-scht", Some("Gelöscht")),
        ("~peter/mail/&U,BTFw-/&ZeVnLIqe-", Some("~peter/mail/台北/日本語")),
        ("&2D3eAA-", Some("\u{1f600}")),
        ("Ämter", Some("Ämter")),
    ] {
        assert_eq!(decode_folder_name(name).as_deref(), decoded, "{name}");
    }
}

#[test]
fn malformed_folder_names_do_not_decode() {
    for name in ["A&", "A&APY", "&A-", "&AP-", "&APZ-", "&=-", "&2D0-", "&3gA-"] {
        assert_eq!(decode_folder_name(name), None, "{name}");
    }
    assert_eq!(normalize_folder_name("Q&A"), "q&a");
    assert_eq!(normalize_folder_name("GEL&ANY-SCHT"), "gelöscht");
}

#[test]
fn the_guarded_list_is_the_recorded_list() {
    let acfg = AccountConfig {
        id: AccountId::new("work").unwrap(),
        posture: Posture::Readonly,
        imap_host: "127.0.0.1".to_string(),
        tool_overrides: vec![],
        account_written_tools: vec![],
        protected_folders: owned(&["INBOX", "Sent"]),
        account_written_protected_folders: true,
        expunge_folders: owned(&["Trash"]),
        account_written_expunge_folders: false,
    };
    let policy = resolve_folder_policy(&acfg, owned(&["SENT", "[Gmail]/Trash"]));
    assert_eq!(policy.protected, owned(&["INBOX", "Sent", "[Gmail]/Trash"]));
    let recorded: Vec<_> = policy
        .matrix
        .protected_folders
        .iter()
        .map(|e| (e.folder.as_str(), e.source))
        .collect();
    assert_eq!(
        recorded,
        [
            ("INBOX", FolderSource::Account),
            ("Sent", FolderSource::Account),
            ("[Gmail]/Trash", FolderSource::Discovered),
        ]
    );
    assert_eq!(policy.matrix.special_use_discovery, SpecialUseDiscovery::Ran);
}
