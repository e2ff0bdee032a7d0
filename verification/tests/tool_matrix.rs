use rimap_server::account::AccountId;
use rimap_server::boot::discovery::merge_protected_folders;
use rimap_server::boot::tool_matrix::{
    account_tool_matrix, log_account_folder_policy, log_account_matrix, protected_entries,
    render_folder_list, render_verdict, AccountConfig, FolderSource, SpecialUseDiscovery, Verdict,
    VerdictSource,
};
use rimap_server::tool::{Posture, ToolName};

fn owned(names: &[&str]) -> Vec<String> {
    names.iter().map(|s| (*s).to_string()).collect()
}

fn account(name: &str) -> AccountConfig {
    AccountConfig {
        id: AccountId::new(name).unwrap(),
        posture: Posture::Readonly,
        imap_host: "127.0.0.1".to_string(),
        tool_overrides: vec![],
        account_written_tools: vec![],
        protected_folders: vec![],
        account_written_protected_folders: false,
        expunge_folders: vec![],
        account_written_expunge_folders: false,
    }
}

/// The defaults allow `delete_message`; the account tightens its posture and
/// denies `search`.
fn work_account() -> AccountConfig {
    let mut acfg = account("work");
    acfg.tool_overrides = vec![
        (ToolName::DeleteMessage, Verdict::Allow),
        (ToolName::Search, Verdict::Deny),
    ];
    acfg.account_written_tools = vec![ToolName::Search];
    acfg
}

/// The defaults name both folder lists: `work` inherits both, `personal` writes
/// its own.
fn folder_account(name: &str) -> AccountConfig {
    let mut acfg = account(name);
    if name == "personal" {
        acfg.protected_folders = owned(&["Archive"]);
        acfg.account_written_protected_folders = true;
        acfg.expunge_folders = owned(&["Junk"]);
        acfg.account_written_expunge_folders = true;
    } else {
        acfg.protected_folders = owned(&["INBOX", "Sent"]);
        acfg.expunge_folders = owned(&["Trash"]);
    }
    acfg
}

#[test]
fn inherited_allow_on_tightened_posture_is_marked_inherited() {
    let matrix = account_tool_matrix(&work_account(), None);
    assert_eq!(matrix.account, "work");
    assert_eq!(matrix.posture, Posture::Readonly);
    let deletion = matrix
        .tools
        .iter()
        .find(|v| v.tool == ToolName::DeleteMessage)
        .expect("delete_message inherited from the defaults");
    assert!(deletion.allow);
    assert_eq!(deletion.source, VerdictSource::Inherited);
    let search = matrix
        .tools
        .iter()
        .find(|v| v.tool == ToolName::Search)
        .expect("search written by the account");
    assert!(!search.allow);
    assert_eq!(search.source, VerdictSource::Account);
}

#[test]
fn only_explicit_verdicts_are_listed() {
    let matrix = account_tool_matrix(&work_account(), None);
    assert_eq!(matrix.tools.len(), 2, "{:?}", matrix.tools);
}

#[test]
fn rows_follow_tool_declaration_order() {
    let matrix = account_tool_matrix(&work_account(), None);
    let declared: Vec<_> = ToolName::all()
        .into_iter()
        .filter(|t| matrix.tools.iter().any(|v| v.tool == *t))
        .collect();
    let rendered: Vec<_> = matrix.tools.iter().map(|v| v.tool).collect();
    assert_eq!(rendered, declared);
}

#[test]
fn render_verdict_names_both_the_verdict_and_its_source() {
    let matrix = account_tool_matrix(&work_account(), None);
    let rendered: Vec<_> = matrix.tools.iter().map(render_verdict).collect();
    assert!(rendered.contains(&"delete_message=allow(inherited)".to_string()));
    assert!(rendered.contains(&"search=deny(account)".to_string()));
}

#[test]
fn expunge_folders_inherited_from_defaults_are_marked_inherited() {
    let matrix = account_tool_matrix(&folder_account("work"), None);
    assert_eq!(matrix.expunge_folders.len(), 1);
    assert_eq!(matrix.expunge_folders[0].folder, "Trash");
    assert_eq!(matrix.expunge_folders[0].source, FolderSource::Inherited);
    let protected: Vec<_> = matrix
        .protected_folders
        .iter()
        .map(|e| (e.folder.as_str(), e.source))
        .collect();
    assert_eq!(
        protected,
        vec![
            ("INBOX", FolderSource::Inherited),
            ("Sent", FolderSource::Inherited)
        ]
    );
}

#[test]
fn account_written_folder_lists_are_marked_account() {
    let matrix = account_tool_matrix(&folder_account("personal"), None);
    assert_eq!(matrix.expunge_folders[0].folder, "Junk");
    assert_eq!(matrix.expunge_folders[0].source, FolderSource::Account);
    assert_eq!(matrix.protected_folders[0].folder, "Archive");
    assert_eq!(matrix.protected_folders[0].source, FolderSource::Account);
}

#[test]
fn resolved_protected_list_marks_names_the_config_never_named_as_discovered() {
    let acfg = folder_account("work");
    let resolved = merge_protected_folders(&acfg.protected_folders, owned(&["[Gmail]/Sent Mail"]));
    let matrix = account_tool_matrix(&acfg, Some(&resolved));
    let rendered: Vec<_> = matrix
        .protected_folders
        .iter()
        .map(|e| (e.folder.as_str(), e.source))
        .collect();
    assert_eq!(
        rendered,
        vec![
            ("INBOX", FolderSource::Inherited),
            ("Sent", FolderSource::Inherited),
            ("[Gmail]/Sent Mail", FolderSource::Discovered),
        ]
    );
}

#[test]
fn resolved_protected_classification_is_case_insensitive() {
    let acfg = folder_account("work");
    let resolved = merge_protected_folders(&acfg.protected_folders, owned(&["sent"]));
    let matrix = account_tool_matrix(&acfg, Some(&resolved));
    assert_eq!(matrix.protected_folders.len(), 2, "{resolved:?}");
    assert!(matrix
        .protected_folders
        .iter()
        .all(|e| e.source == FolderSource::Inherited));
}

#[test]
fn no_discovery_input_yields_the_configured_list_only() {
    let acfg = folder_account("work");
    let matrix = account_tool_matrix(&acfg, None);
    assert_eq!(
        matrix
            .protected_folders
            .iter()
            .map(|e| e.folder.clone())
            .collect::<Vec<_>>(),
        acfg.protected_folders
    );
    assert!(matrix
        .protected_folders
        .iter()
        .all(|e| e.source != FolderSource::Discovered));
}

#[test]
fn an_empty_resolved_list_records_nothing_protected() {
    let acfg = folder_account("work");
    let matrix = account_tool_matrix(&acfg, Some(&vec![]));
    assert!(matrix.protected_folders.is_empty());
    assert_eq!(render_folder_list(&matrix.protected_folders), "none");
}

#[test]
fn the_discovery_argument_sets_the_recorded_discovery_state() {
    let acfg = folder_account("work");
    assert_eq!(
        account_tool_matrix(&acfg, None).special_use_discovery,
        SpecialUseDiscovery::NotRun
    );
    assert_eq!(
        account_tool_matrix(&acfg, Some(&vec![])).special_use_discovery,
        SpecialUseDiscovery::Ran
    );
    assert_eq!(
        account_tool_matrix(&acfg, Some(&acfg.protected_folders)).special_use_discovery,
        SpecialUseDiscovery::Ran
    );
}

#[test]
fn render_folder_list_names_every_entry_and_its_source() {
    let acfg = folder_account("work");
    let resolved = merge_protected_folders(&acfg.protected_folders, owned(&["[Gmail]/Trash"]));
    let matrix = account_tool_matrix(&acfg, Some(&resolved));
    assert_eq!(
        render_folder_list(&matrix.protected_folders),
        "INBOX(inherited) Sent(inherited) [Gmail]/Trash(discovered)"
    );
    assert_eq!(render_folder_list(&matrix.expunge_folders), "Trash(inherited)");
}

#[test]
fn the_log_names_what_the_matrix_holds() {
    let mut acfg = work_account();
    acfg.expunge_folders = owned(&["Trash"]);
    let matrix = account_tool_matrix(&acfg, None);
    let line = log_account_matrix(&matrix);
    assert_eq!(line.account, "work");
    assert_eq!(line.posture, "readonly");
    assert_eq!(
        line.tool_overrides,
        "search=deny(account) delete_message=allow(inherited)"
    );
    let folders = log_account_folder_policy(&matrix);
    assert_eq!(folders.protected_folders, "none");
    assert_eq!(folders.expunge_folders, "Trash(inherited)");
    assert_eq!(folders.special_use_discovery, "not_run");
}

#[test]
fn the_later_of_two_verdicts_counts() {
    let mut acfg = account("work");
    acfg.tool_overrides = vec![
        (ToolName::Flag, Verdict::Deny),
        (ToolName::Flag, Verdict::Allow),
    ];
    let matrix = account_tool_matrix(&acfg, None);
    assert_eq!(matrix.tools.len(), 1);
    assert!(matrix.tools[0].allow);
}

#[test]
fn a_configured_folder_is_known_whatever_its_case_or_encoding() {
    let mut acfg = account("work");
    acfg.protected_folders = owned(&["Gelöscht"]);
    acfg.account_written_protected_folders = true;
    for name in ["Gelöscht", "GELÖSCHT", "Gel&APY-scht"] {
        let entries = protected_entries(&acfg, Some(&owned(&[name])));
        assert_eq!(entries.len(), 1);
        assert_eq!(entries[0].folder, name);
        assert_eq!(entries[0].source, FolderSource::Account, "{name}");
    }
    let entries = protected_entries(&acfg, Some(&owned(&["Geloscht"])));
    assert_eq!(entries[0].source, FolderSource::Discovered);
}
