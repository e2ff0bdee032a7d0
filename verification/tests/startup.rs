use rimap_server::account::AccountId;
use rimap_server::boot::audit_init::{compute_config_hash, initial_seq, process_start};
use rimap_server::boot::tool_matrix::{
    AccountConfig, FolderSource, SpecialUseDiscovery, Verdict, VerdictSource,
};
use rimap_server::startup::{
    choose_download_dir, format_missing_config_guidance, login_confirmation,
    migration_confirmation, named_account, resolve_cli_config_path, DownloadDir,
};
use rimap_server::tool::{Posture, ToolName};

#[test]
fn missing_config_guidance_is_actionable() {
    let msg = format_missing_config_guidance("/opt/rimap/config.toml");
    assert!(msg.contains("/opt/rimap/config.toml"));
    assert!(msg.contains("config.example.toml"));
    assert!(msg.contains("docs/quickstart-gmail.md"));
    assert!(msg.contains("docs/quickstart-proton-bridge.md"));
    assert!(msg.contains("RUSTY_IMAP_MCP_CONFIG"));
}

#[test]
fn the_command_line_goes_before_the_default() {
    let path = |p: &str| Some(p.to_string());
    assert_eq!(
        resolve_cli_config_path(path("/a"), path("/b")),
        Ok("/a".to_string())
    );
    assert_eq!(resolve_cli_config_path(None, path("/b")), Ok("/b".to_string()));
    assert_eq!(
        resolve_cli_config_path(None, None),
        Err("no config path (pass --config or set RUSTY_IMAP_MCP_CONFIG)".to_string())
    );
}

#[test]
fn attachments_go_where_the_configuration_says() {
    assert_eq!(choose_download_dir(""), DownloadDir::PerProcess);
    assert_eq!(choose_download_dir("/srv/dl"), DownloadDir::Configured);
}

#[test]
fn subcommands_say_what_they_did() {
    assert!(named_account("work").is_ok());
    assert!(matches!(
        named_account("Not ok"),
        Err(e) if e == "invalid account name `Not ok`"
    ));
    assert_eq!(
        login_confirmation("alice", "imap.example.com"),
        "credential stored for alice@imap.example.com\n"
    );
    assert_eq!(
        migration_confirmation(true, "work", "h"),
        "migrated credential for account `work`\n"
    );
    assert_eq!(
        migration_confirmation(false, "work", "h"),
        "no legacy credential found for account `work` (host `h`); nothing to migrate\n"
    );
}

#[test]
fn a_configuration_is_hashed() {
    assert_eq!(
        compute_config_hash(Some(b"abc".to_vec())),
        "ba7816bf8f01cfea414140de5dae2223b00361a396177a9cb410ff61f20015ad"
    );
    assert_eq!(
        compute_config_hash(None),
        "e3b0c44298fc1c149afbf4c8996fb92427ae41e4649b934ca495991b7852b855"
    );
}

#[test]
fn numbering_goes_on_where_the_log_ends() {
    assert_eq!(initial_seq(None), 1);
    assert_eq!(initial_seq(Some(1)), 2);
    assert_eq!(initial_seq(Some(41)), 42);
}

fn config(name: &str) -> AccountConfig {
    AccountConfig {
        id: AccountId::new(name).unwrap(),
        posture: Posture::Readonly,
        imap_host: format!("{name}.example.com"),
        tool_overrides: vec![],
        account_written_tools: vec![],
        protected_folders: vec!["INBOX".to_string()],
        account_written_protected_folders: true,
        expunge_folders: vec![],
        account_written_expunge_folders: false,
    }
}

#[test]
fn process_start_emitted_as_first_record() {
    let text = b"[imap]\nhost = \"127.0.0.1\"\n\n[security]\nposture = \"readonly\"\n".to_vec();
    let start = process_start(&vec![config("default")]);
    assert_eq!(initial_seq(None), 1);
    assert_eq!(start.posture, Some(Posture::Readonly));
    let expected = hex::encode(<sha2::Sha256 as sha2::Digest>::digest(&text));
    assert_eq!(compute_config_hash(Some(text)), expected);
}

#[test]
fn process_start_records_inherited_allow_on_tightened_posture() {
    let mut work = config("work");
    work.tool_overrides = vec![
        (ToolName::DeleteMessage, Verdict::Allow),
        (ToolName::Search, Verdict::Deny),
    ];
    work.account_written_tools = vec![ToolName::Search];
    let matrix = process_start(&vec![work]).tool_matrix;
    assert_eq!(matrix.len(), 1);
    assert_eq!(matrix[0].account, "work");
    assert_eq!(matrix[0].posture, Posture::Readonly);
    let find = |tool: ToolName| matrix[0].tools.iter().find(|t| t.tool == tool).unwrap();
    let deletion = find(ToolName::DeleteMessage);
    assert!(deletion.allow);
    assert_eq!(deletion.source, VerdictSource::Inherited);
    let search = find(ToolName::Search);
    assert!(!search.allow);
    assert_eq!(search.source, VerdictSource::Account);
}

#[test]
fn process_start_records_inherited_and_account_written_folder_lists() {
    let mut personal = config("personal");
    personal.posture = Posture::DraftSafe;
    personal.protected_folders = vec!["INBOX".to_string(), "Sent".to_string()];
    personal.account_written_protected_folders = false;
    personal.expunge_folders = vec!["Junk".to_string()];
    personal.account_written_expunge_folders = true;
    let mut work = config("work");
    work.protected_folders = vec!["INBOX".to_string(), "Sent".to_string()];
    work.account_written_protected_folders = false;
    work.expunge_folders = vec!["Trash".to_string()];
    work.account_written_expunge_folders = false;
    let matrix = process_start(&vec![personal, work]).tool_matrix;
    let work = matrix.iter().find(|m| m.account == "work").expect("the work account");
    assert_eq!(work.expunge_folders.len(), 1);
    assert_eq!(work.expunge_folders[0].folder, "Trash");
    assert_eq!(work.expunge_folders[0].source, FolderSource::Inherited);
    assert_eq!(work.protected_folders.len(), 2);
    assert_eq!(work.protected_folders[0].folder, "INBOX");
    assert_eq!(work.protected_folders[0].source, FolderSource::Inherited);
    assert!(work.protected_folders.iter().all(|p| p.source != FolderSource::Discovered));
    assert_eq!(work.special_use_discovery, SpecialUseDiscovery::NotRun);
    let personal = matrix.iter().find(|m| m.account == "personal").expect("the personal account");
    assert_eq!(personal.expunge_folders[0].folder, "Junk");
    assert_eq!(personal.expunge_folders[0].source, FolderSource::Account);
}

#[test]
fn single_account_process_start_carries_the_same_tool_matrix_shape() {
    let start = process_start(&vec![config("default")]);
    assert!(start.accounts.is_none());
    assert_eq!(start.tool_matrix.len(), 1);
    assert_eq!(start.tool_matrix[0].account, "default");
    assert_eq!(start.tool_matrix[0].posture, Posture::Readonly);
    assert_eq!(start.tool_matrix[0].tools.len(), 0);
}

#[test]
fn seq_continues_from_trailing_state() {
    assert_eq!(initial_seq(Some(1)), 2);
}

#[test]
fn a_start_with_several_accounts_lists_them() {
    let start = process_start(&vec![config("home"), config("work")]);
    assert!(start.posture.is_none());
    let accounts = start.accounts.expect("the accounts are listed");
    assert_eq!(accounts.len(), 2);
    assert_eq!(accounts[1].name, "work");
    assert_eq!(accounts[1].imap_host, "work.example.com");
    assert_eq!(start.tool_matrix.len(), 2);
    assert!(process_start(&vec![]).accounts.is_some_and(|a| a.is_empty()));
}
