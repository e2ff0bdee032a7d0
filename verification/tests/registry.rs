use rimap_server::account::{is_before, AccountId, DEFAULT_ACCOUNT_NAME};
use rimap_server::boot::registry::{
    build_account_connection, on_verdict, AccountRegistry, AccountState, ImapSettings,
};
use rimap_server::error::RimapError;
use rimap_server::tool::Posture;

fn account(name: &str) -> AccountState {
    AccountState {
        id: AccountId::new(name).expect("test account name must be valid"),
        posture: Posture::DraftSafe,
        advertised: vec![],
        imap_username: format!("{name}@test.invalid"),
        imap_host: "127.0.0.1".to_string(),
        smtp_configured: false,
        tool_call_timeout_secs: 300,
    }
}

#[test]
fn empty_registry_returns_no_account() {
    let reg = AccountRegistry::new(vec![]);
    assert!(matches!(
        reg.resolve(None),
        Err(RimapError::NoAccount { available }) if available.is_empty()
    ));
}

#[test]
fn explicit_unknown_returns_unknown_account() {
    let reg = AccountRegistry::new(vec![]);
    assert!(matches!(
        reg.resolve(Some("work")),
        Err(RimapError::UnknownAccount { name, .. }) if name == "work"
    ));
}

#[test]
fn set_active_unknown_returns_error() {
    let mut reg = AccountRegistry::new(vec![]);
    assert!(matches!(
        reg.set_active("nope"),
        Err(RimapError::UnknownAccount { name, .. }) if name == "nope"
    ));
}

#[test]
fn resolve_ignores_active_selection() {
    let mut reg = AccountRegistry::new(vec![account("work"), account("personal")]);
    assert!(reg.set_active("work").is_ok());
    assert_eq!(reg.active_name().as_deref(), Some("work"));
    assert!(matches!(reg.resolve(None), Err(RimapError::NoAccount { .. })));
    assert!(matches!(reg.resolve(Some("work")), Ok(state) if state.id.as_str() == "work"));
}

#[test]
fn resolve_auto_selects_single_account_regardless_of_active() {
    let mut reg = AccountRegistry::new(vec![account("solo")]);
    assert!(matches!(reg.resolve(None), Ok(state) if state.id.as_str() == "solo"));
    assert!(reg.set_active("solo").is_ok());
    assert!(matches!(reg.resolve(None), Ok(state) if state.id.as_str() == "solo"));
}

#[test]
fn active_name_none_until_set() {
    let mut reg = AccountRegistry::new(vec![account("work")]);
    assert!(reg.active_name().is_none());
    assert!(matches!(reg.set_active("work"), Ok(None)));
    assert_eq!(reg.active_name().as_deref(), Some("work"));
}

#[test]
fn account_name_strings_empty() {
    assert!(AccountRegistry::new(vec![]).account_name_strings().is_empty());
}

#[test]
fn accounts_returns_map() {
    assert!(AccountRegistry::new(vec![]).accounts().is_empty());
}

#[test]
fn debug_format_includes_account_state_fields() {
    let formatted = format!("{:?}", account("formatting-test-account"));
    assert!(formatted.contains("AccountState"));
    assert!(formatted.contains("formatting-test-account"));
}

#[test]
fn check_infrastructure_rate_rejects_after_burst_exhaustion() {
    let reg = AccountRegistry::new(vec![]);
    let mut admitted = 0;
    let mut rejected_with_rate_limited = false;
    for _ in 0..50 {
        match reg.check_infrastructure_rate() {
            Ok(()) => admitted += 1,
            Err(err) => {
                assert!(matches!(err, RimapError::RateLimited { .. }));
                rejected_with_rate_limited = true;
                break;
            }
        }
    }
    assert!(rejected_with_rate_limited, "admitted={admitted}");
    assert!(admitted >= 10, "a burst of ten is admitted; admitted={admitted}");
}

#[test]
fn a_refusal_says_how_long_to_wait() {
    assert!(on_verdict(Ok(())).is_ok());
    assert!(matches!(
        on_verdict(Err(120)),
        Err(RimapError::RateLimited { retry_after_ms: 120 })
    ));
    assert!(matches!(
        on_verdict(Err(u128::MAX)),
        Err(RimapError::RateLimited {
            retry_after_ms: u64::MAX
        })
    ));
}

#[test]
fn account_name_strings_returns_populated_sorted_names() {
    let reg = AccountRegistry::new(vec![account("alpha"), account("beta")]);
    assert_eq!(reg.account_name_strings(), vec!["alpha".to_string(), "beta".to_string()]);
    let reg = AccountRegistry::new(vec![account("b"), account("c"), account("a")]);
    assert_eq!(reg.account_name_strings(), ["a", "b", "c"]);
}

#[test]
fn the_later_account_of_a_name_counts() {
    let mut second = account("work");
    second.imap_host = "imap.example.com".to_string();
    let reg = AccountRegistry::new(vec![account("work"), second]);
    assert_eq!(reg.accounts().len(), 1);
    let found = reg.find_by_name("work").expect("the account is there");
    assert_eq!(found.imap_host, "imap.example.com");
    assert!(reg.find_by_name("not a name").is_none());
}

#[test]
fn a_second_selection_names_the_first() {
    let mut reg = AccountRegistry::new(vec![account("work"), account("home")]);
    assert!(matches!(reg.set_active("work"), Ok(None)));
    assert!(matches!(reg.set_active("home"), Ok(Some(previous)) if previous == "work"));
    assert!(reg.set_active("absent").is_err());
    assert_eq!(reg.active_name().as_deref(), Some("home"));
}

#[test]
fn build_account_connection_omits_account_field_for_default_name() {
    let imap = ImapSettings {
        host: "imap.example.com".to_string(),
        port: 993,
        encryption: "tls",
        username: "u@example.com".to_string(),
        connect_timeout_seconds: 10,
        command_timeout_seconds: 30,
        max_fetch_body_bytes: 1024,
        max_append_bytes: 2048,
        tls_fingerprint: None,
    };
    let default_id = AccountId::new(DEFAULT_ACCOUNT_NAME).unwrap();
    assert!(build_account_connection(&default_id, &imap).account.is_none());
    let work_id = AccountId::new("work").unwrap();
    let conn_work = build_account_connection(&work_id, &imap);
    assert_eq!(conn_work.account, Some("work".to_string()));
    assert_eq!(conn_work.host, "imap.example.com");
    assert_eq!(conn_work.port, 993);
    assert_eq!(conn_work.encryption, "tls");
    assert_eq!(conn_work.connect_timeout_secs, 10);
    assert_eq!(conn_work.command_timeout_secs, 30);
    assert_eq!(conn_work.max_append_bytes, 2048);
}

#[test]
fn account_names_are_short_words() {
    let longest = "a".repeat(64);
    for name in ["a", "Work", "work-2", DEFAULT_ACCOUNT_NAME, longest.as_str()] {
        assert!(AccountId::new(name).is_some(), "{name}");
    }
    let longer = "a".repeat(65);
    for name in ["", "a_b", "a.b", "a b", "ä", longer.as_str()] {
        assert!(AccountId::new(name).is_none(), "{name}");
    }
    assert!(is_before("a", "ab"));
    assert!(is_before("ab", "b"));
    assert!(!is_before("b", "b"));
}
