//! What the process decides and says before and around serving.
use vstd::prelude::*;
use vstd::string::*;

use crate::account;
use crate::account::AccountId;
use crate::text;

verus! {

/// How long cancelled calls may take to unwind before the process goes on.
pub const DISPATCH_DRAIN_BUDGET_MS: u64 = 2000;

/// How long the queued records of cancelled calls may take to be written.
pub const DRAINER_JOIN_BUDGET_MS: u64 = 1000;

/// What the user is told where there is no configuration file.
pub open spec fn missing_config_guidance(path: Seq<char>) -> Seq<char> {
    "No configuration file was found at:\n    "@ + path
        + "\n\nCreate one to get started. See the annotated example configuration and the quickstart guide for your provider:\n    config.example.toml               - annotated example configuration\n    docs/quickstart-gmail.md          - Gmail setup\n    docs/quickstart-proton-bridge.md  - Proton Mail Bridge setup\n\nYou can point at a different location with --config <PATH> or the RUSTY_IMAP_MCP_CONFIG environment variable.\n"@
}

/// What the user is told where there is no configuration file at `path`.
pub fn format_missing_config_guidance(path: &str) -> (r: String)
    ensures
        r@ == missing_config_guidance(path@),
{
    let mut out = "No configuration file was found at:\n    ".to_owned();
    out.append(path);
    out.append(
        "\n\nCreate one to get started. See the annotated example configuration and the quickstart guide for your provider:\n    config.example.toml               - annotated example configuration\n    docs/quickstart-gmail.md          - Gmail setup\n    docs/quickstart-proton-bridge.md  - Proton Mail Bridge setup\n\nYou can point at a different location with --config <PATH> or the RUSTY_IMAP_MCP_CONFIG environment variable.\n",
    );
    out
}

/// The configuration file to read: the one on the command line, else the default;
/// an explanation where there is neither.
pub fn resolve_cli_config_path(
    config: Option<String>,
    fallback: Option<String>,
) -> (r: Result<String, String>)
    ensures
        match (text::text_view(config), text::text_view(fallback)) {
            (Some(path), _) => r matches Ok(p) && p@ == path,
            (None, Some(path)) => r matches Ok(p) && p@ == path,
            (None, None) => r matches Err(e) && e@
                == "no config path (pass --config or set RUSTY_IMAP_MCP_CONFIG)"@,
        },
{
    match config {
        Some(path) => Ok(path),
        None => match fallback {
            Some(path) => Ok(path),
            None => Err(
                "no config path (pass --config or set RUSTY_IMAP_MCP_CONFIG)".to_owned(),
            ),
        },
    }
}

/// Where attachments are stored.
#[derive(Debug, Clone, Copy, PartialEq, Eq, Structural)]
pub enum DownloadDir {
    /// The directory of the configuration.
    Configured,
    /// A directory of this process alone.
    PerProcess,
}

/// Where attachments are stored: in the configured directory, unless its name is
/// empty.
pub fn choose_download_dir(configured: &str) -> (r: DownloadDir)
    ensures
        r == if configured@.len() == 0 {
            DownloadDir::PerProcess
        } else {
            DownloadDir::Configured
        },
{
    if configured.unicode_len() == 0 {
        DownloadDir::PerProcess
    } else {
        DownloadDir::Configured
    }
}

/// The account that a subcommand names, or an explanation where the name is none
/// that an account can have.
pub fn named_account(name: &str) -> (r: Result<AccountId, String>)
    ensures
        match r {
            Ok(id) => account::account_name(name@) && id@ == name@,
            Err(e) => !account::account_name(name@) && e@ == "invalid account name `"@ + name@
                + "`"@,
        },
{
    match AccountId::new(name) {
        Some(id) => Ok(id),
        None => {
            let mut out = "invalid account name `".to_owned();
            out.append(name);
            out.append("`");
            Err(out)
        },
    }
}

/// What is said after a credential was stored.
pub fn login_confirmation(username: &str, host: &str) -> (r: String)
    ensures
        r@ == "credential stored for "@ + username@ + "@"@ + host@ + "\n"@,
{
    let mut out = "credential stored for ".to_owned();
    out.append(username);
    out.append("@");
    out.append(host);
    out.append("\n");
    out
}

/// What is said after a credential was to be moved.
pub fn migration_confirmation(migrated: bool, account: &str, host: &str) -> (r: String)
    ensures
        r@ == if migrated {
            "migrated credential for account `"@ + account@ + "`\n"@
        } else {
            "no legacy credential found for account `"@ + account@ + "` (host `"@ + host@
                + "`); nothing to migrate\n"@
        },
{
    if migrated {
        let mut out = "migrated credential for account `".to_owned();
        out.append(account);
        out.append("`\n");
        return out;
    }
    let mut out = "no legacy credential found for account `".to_owned();
    out.append(account);
    out.append("` (host `");
    out.append(host);
    out.append("`); nothing to migrate\n");
    out
}

/// What the user is told where there is no configuration file begins with where it was
/// looked for, whatever the place.
pub proof fn law_guidance_names_the_place(path: Seq<char>)
    ensures
        ("No configuration file was found at:\n    "@ + path + "\n"@).is_prefix_of(
            missing_config_guidance(path),
        ),
{
    reveal_strlit("\n");
    reveal_strlit(
        "\n\nCreate one to get started. See the annotated example configuration and the quickstart guide for your provider:\n    config.example.toml               - annotated example configuration\n    docs/quickstart-gmail.md          - Gmail setup\n    docs/quickstart-proton-bridge.md  - Proton Mail Bridge setup\n\nYou can point at a different location with --config <PATH> or the RUSTY_IMAP_MCP_CONFIG environment variable.\n",
    );
    let part = "No configuration file was found at:\n    "@ + path + "\n"@;
    let whole = missing_config_guidance(path);
    assert(part =~= whole.take(part.len() as int));
}

/// Cancelled calls may take two seconds to unwind, twice as long as their records may
/// take to be written after that.
pub proof fn law_shutdown_has_its_time()
    ensures
        DISPATCH_DRAIN_BUDGET_MS == 2 * 1000,
        DISPATCH_DRAIN_BUDGET_MS == 2 * DRAINER_JOIN_BUDGET_MS,
{
}

} // verus!
