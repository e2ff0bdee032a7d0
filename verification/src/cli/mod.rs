//! What the command line asks for.
pub mod dry_run;
pub mod dump_tool_doc;
pub mod dump_tool_schemas;

use vstd::prelude::*;

verus! {

/// A command line, read.
#[derive(Debug)]
pub struct Cli {
    /// The configuration file that is asked for.
    pub config: Option<String>,
    /// Print the effective tool matrix and do nothing else.
    pub dry_run: bool,
    /// Accept a configuration without accounts.
    pub allow_empty_accounts: bool,
    /// The subcommand: none to serve.
    pub command: Option<Command>,
}

/// A subcommand.
#[derive(Debug)]
pub enum Command {
    /// Store a credential.
    Login { account: String, host: String, username: String },
    /// Move a stored credential to the key that names its account.
    MigrateKeyring { account: String, host: String, username: String },
    /// Look into the audit log.
    Audit { action: AuditAction },
    /// Print the tool catalog.
    DumpToolCatalog,
    /// Print the schemas of what tools answer.
    DumpToolSchemas,
    /// Print what the tool documentation is made from.
    DumpToolDoc,
}

/// What to do with the audit log.
#[derive(Debug)]
pub enum AuditAction {
    /// Print the records of a file that pass all filters.
    Merge {
        path: String,
        since: Option<String>,
        until: Option<String>,
        tool: Option<String>,
        kind: Option<String>,
        process: Option<String>,
        account: Option<String>,
    },
}

/// What the process does instead of serving.
#[derive(Debug, Clone, Copy, PartialEq, Eq, Structural)]
pub enum Task {
    Login,
    MigrateKeyring,
    AuditMerge,
    DumpToolCatalog,
    DumpToolSchemas,
    DumpToolDoc,
    DryRun,
}

/// What a command line asks for instead of serving. A subcommand goes before
/// `--dry-run`.
pub open spec fn task(cli: Cli) -> Option<Task> {
    match cli.command {
        Some(Command::Login { .. }) => Some(Task::Login),
        Some(Command::MigrateKeyring { .. }) => Some(Task::MigrateKeyring),
        Some(Command::Audit { .. }) => Some(Task::AuditMerge),
        Some(Command::DumpToolCatalog) => Some(Task::DumpToolCatalog),
        Some(Command::DumpToolSchemas) => Some(Task::DumpToolSchemas),
        Some(Command::DumpToolDoc) => Some(Task::DumpToolDoc),
        None => if cli.dry_run {
            Some(Task::DryRun)
        } else {
            None
        },
    }
}

/// What a command line asks for instead of serving: `None` to serve.
pub fn dispatch_subcommand(cli: &Cli) -> (r: Option<Task>)
    ensures
        r == task(*cli),
{
    match &cli.command {
        Some(Command::Login { .. }) => Some(Task::Login),
        Some(Command::MigrateKeyring { .. }) => Some(Task::MigrateKeyring),
        Some(Command::Audit { .. }) => Some(Task::AuditMerge),
        Some(Command::DumpToolCatalog) => Some(Task::DumpToolCatalog),
        Some(Command::DumpToolSchemas) => Some(Task::DumpToolSchemas),
        Some(Command::DumpToolDoc) => Some(Task::DumpToolDoc),
        None => {
            if cli.dry_run {
                return Some(Task::DryRun);
            }
            None
        },
    }
}

/// The process serves exactly where the command line names neither a subcommand
/// nor `--dry-run`.
pub proof fn law_serving_is_the_default(cli: Cli)
    ensures
        task(cli) is None == (cli.command is None && !cli.dry_run),
{
}

/// A subcommand is done whatever else the command line says, and each does what it is
/// named for. Without one, a dry run is done where it is asked for.
pub proof fn law_subcommand_is_what_is_done(cli: Cli, other: Cli)
    ensures
        cli.command is Some && cli.command == other.command ==> task(cli) == task(other),
        cli.command matches Some(Command::Login { .. }) ==> task(cli) == Some(Task::Login),
        cli.command matches Some(Command::MigrateKeyring { .. }) ==> task(cli) == Some(
            Task::MigrateKeyring,
        ),
        cli.command matches Some(Command::Audit { .. }) ==> task(cli) == Some(Task::AuditMerge),
        cli.command matches Some(Command::DumpToolCatalog) ==> task(cli) == Some(
            Task::DumpToolCatalog,
        ),
        cli.command matches Some(Command::DumpToolSchemas) ==> task(cli) == Some(
            Task::DumpToolSchemas,
        ),
        cli.command matches Some(Command::DumpToolDoc) ==> task(cli) == Some(Task::DumpToolDoc),
        cli.command is None ==> (task(cli) == Some(Task::DryRun) <==> cli.dry_run),
{
}

} // verus!
