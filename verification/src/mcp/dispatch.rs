//! Which handler serves a tool call, and what its outcome means for the account.
use vstd::prelude::*;
use vstd::string::*;

use crate::account::DEFAULT_ACCOUNT_NAME;
use crate::boot::registry::AccountState;
use crate::error;
use crate::error::{ErrorCode, RimapError};
use crate::text;
use crate::text::{decimal_of, same_text};
use crate::tool;
use crate::tool::{Posture, ToolName};

verus! {

/// Leave to run a tool once. Only an opened audit envelope gives it out, and a
/// dispatch uses it up.
pub struct DispatchTicket {
    issued: (),
}

impl DispatchTicket {
    /// Issues a ticket.
    pub(crate) fn new() -> (r: DispatchTicket) {
        DispatchTicket { issued: () }
    }
}

/// Under which posture a call is logged.
#[derive(Debug, Clone, Copy, PartialEq, Eq, Structural)]
pub enum PostureContext {
    /// That of the account.
    Account(Posture),
    /// None: the tools about accounts are not gated by one.
    Infrastructure,
}

impl PostureContext {
    /// The posture of the account: `None` for the tools about accounts.
    pub fn posture(self) -> (r: Option<Posture>)
        ensures
            match self {
                PostureContext::Account(p) => r == Some(p),
                PostureContext::Infrastructure => r is None,
            },
    {
        match self {
            PostureContext::Account(p) => Some(p),
            PostureContext::Infrastructure => None,
        }
    }
}

/// The name under which the calls of an account are logged: none for the default
/// name.
pub fn audit_account(account: &AccountState) -> (r: Option<String>)
    ensures
        match r {
            Some(name) => name@ == account.id@ && account.id@ != DEFAULT_ACCOUNT_NAME@,
            None => account.id@ == DEFAULT_ACCOUNT_NAME@,
        },
{
    if same_text(account.id.as_str(), DEFAULT_ACCOUNT_NAME) {
        None
    } else {
        Some(account.id.as_str().to_owned())
    }
}

/// A failure that counts against the account's connection.
#[derive(Debug, Clone, Copy, PartialEq, Eq, Structural)]
pub enum FailureReason {
    ConnectionLost,
    Auth,
    Timeout,
    Protocol,
    Tls,
}

/// What an error counts as: `None` where it says nothing of the connection that
/// the breaker guards. Mail submission goes over a connection of its own.
pub open spec fn breaker_reason(err: RimapError) -> Option<FailureReason> {
    if err is Smtp {
        None
    } else {
        match error::error_code(err) {
            ErrorCode::ConnectionLost => Some(FailureReason::ConnectionLost),
            ErrorCode::Auth => Some(FailureReason::Auth),
            ErrorCode::Timeout => Some(FailureReason::Timeout),
            ErrorCode::ImapProtocol => Some(FailureReason::Protocol),
            ErrorCode::SmtpProtocol => Some(FailureReason::Protocol),
            ErrorCode::Tls => Some(FailureReason::Tls),
            _ => None,
        }
    }
}

/// What an error counts as against the account's connection.
pub fn rimap_error_to_breaker_reason(err: &RimapError) -> (r: Option<FailureReason>)
    ensures
        r == breaker_reason(*err),
{
    if let RimapError::Smtp { .. } = err {
        return None;
    }
    match err.code() {
        ErrorCode::ConnectionLost => Some(FailureReason::ConnectionLost),
        ErrorCode::Auth => Some(FailureReason::Auth),
        ErrorCode::Timeout => Some(FailureReason::Timeout),
        ErrorCode::ImapProtocol | ErrorCode::SmtpProtocol => Some(FailureReason::Protocol),
        ErrorCode::Tls => Some(FailureReason::Tls),
        ErrorCode::InvalidInput
        | ErrorCode::PostureDenied
        | ErrorCode::RateLimited
        | ErrorCode::CircuitOpen
        | ErrorCode::NotFound
        | ErrorCode::AttachmentTooLarge
        | ErrorCode::ProtectedFolder
        | ErrorCode::ExpungeDenied
        | ErrorCode::Config
        | ErrorCode::Internal
        | ErrorCode::NoAccount
        | ErrorCode::UnknownAccount
        | ErrorCode::Cancelled
        | ErrorCode::UidValidityChanged => None,
    }
}

/// What the account's guard is told after a dispatch.
#[derive(Debug, Clone, Copy, PartialEq, Eq, Structural)]
pub enum GuardSignal {
    Success,
    Failure(FailureReason),
    /// Nothing.
    Silent,
}

/// What the account's guard is told after a dispatch: its success, or a failure
/// that counts.
pub fn guard_signal(failure: Option<&RimapError>) -> (r: GuardSignal)
    ensures
        r == match failure {
            None => GuardSignal::Success,
            Some(err) => match breaker_reason(*err) {
                Some(reason) => GuardSignal::Failure(reason),
                None => GuardSignal::Silent,
            },
        },
{
    match failure {
        None => GuardSignal::Success,
        Some(err) => match rimap_error_to_breaker_reason(err) {
            Some(reason) => GuardSignal::Failure(reason),
            None => GuardSignal::Silent,
        },
    }
}

/// A failure of mail submission never counts against the account's connection.
pub proof fn law_submission_failures_are_neutral(code: ErrorCode, message: String)
    ensures
        breaker_reason(RimapError::Smtp { code, message }) is None,
{
}

/// The error of a call that took too long. It names the limit and the setting.
pub open spec fn ceiling_message(secs: u64) -> Seq<char> {
    "tool call exceeded the "@ + text::decimal(secs as nat)
        + "s ceiling (limits.tool_call_timeout_seconds)"@
}

/// The error of a call that took longer than `secs`.
pub fn ceiling_error(secs: u64) -> (r: RimapError)
    ensures
        r matches RimapError::Imap { code, message } && code is Timeout && message@
            == ceiling_message(secs),
{
    let mut message = "tool call exceeded the ".to_owned();
    let digits = decimal_of(secs);
    message.append(digits.as_str());
    message.append("s ceiling (limits.tool_call_timeout_seconds)");
    RimapError::Imap { code: ErrorCode::Timeout, message }
}

/// The outcome of a dispatch under a time limit of `secs`, and whether the
/// connection has to be given up. `finished` is what the dispatch came to, `None`
/// where it was cut off. What came in time passes unchanged, failures too.
pub fn under_ceiling<T>(secs: u64, finished: Option<Result<T, RimapError>>) -> (r: (
    Result<T, RimapError>,
    bool,
))
    ensures
        match finished {
            Some(outcome) => r.0 == outcome && !r.1,
            None => r.1 && (r.0 matches Err(RimapError::Imap { code, message }) && code is Timeout
                && message@ == ceiling_message(secs)),
        },
{
    match finished {
        Some(outcome) => (outcome, false),
        None => (Err(ceiling_error(secs)), true),
    }
}

/// What serves the tools of an account.
#[derive(Debug, Clone, Copy, PartialEq, Eq, Structural)]
pub enum Handler {
    ListFolders,
    MarkRead,
    MarkUnread,
    Flag,
    Unflag,
    MoveMessage,
    Search,
    FetchMessage,
    ListAttachments,
    DownloadAttachment,
    ExportMessages,
    CreateDraft,
    SendEmail,
    Forward,
    DeleteMessage,
    Expunge,
    CreateFolder,
    RenameFolder,
    DeleteFolder,
    AddLabel,
    RemoveLabel,
    ListLabels,
}

/// What serves a tool of an account. A sub-capability is served as its tool is.
pub open spec fn handler_of(name: ToolName) -> Option<Handler> {
    match name {
        ToolName::ListFolders => Some(Handler::ListFolders),
        ToolName::MarkRead => Some(Handler::MarkRead),
        ToolName::MarkUnread => Some(Handler::MarkUnread),
        ToolName::Flag => Some(Handler::Flag),
        ToolName::Unflag => Some(Handler::Unflag),
        ToolName::MoveMessage => Some(Handler::MoveMessage),
        ToolName::Search => Some(Handler::Search),
        ToolName::SearchAdvanced => Some(Handler::Search),
        ToolName::FetchMessage => Some(Handler::FetchMessage),
        ToolName::FetchMessageHtml => Some(Handler::FetchMessage),
        ToolName::ListAttachments => Some(Handler::ListAttachments),
        ToolName::DownloadAttachment => Some(Handler::DownloadAttachment),
        ToolName::ExportMessages => Some(Handler::ExportMessages),
        ToolName::CreateDraft => Some(Handler::CreateDraft),
        ToolName::CreateDraftHtml => Some(Handler::CreateDraft),
        ToolName::SendEmail => Some(Handler::SendEmail),
        ToolName::Forward => Some(Handler::Forward),
        ToolName::DeleteMessage => Some(Handler::DeleteMessage),
        ToolName::Expunge => Some(Handler::Expunge),
        ToolName::CreateFolder => Some(Handler::CreateFolder),
        ToolName::RenameFolder => Some(Handler::RenameFolder),
        ToolName::DeleteFolder => Some(Handler::DeleteFolder),
        ToolName::AddLabel => Some(Handler::AddLabel),
        ToolName::RemoveLabel => Some(Handler::RemoveLabel),
        ToolName::ListLabels => Some(Handler::ListLabels),
        ToolName::UseAccount => None,
        ToolName::ListAccounts => None,
    }
}

/// Whether a handler reads arguments.
pub open spec fn reads_arguments(handler: Handler) -> bool {
    !(handler is ListFolders)
}

impl Handler {
    /// Whether the handler reads arguments.
    pub fn takes_arguments(self) -> (r: bool)
        ensures
            r == !(self is ListFolders),
            r == reads_arguments(self),
    {
        match self {
            Handler::ListFolders => false,
            _ => true,
        }
    }
}

/// Finds what serves a tool of an account, and uses up the ticket. The tools about
/// accounts do not belong here.
pub fn dispatch_tool(ticket: DispatchTicket, name: ToolName) -> (r: Result<Handler, RimapError>)
    ensures
        match handler_of(name) {
            Some(handler) => r == Ok::<Handler, RimapError>(handler),
            None => r matches Err(RimapError::Internal(message)) && message@
                == "infrastructure tools must not reach dispatch_tool"@,
        },
{
    let handler = match name {
        ToolName::ListFolders => Handler::ListFolders,
        ToolName::MarkRead => Handler::MarkRead,
        ToolName::MarkUnread => Handler::MarkUnread,
        ToolName::Flag => Handler::Flag,
        ToolName::Unflag => Handler::Unflag,
        ToolName::MoveMessage => Handler::MoveMessage,
        ToolName::Search | ToolName::SearchAdvanced => Handler::Search,
        ToolName::FetchMessage | ToolName::FetchMessageHtml => Handler::FetchMessage,
        ToolName::ListAttachments => Handler::ListAttachments,
        ToolName::DownloadAttachment => Handler::DownloadAttachment,
        ToolName::ExportMessages => Handler::ExportMessages,
        ToolName::CreateDraft | ToolName::CreateDraftHtml => Handler::CreateDraft,
        ToolName::SendEmail => Handler::SendEmail,
        ToolName::Forward => Handler::Forward,
        ToolName::DeleteMessage => Handler::DeleteMessage,
        ToolName::Expunge => Handler::Expunge,
        ToolName::CreateFolder => Handler::CreateFolder,
        ToolName::RenameFolder => Handler::RenameFolder,
        ToolName::DeleteFolder => Handler::DeleteFolder,
        ToolName::AddLabel => Handler::AddLabel,
        ToolName::RemoveLabel => Handler::RemoveLabel,
        ToolName::ListLabels => Handler::ListLabels,
        ToolName::UseAccount | ToolName::ListAccounts => {
            return Err(
                RimapError::Internal("infrastructure tools must not reach dispatch_tool".to_owned()),
            );
        },
    };
    Ok(handler)
}

/// What serves the tools about accounts.
#[derive(Debug, Clone, Copy, PartialEq, Eq, Structural)]
pub enum InfrastructureHandler {
    UseAccount,
    ListAccounts,
}

/// The name that a handler of the tools about accounts goes by.
pub open spec fn infrastructure_handler_name(handler: InfrastructureHandler) -> Seq<char> {
    match handler {
        InfrastructureHandler::UseAccount => "use_account"@,
        InfrastructureHandler::ListAccounts => "list_accounts"@,
    }
}

/// Finds what serves a tool about accounts, once the rate limiter has admitted or
/// refused the call. The tools of accounts do not belong here.
pub fn dispatch_infrastructure(verdict: Result<(), RimapError>, name: ToolName) -> (r: Result<
    InfrastructureHandler,
    RimapError,
>)
    ensures
        match verdict {
            Err(refusal) => r == Err::<InfrastructureHandler, RimapError>(refusal),
            Ok(()) => match name {
                ToolName::UseAccount => r matches Ok(h) && h is UseAccount,
                ToolName::ListAccounts => r matches Ok(h) && h is ListAccounts,
                _ => r matches Err(RimapError::Internal(message)) && message@
                    == "not an infrastructure tool: "@ + tool::wire_name(name),
            },
        },
        verdict is Ok && tool::infrastructure(name) ==> (r matches Ok(h)
            && infrastructure_handler_name(h) == tool::wire_name(name)),
        r is Ok ==> verdict is Ok && tool::infrastructure(name),
{
    if let Err(refusal) = verdict {
        return Err(refusal);
    }
    match name {
        ToolName::UseAccount => Ok(InfrastructureHandler::UseAccount),
        ToolName::ListAccounts => Ok(InfrastructureHandler::ListAccounts),
        _ => {
            let mut message = "not an infrastructure tool: ".to_owned();
            message.append(name.as_str());
            Err(RimapError::Internal(message))
        },
    }
}

/// Every tool is served in exactly one of the two places.
pub proof fn law_every_tool_is_served_once(name: ToolName)
    ensures
        handler_of(name) is Some == !tool::infrastructure(name),
{
}

/// Refining a call by its arguments does not change what serves it.
pub proof fn law_refined_call_is_served_alike(
    base: ToolName,
    args: Option<crate::json::JsonV>,
)
    ensures
        handler_of(crate::mcp::tool_name::refined(base, args)) == handler_of(base),
{
}

/// The name that a handler goes by.
pub open spec fn handler_name(handler: Handler) -> Seq<char> {
    match handler {
        Handler::ListFolders => "list_folders"@,
        Handler::MarkRead => "mark_read"@,
        Handler::MarkUnread => "mark_unread"@,
        Handler::Flag => "flag"@,
        Handler::Unflag => "unflag"@,
        Handler::MoveMessage => "move_message"@,
        Handler::Search => "search"@,
        Handler::FetchMessage => "fetch_message"@,
        Handler::ListAttachments => "list_attachments"@,
        Handler::DownloadAttachment => "download_attachment"@,
        Handler::ExportMessages => "export_messages"@,
        Handler::CreateDraft => "create_draft"@,
        Handler::SendEmail => "send_email"@,
        Handler::Forward => "forward"@,
        Handler::DeleteMessage => "delete_message"@,
        Handler::Expunge => "expunge"@,
        Handler::CreateFolder => "create_folder"@,
        Handler::RenameFolder => "rename_folder"@,
        Handler::DeleteFolder => "delete_folder"@,
        Handler::AddLabel => "add_label"@,
        Handler::RemoveLabel => "remove_label"@,
        Handler::ListLabels => "list_labels"@,
    }
}

/// Each tool of an account is served by the handler of its own name.
pub proof fn law_tool_is_served_by_its_own_handler(tool: ToolName)
    requires
        !tool::infrastructure(tool),
        !(tool is SearchAdvanced),
        !(tool is FetchMessageHtml),
        !(tool is CreateDraftHtml),
    ensures
        handler_of(tool) matches Some(handler) && handler_name(handler) == tool::wire_name(tool),
{
}

/// A sub-capability is served by the handler whose name stands before the dot in its
/// own.
pub proof fn law_sub_capability_is_served_by_its_tool(tool: ToolName)
    requires
        tool is SearchAdvanced || tool is FetchMessageHtml || tool is CreateDraftHtml,
    ensures
        handler_of(tool) matches Some(handler) && handler_name(handler).push('.').is_prefix_of(
            tool::wire_name(tool),
        ),
{
    reveal_strlit("search");
    reveal_strlit("search.advanced_query");
    reveal_strlit("fetch_message");
    reveal_strlit("fetch_message.include_html");
    reveal_strlit("create_draft");
    reveal_strlit("create_draft.include_html");
    let whole = tool::wire_name(tool);
    let part = handler_name(handler_of(tool)->0).push('.');
    assert(part =~= whole.take(part.len() as int));
}

/// No two tools share a handler, but a sub-capability and its tool.
pub proof fn law_no_two_tools_share_a_handler(a: ToolName, b: ToolName)
    requires
        handler_of(a) is Some,
        handler_of(a) == handler_of(b),
        !(a is SearchAdvanced) && !(a is FetchMessageHtml) && !(a is CreateDraftHtml),
        !(b is SearchAdvanced) && !(b is FetchMessageHtml) && !(b is CreateDraftHtml),
    ensures
        a == b,
{
    law_tool_is_served_by_its_own_handler(a);
    law_tool_is_served_by_its_own_handler(b);
    tool::law_names_are_distinct(a, b);
}

/// The name that a reason goes by: that of the error code, without what the codes
/// have in common.
pub open spec fn reason_name(reason: FailureReason) -> Seq<char> {
    match reason {
        FailureReason::ConnectionLost => "CONNECTION_LOST"@,
        FailureReason::Auth => "AUTH"@,
        FailureReason::Timeout => "TIMEOUT"@,
        FailureReason::Protocol => "PROTOCOL"@,
        FailureReason::Tls => "TLS"@,
    }
}

/// A failure of the mail connection counts under the name of its own code: both
/// protocols' errors count as one.
pub proof fn law_failure_counts_under_its_own_name(code: ErrorCode, message: String)
    requires
        breaker_reason(RimapError::Imap { code, message }) is Some,
    ensures
        ({
            let name = reason_name(breaker_reason(RimapError::Imap { code, message })->0);
            let text = error::code_text(code);
            name.is_suffix_of(text)
        }),
{
    reveal_strlit("CONNECTION_LOST");
    reveal_strlit("AUTH");
    reveal_strlit("TIMEOUT");
    reveal_strlit("PROTOCOL");
    reveal_strlit("TLS");
    reveal_strlit("ERR_CONNECTION_LOST");
    reveal_strlit("ERR_AUTH");
    reveal_strlit("ERR_TIMEOUT");
    reveal_strlit("ERR_IMAP_PROTOCOL");
    reveal_strlit("ERR_SMTP_PROTOCOL");
    reveal_strlit("ERR_TLS");
    let name = reason_name(breaker_reason(RimapError::Imap { code, message })->0);
    let text = error::code_text(code);
    assert(name =~= text.skip(text.len() - name.len()));
}

/// Only a failure of a connection counts: not a denial, not a wrong argument, not what
/// is not there, and not a refusal by the limiter or the breaker itself, which would
/// otherwise keep itself open.
pub proof fn law_only_connection_failures_count(err: RimapError)
    ensures
        breaker_reason(err) is Some <==> !(err is Smtp) && (error::error_code(err) is ConnectionLost
            || error::error_code(err) is Auth || error::error_code(err) is Timeout
            || error::error_code(err) is Tls || error::error_code(err) is ImapProtocol
            || error::error_code(err) is SmtpProtocol),
        err is RateLimited || err is CircuitOpen || err is Internal || err is NoAccount
            || err is UnknownAccount || err is UidValidityChanged || err is AttachmentTooLarge
            ==> breaker_reason(err) is None,
{
}

/// A call that took too long is told how long it might have taken, in seconds, and which
/// setting says so.
pub proof fn law_cut_off_call_is_told_the_limit(secs: u64)
    ensures
        ceiling_message(secs) == "tool call exceeded the "@ + text::decimal(secs as nat)
            + "s ceiling (limits.tool_call_timeout_seconds)"@,
        text::worth(text::decimal(secs as nat)) == secs,
{
    text::law_decimal_is_worth_its_number(secs as nat);
}

/// A tool's handler reads arguments if and only if the catalog says that the tool takes
/// some.
pub proof fn law_handler_reads_what_the_catalog_says(tool: ToolName)
    requires
        handler_of(tool) is Some,
        crate::mcp::tool_catalog::tool_def(tool) is Some,
    ensures
        reads_arguments(handler_of(tool)->0) <==> !(crate::mcp::tool_catalog::tool_def(
            tool,
        )->0.input is NoArgs),
{
}

} // verus!
