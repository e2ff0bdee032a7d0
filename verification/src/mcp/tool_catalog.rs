//! The catalog of tools: what each is called, what it is for, and which shapes its
//! arguments and results have.
use vstd::prelude::*;
use vstd::string::*;

use crate::json;
use crate::json::{copy_json, set_member, Json, JsonV};
use crate::mcp::error::{ErrorData, ErrorDataV, INVALID_PARAMS};
use crate::mcp::response;
use crate::mcp::response::envelope_schema;
use crate::text;
use crate::tool;
use crate::tool::ToolName;

verus! {

pub const LIST_FOLDERS_DESCRIPTION: &'static str = "\
    List every IMAP folder on the account. Use it to discover folder names \
    before searching, moving, or fetching; most other tools take a `folder` \
    argument.";

pub const SEARCH_DESCRIPTION: &'static str = "\
    Find message UIDs in a folder by structured criteria (sender, subject, \
    date, flags, size). The UID-discovery step feeding fetch_message, \
    mark_read, move_message and other per-message tools; it also returns the \
    folder's uid_validity, which mark_read/mark_unread, flag/unflag, \
    add_label/remove_label/list_labels, move_message, delete_message, and \
    export_messages accept as an optional guard against UID reuse. Ordered \
    oldest-first by UID (set newest_first to reverse); paginate with \
    offset/limit and next_offset. Set thread_of_uid to retrieve a whole \
    conversation instead of a filtered search.";

pub const FETCH_MESSAGE_DESCRIPTION: &'static str = "\
    Fetch one message's envelope metadata and sanitized text body by folder \
    and uid (get the uid from search). Attachments are not inlined; list \
    them with list_attachments and retrieve with download_attachment.";

pub const LIST_ATTACHMENTS_DESCRIPTION: &'static str = "\
    List a message's attachments with filename, MIME type, size, and the \
    part_id. Provides the part_id that download_attachment requires; get the \
    message uid from search first.";

pub const DOWNLOAD_ATTACHMENT_DESCRIPTION: &'static str = "\
    Download one attachment (by folder, uid, and the part_id from \
    list_attachments) into the server's download sandbox and return its \
    path. File bytes are not returned inline.";

pub const EXPORT_MESSAGES_DESCRIPTION: &'static str = "\
    Export multiple messages by UID as a single git am-able mbox file in the \
    download sandbox. Discover UIDs with `search` and pass its uid_validity. \
    Disabled unless enabled in [security.tools].";

pub const MARK_READ_DESCRIPTION: &'static str = "\
    Mark messages read (Seen) in a folder. Accepts a single `uid` or up to \
    100 `uids` from search. Reversible with mark_unread.";

pub const MARK_UNREAD_DESCRIPTION: &'static str = "\
    Mark messages unread (clear Seen) in a folder. Accepts a single `uid` or \
    up to 100 `uids`. Inverse of mark_read.";

pub const FLAG_DESCRIPTION: &'static str = "\
    Add the flagged (starred) status to messages in a folder. Accepts a \
    single `uid` or up to 100 `uids` from search. Remove it with unflag.";

pub const UNFLAG_DESCRIPTION: &'static str = "\
    Remove the flagged (starred) status from messages. Accepts a single \
    `uid` or up to 100 `uids`. Inverse of flag.";

pub const ADD_LABEL_DESCRIPTION: &'static str = "\
    Add an IMAP keyword label to messages in a folder. Accepts a single \
    `uid` or up to 100 `uids` from search. Remove it with remove_label; \
    inspect current labels with list_labels.";

pub const REMOVE_LABEL_DESCRIPTION: &'static str = "\
    Remove an IMAP keyword label from messages. Accepts a single `uid` or up \
    to 100 `uids`. Inverse of add_label.";

pub const LIST_LABELS_DESCRIPTION: &'static str = "\
    List the IMAP keyword labels set on a single message (by folder and uid \
    from search).";

pub const MOVE_MESSAGE_DESCRIPTION: &'static str = "\
    Move messages from one folder to another (destination by name; see \
    list_folders). Accepts a single `uid` or up to 100 `uids` from search. \
    Moved messages receive new UIDs in the destination folder.";

pub const CREATE_DRAFT_DESCRIPTION: &'static str = "\
    Save a new email as a draft flagged $PendingReview for a human to review \
    and send from their own mail client. This ends the workflow: the draft \
    cannot be sent through this server, so do not follow up with send_email \
    (that would send a duplicate and bypass the human-review gate). Optional \
    attachments are read from the server's download sandbox by path (only \
    files the server downloaded/exported or the operator placed there; max \
    20 files, 10 MiB each, 25 MiB total). Optional body_html is sanitized \
    (scripts, event handlers, remote content, and javascript: URLs are \
    stripped) and always sent alongside the required plain-text body_text as \
    a text/plain alternative; supplying body_html requires the full posture \
    (create_draft.include_html).";

pub const SEND_EMAIL_DESCRIPTION: &'static str = "\
    Send a new email immediately via SMTP from the account. This is an \
    autonomous send; when a human should review first, use create_draft \
    instead. Requires the full or destructive posture; a lower posture is \
    denied with ERR_POSTURE_DENIED (see the rimap://docs/postures resource). \
    Optional attachments are read from the server's download sandbox by path \
    (only files the server downloaded/exported or the operator placed there; \
    max 20 files, 10 MiB each, 25 MiB total). Optional body_html is \
    sanitized and always sent alongside the required plain-text body_text as \
    a text/plain alternative.";

pub const FORWARD_DESCRIPTION: &'static str = "\
    Forward an existing message (by folder + uid) to new recipients as a \
    message/rfc822 attachment, with an optional comment. Re-sends the \
    account's own stored mail via SMTP; the original is attached verbatim. \
    Same posture gate as send_email.";

pub const DELETE_MESSAGE_DESCRIPTION: &'static str = "\
    Delete a single message (by folder and uid) by moving it to Trash, which \
    is recoverable. This does not erase it; permanent removal is the \
    separate, irreversible expunge step. Pass expected_uidvalidity to guard \
    against a changed folder.";

pub const EXPUNGE_DESCRIPTION: &'static str = "\
    Permanently and irreversibly erase every message already flagged for \
    deletion in a folder; the second step after delete_message. Only allowed \
    for folders the operator has allowlisted in the server's \
    [security].expunge_folders (empty = deny-all by default) and at the \
    destructive posture. A denial returns ERR_EXPUNGE_DENIED (folder not \
    allowlisted) or ERR_POSTURE_DENIED (posture too low); neither is \
    overridable through MCP, so the operator must change the server config. \
    See the rimap://docs/postures resource.";

pub const CREATE_FOLDER_DESCRIPTION: &'static str = "\
    Create a new IMAP folder by name. A name colliding with a protected \
    folder (INBOX, Sent, Drafts, Trash by default, set by the server's \
    [security].protected_folders) is refused with ERR_PROTECTED_FOLDER. \
    Requires the full or destructive posture, else ERR_POSTURE_DENIED. Both \
    are server-side policy the agent cannot override; see the \
    rimap://docs/postures resource.";

pub const RENAME_FOLDER_DESCRIPTION: &'static str = "\
    Rename an IMAP folder. Renaming a protected folder or reusing a \
    protected name (INBOX, Sent, Drafts, Trash by default, from the server's \
    [security].protected_folders) is refused with ERR_PROTECTED_FOLDER. \
    Requires the full or destructive posture, else ERR_POSTURE_DENIED. These \
    are server-side policy, not overridable through MCP; see the \
    rimap://docs/postures resource.";

pub const DELETE_FOLDER_DESCRIPTION: &'static str = "\
    Delete an IMAP folder and everything inside it; this is irreversible. A \
    protected folder (INBOX, Sent, Drafts, Trash by default, from the \
    server's [security].protected_folders) is refused with \
    ERR_PROTECTED_FOLDER, and a folder not allowlisted in \
    [security].expunge_folders is refused with ERR_EXPUNGE_DENIED. Requires \
    the destructive posture, else ERR_POSTURE_DENIED. All are server-side \
    policy the agent cannot override; see the rimap://docs/postures \
    resource.";

pub const USE_ACCOUNT_DESCRIPTION: &'static str = "\
    Select the active account so tools/list advertises its tools. Optional: \
    every account stays callable by its <account>.<tool> name regardless of \
    which is active. Discover account names with list_accounts.";

pub const LIST_ACCOUNTS_DESCRIPTION: &'static str = "\
    List the configured email accounts (name and whether SMTP is set up). In \
    multi-account setups, start here to learn the <account> prefix for \
    namespaced tool calls; read the rimap://accounts/<name> resource for an \
    account's posture and available tools.";

/// The shape of a tool's arguments.
#[derive(Debug, Clone, Copy, PartialEq, Eq, Structural)]
pub enum InputShape {
    NoArgs,
    Search,
    FetchMessage,
    ListAttachments,
    DownloadAttachment,
    ExportMessages,
    Flag,
    Label,
    ListLabels,
    MoveMessage,
    CreateDraft,
    SendEmail,
    Forward,
    DeleteMessage,
    Expunge,
    CreateFolder,
    RenameFolder,
    DeleteFolder,
    UseAccount,
}

/// The shape of the trusted part of a tool's result.
#[derive(Debug, Clone, Copy, PartialEq, Eq, Structural)]
pub enum MetaShape {
    ListFolders,
    Search,
    FetchMessage,
    ListAttachments,
    DownloadAttachment,
    ExportMessages,
    Flags,
    Labels,
    ListLabels,
    MoveMessage,
    CreateDraft,
    SendEmail,
    Forward,
    DeleteMessage,
    Expunge,
    CreateFolder,
    RenameFolder,
    DeleteFolder,
    UseAccount,
    ListAccounts,
}

/// The shape of the untrusted part of a tool's result.
#[derive(Debug, Clone, Copy, PartialEq, Eq, Structural)]
pub enum UntrustedShape {
    Unit,
    Search,
    FetchMessage,
    ListAttachments,
    DownloadAttachment,
}

/// The definition of a tool.
pub struct ToolDef {
    pub title: &'static str,
    pub description: &'static str,
    pub input: InputShape,
    pub meta: MetaShape,
    pub untrusted: UntrustedShape,
}

/// The definition of a tool by value.
pub struct ToolDefV {
    pub title: Seq<char>,
    pub description: Seq<char>,
    pub input: InputShape,
    pub meta: MetaShape,
    pub untrusted: UntrustedShape,
}

impl View for ToolDef {
    type V = ToolDefV;

    open spec fn view(&self) -> ToolDefV {
        ToolDefV {
            title: self.title@,
            description: self.description@,
            input: self.input,
            meta: self.meta,
            untrusted: self.untrusted,
        }
    }
}

/// A sub-capability, which clients know only as a part of its tool.
pub open spec fn sub_capability(name: ToolName) -> bool {
    name is SearchAdvanced || name is FetchMessageHtml || name is CreateDraftHtml
}

/// The title of a tool; empty for a sub-capability.
pub open spec fn tool_title(name: ToolName) -> Seq<char> {
    match name {
        ToolName::ListFolders => "List IMAP Folders"@,
        ToolName::Search => "Search Messages"@,
        ToolName::FetchMessage => "Fetch Message"@,
        ToolName::ListAttachments => "List Message Attachments"@,
        ToolName::DownloadAttachment => "Download Attachment"@,
        ToolName::ExportMessages => "Export Messages"@,
        ToolName::MarkRead => "Mark Messages Read"@,
        ToolName::MarkUnread => "Mark Messages Unread"@,
        ToolName::Flag => "Flag Messages"@,
        ToolName::Unflag => "Unflag Messages"@,
        ToolName::AddLabel => "Add Label to Messages"@,
        ToolName::RemoveLabel => "Remove Label from Messages"@,
        ToolName::ListLabels => "List Labels on Message"@,
        ToolName::MoveMessage => "Move Messages"@,
        ToolName::CreateDraft => "Create Draft Email"@,
        ToolName::SendEmail => "Send Email"@,
        ToolName::Forward => "Forward Message"@,
        ToolName::DeleteMessage => "Delete Message"@,
        ToolName::Expunge => "Expunge Folder"@,
        ToolName::CreateFolder => "Create IMAP Folder"@,
        ToolName::RenameFolder => "Rename IMAP Folder"@,
        ToolName::DeleteFolder => "Delete IMAP Folder"@,
        ToolName::UseAccount => "Select Active Account"@,
        ToolName::ListAccounts => "List Email Accounts"@,
        _ => Seq::empty(),
    }
}

/// The description of a tool; empty for a sub-capability.
pub open spec fn tool_description(name: ToolName) -> Seq<char> {
    match name {
        ToolName::ListFolders => LIST_FOLDERS_DESCRIPTION@,
        ToolName::Search => SEARCH_DESCRIPTION@,
        ToolName::FetchMessage => FETCH_MESSAGE_DESCRIPTION@,
        ToolName::ListAttachments => LIST_ATTACHMENTS_DESCRIPTION@,
        ToolName::DownloadAttachment => DOWNLOAD_ATTACHMENT_DESCRIPTION@,
        ToolName::ExportMessages => EXPORT_MESSAGES_DESCRIPTION@,
        ToolName::MarkRead => MARK_READ_DESCRIPTION@,
        ToolName::MarkUnread => MARK_UNREAD_DESCRIPTION@,
        ToolName::Flag => FLAG_DESCRIPTION@,
        ToolName::Unflag => UNFLAG_DESCRIPTION@,
        ToolName::AddLabel => ADD_LABEL_DESCRIPTION@,
        ToolName::RemoveLabel => REMOVE_LABEL_DESCRIPTION@,
        ToolName::ListLabels => LIST_LABELS_DESCRIPTION@,
        ToolName::MoveMessage => MOVE_MESSAGE_DESCRIPTION@,
        ToolName::CreateDraft => CREATE_DRAFT_DESCRIPTION@,
        ToolName::SendEmail => SEND_EMAIL_DESCRIPTION@,
        ToolName::Forward => FORWARD_DESCRIPTION@,
        ToolName::DeleteMessage => DELETE_MESSAGE_DESCRIPTION@,
        ToolName::Expunge => EXPUNGE_DESCRIPTION@,
        ToolName::CreateFolder => CREATE_FOLDER_DESCRIPTION@,
        ToolName::RenameFolder => RENAME_FOLDER_DESCRIPTION@,
        ToolName::DeleteFolder => DELETE_FOLDER_DESCRIPTION@,
        ToolName::UseAccount => USE_ACCOUNT_DESCRIPTION@,
        ToolName::ListAccounts => LIST_ACCOUNTS_DESCRIPTION@,
        _ => Seq::empty(),
    }
}

/// The shapes of a tool's arguments and of the two parts of its result.
pub open spec fn tool_shapes(name: ToolName) -> (InputShape, MetaShape, UntrustedShape) {
    match name {
        ToolName::ListFolders => (InputShape::NoArgs, MetaShape::ListFolders, UntrustedShape::Unit),
        ToolName::Search => (InputShape::Search, MetaShape::Search, UntrustedShape::Search),
        ToolName::FetchMessage => (
            InputShape::FetchMessage,
            MetaShape::FetchMessage,
            UntrustedShape::FetchMessage,
        ),
        ToolName::ListAttachments => (
            InputShape::ListAttachments,
            MetaShape::ListAttachments,
            UntrustedShape::ListAttachments,
        ),
        ToolName::DownloadAttachment => (
            InputShape::DownloadAttachment,
            MetaShape::DownloadAttachment,
            UntrustedShape::DownloadAttachment,
        ),
        ToolName::ExportMessages => (
            InputShape::ExportMessages,
            MetaShape::ExportMessages,
            UntrustedShape::Unit,
        ),
        ToolName::MarkRead => (InputShape::Flag, MetaShape::Flags, UntrustedShape::Unit),
        ToolName::MarkUnread => (InputShape::Flag, MetaShape::Flags, UntrustedShape::Unit),
        ToolName::Flag => (InputShape::Flag, MetaShape::Flags, UntrustedShape::Unit),
        ToolName::Unflag => (InputShape::Flag, MetaShape::Flags, UntrustedShape::Unit),
        ToolName::AddLabel => (InputShape::Label, MetaShape::Labels, UntrustedShape::Unit),
        ToolName::RemoveLabel => (InputShape::Label, MetaShape::Labels, UntrustedShape::Unit),
        ToolName::ListLabels => (
            InputShape::ListLabels,
            MetaShape::ListLabels,
            UntrustedShape::Unit,
        ),
        ToolName::MoveMessage => (
            InputShape::MoveMessage,
            MetaShape::MoveMessage,
            UntrustedShape::Unit,
        ),
        ToolName::CreateDraft => (
            InputShape::CreateDraft,
            MetaShape::CreateDraft,
            UntrustedShape::Unit,
        ),
        ToolName::SendEmail => (InputShape::SendEmail, MetaShape::SendEmail, UntrustedShape::Unit),
        ToolName::Forward => (InputShape::Forward, MetaShape::Forward, UntrustedShape::Unit),
        ToolName::DeleteMessage => (
            InputShape::DeleteMessage,
            MetaShape::DeleteMessage,
            UntrustedShape::Unit,
        ),
        ToolName::Expunge => (InputShape::Expunge, MetaShape::Expunge, UntrustedShape::Unit),
        ToolName::CreateFolder => (
            InputShape::CreateFolder,
            MetaShape::CreateFolder,
            UntrustedShape::Unit,
        ),
        ToolName::RenameFolder => (
            InputShape::RenameFolder,
            MetaShape::RenameFolder,
            UntrustedShape::Unit,
        ),
        ToolName::DeleteFolder => (
            InputShape::DeleteFolder,
            MetaShape::DeleteFolder,
            UntrustedShape::Unit,
        ),
        ToolName::UseAccount => (
            InputShape::UseAccount,
            MetaShape::UseAccount,
            UntrustedShape::Unit,
        ),
        ToolName::ListAccounts => (
            InputShape::NoArgs,
            MetaShape::ListAccounts,
            UntrustedShape::Unit,
        ),
        _ => (InputShape::NoArgs, MetaShape::ListFolders, UntrustedShape::Unit),
    }
}

/// The definition of a tool: `None` for a sub-capability.
pub open spec fn tool_def(name: ToolName) -> Option<ToolDefV> {
    if sub_capability(name) {
        None
    } else {
        Some(
            ToolDefV {
                title: tool_title(name),
                description: tool_description(name),
                input: tool_shapes(name).0,
                meta: tool_shapes(name).1,
                untrusted: tool_shapes(name).2,
            },
        )
    }
}

/// The definition of a tool: `None` for a sub-capability, which is advertised
/// under its tool.
pub fn tool_def_parts(name: ToolName) -> (r: Option<ToolDef>)
    ensures
        r is Some == tool_def(name) is Some,
        r matches Some(def) ==> Some(def@) == tool_def(name),
{
    let (title, description, input, meta, untrusted) = match name {
        ToolName::ListFolders => (
            "List IMAP Folders",
            LIST_FOLDERS_DESCRIPTION,
            InputShape::NoArgs,
            MetaShape::ListFolders,
            UntrustedShape::Unit,
        ),
        ToolName::Search => (
            "Search Messages",
            SEARCH_DESCRIPTION,
            InputShape::Search,
            MetaShape::Search,
            UntrustedShape::Search,
        ),
        ToolName::FetchMessage => (
            "Fetch Message",
            FETCH_MESSAGE_DESCRIPTION,
            InputShape::FetchMessage,
            MetaShape::FetchMessage,
            UntrustedShape::FetchMessage,
        ),
        ToolName::ListAttachments => (
            "List Message Attachments",
            LIST_ATTACHMENTS_DESCRIPTION,
            InputShape::ListAttachments,
            MetaShape::ListAttachments,
            UntrustedShape::ListAttachments,
        ),
        ToolName::DownloadAttachment => (
            "Download Attachment",
            DOWNLOAD_ATTACHMENT_DESCRIPTION,
            InputShape::DownloadAttachment,
            MetaShape::DownloadAttachment,
            UntrustedShape::DownloadAttachment,
        ),
        ToolName::ExportMessages => (
            "Export Messages",
            EXPORT_MESSAGES_DESCRIPTION,
            InputShape::ExportMessages,
            MetaShape::ExportMessages,
            UntrustedShape::Unit,
        ),
        ToolName::MarkRead => (
            "Mark Messages Read",
            MARK_READ_DESCRIPTION,
            InputShape::Flag,
            MetaShape::Flags,
            UntrustedShape::Unit,
        ),
        ToolName::MarkUnread => (
            "Mark Messages Unread",
            MARK_UNREAD_DESCRIPTION,
            InputShape::Flag,
            MetaShape::Flags,
            UntrustedShape::Unit,
        ),
        ToolName::Flag => (
            "Flag Messages",
            FLAG_DESCRIPTION,
            InputShape::Flag,
            MetaShape::Flags,
            UntrustedShape::Unit,
        ),
        ToolName::Unflag => (
            "Unflag Messages",
            UNFLAG_DESCRIPTION,
            InputShape::Flag,
            MetaShape::Flags,
            UntrustedShape::Unit,
        ),
        ToolName::AddLabel => (
            "Add Label to Messages",
            ADD_LABEL_DESCRIPTION,
            InputShape::Label,
            MetaShape::Labels,
            UntrustedShape::Unit,
        ),
        ToolName::RemoveLabel => (
            "Remove Label from Messages",
            REMOVE_LABEL_DESCRIPTION,
            InputShape::Label,
            MetaShape::Labels,
            UntrustedShape::Unit,
        ),
        ToolName::ListLabels => (
            "List Labels on Message",
            LIST_LABELS_DESCRIPTION,
            InputShape::ListLabels,
            MetaShape::ListLabels,
            UntrustedShape::Unit,
        ),
        ToolName::MoveMessage => (
            "Move Messages",
            MOVE_MESSAGE_DESCRIPTION,
            InputShape::MoveMessage,
            MetaShape::MoveMessage,
            UntrustedShape::Unit,
        ),
        ToolName::CreateDraft => (
            "Create Draft Email",
            CREATE_DRAFT_DESCRIPTION,
            InputShape::CreateDraft,
            MetaShape::CreateDraft,
            UntrustedShape::Unit,
        ),
        ToolName::SendEmail => (
            "Send Email",
            SEND_EMAIL_DESCRIPTION,
            InputShape::SendEmail,
            MetaShape::SendEmail,
            UntrustedShape::Unit,
        ),
        ToolName::Forward => (
            "Forward Message",
            FORWARD_DESCRIPTION,
            InputShape::Forward,
            MetaShape::Forward,
            UntrustedShape::Unit,
        ),
        ToolName::DeleteMessage => (
            "Delete Message",
            DELETE_MESSAGE_DESCRIPTION,
            InputShape::DeleteMessage,
            MetaShape::DeleteMessage,
            UntrustedShape::Unit,
        ),
        ToolName::Expunge => (
            "Expunge Folder",
            EXPUNGE_DESCRIPTION,
            InputShape::Expunge,
            MetaShape::Expunge,
            UntrustedShape::Unit,
        ),
        ToolName::CreateFolder => (
            "Create IMAP Folder",
            CREATE_FOLDER_DESCRIPTION,
            InputShape::CreateFolder,
            MetaShape::CreateFolder,
            UntrustedShape::Unit,
        ),
        ToolName::RenameFolder => (
            "Rename IMAP Folder",
            RENAME_FOLDER_DESCRIPTION,
            InputShape::RenameFolder,
            MetaShape::RenameFolder,
            UntrustedShape::Unit,
        ),
        ToolName::DeleteFolder => (
            "Delete IMAP Folder",
            DELETE_FOLDER_DESCRIPTION,
            InputShape::DeleteFolder,
            MetaShape::DeleteFolder,
            UntrustedShape::Unit,
        ),
        ToolName::UseAccount => (
            "Select Active Account",
            USE_ACCOUNT_DESCRIPTION,
            InputShape::UseAccount,
            MetaShape::UseAccount,
            UntrustedShape::Unit,
        ),
        ToolName::ListAccounts => (
            "List Email Accounts",
            LIST_ACCOUNTS_DESCRIPTION,
            InputShape::NoArgs,
            MetaShape::ListAccounts,
            UntrustedShape::Unit,
        ),
        ToolName::SearchAdvanced | ToolName::FetchMessageHtml | ToolName::CreateDraftHtml => {
            return None;
        },
    };
    Some(ToolDef { title, description, input, meta, untrusted })
}

/// The schema of a tool that takes no arguments: an object without properties.
pub open spec fn no_args_schema_v() -> JsonV {
    JsonV::Object(
        map!["type"@ => JsonV::Str("object"@), "properties"@ => JsonV::Object(Map::empty())],
    )
}

/// The schema of a tool that takes no arguments. It says that it is an object,
/// since clients insist on that.
pub fn no_args_schema() -> (r: Vec<(String, Json)>)
    ensures
        JsonV::Object(json::object_view(r@)) == no_args_schema_v(),
{
    let mut r: Vec<(String, Json)> = Vec::new();
    set_member(&mut r, "type", Json::Str("object".to_owned()));
    let none: Vec<(String, Json)> = Vec::new();
    assert(json::object_view(none@) =~= Map::empty());
    set_member(&mut r, "properties", Json::Object(none));
    r
}

/// What a client may expect of a tool's effects.
#[derive(Debug, Clone, Copy, PartialEq, Eq, Structural)]
pub struct ToolAnnotationHints {
    pub read_only: bool,
    pub destructive: bool,
    pub idempotent: bool,
    pub open_world: bool,
}

/// What a client is told of a tool besides its definition.
pub struct ToolAnnotations {
    pub title: Option<String>,
    pub read_only_hint: Option<bool>,
    pub destructive_hint: Option<bool>,
    pub idempotent_hint: Option<bool>,
    pub open_world_hint: Option<bool>,
}

/// A tool as it is advertised.
pub struct Tool {
    pub tool: ToolName,
    pub name: String,
    pub title: Option<String>,
    pub description: Option<String>,
    /// The schema of the arguments.
    pub input_schema: Json,
    /// The schema of the results.
    pub output_schema: Json,
    pub annotations: Option<ToolAnnotations>,
}

/// What a tool's entry is made from besides its definition: the hints, and the
/// schemas as they are derived from the types of its arguments and results.
pub struct ToolSource {
    pub hints: ToolAnnotationHints,
    pub input_schema: Json,
    pub output_schema: Json,
}

/// The annotations of a tool by value.
#[verifier::ext_equal]
pub struct ToolAnnotationsV {
    pub title: Option<Seq<char>>,
    pub read_only_hint: Option<bool>,
    pub destructive_hint: Option<bool>,
    pub idempotent_hint: Option<bool>,
    pub open_world_hint: Option<bool>,
}

impl View for ToolAnnotations {
    type V = ToolAnnotationsV;

    open spec fn view(&self) -> ToolAnnotationsV {
        ToolAnnotationsV {
            title: text::text_view(self.title),
            read_only_hint: self.read_only_hint,
            destructive_hint: self.destructive_hint,
            idempotent_hint: self.idempotent_hint,
            open_world_hint: self.open_world_hint,
        }
    }
}

/// A tool as it is advertised, by value.
#[verifier::ext_equal]
pub struct ToolV {
    pub tool: ToolName,
    pub name: Seq<char>,
    pub title: Option<Seq<char>>,
    pub description: Option<Seq<char>>,
    pub input_schema: JsonV,
    pub output_schema: JsonV,
    pub annotations: Option<ToolAnnotationsV>,
}

impl View for Tool {
    type V = ToolV;

    open spec fn view(&self) -> ToolV {
        ToolV {
            tool: self.tool,
            name: self.name@,
            title: text::text_view(self.title),
            description: text::text_view(self.description),
            input_schema: self.input_schema@,
            output_schema: self.output_schema@,
            annotations: match self.annotations {
                Some(a) => Some(a@),
                None => None,
            },
        }
    }
}

/// The annotations of a tool of the given title and hints.
pub open spec fn annotations_v(title: Seq<char>, hints: ToolAnnotationHints) -> ToolAnnotationsV {
    ToolAnnotationsV {
        title: Some(title),
        read_only_hint: Some(hints.read_only),
        destructive_hint: Some(hints.destructive),
        idempotent_hint: Some(hints.idempotent),
        open_world_hint: Some(hints.open_world),
    }
}

/// The annotations of a tool: its title once more, and each hint.
pub fn build_annotations(title: &str, hints: ToolAnnotationHints) -> (r: ToolAnnotations)
    ensures
        r@ == annotations_v(title@, hints),
{
    ToolAnnotations {
        title: Some(title.to_owned()),
        read_only_hint: Some(hints.read_only),
        destructive_hint: Some(hints.destructive),
        idempotent_hint: Some(hints.idempotent),
        open_world_hint: Some(hints.open_world),
    }
}

/// A derived schema as it is published.
pub open spec fn published(derived: JsonV) -> JsonV {
    JsonV::Object(response::untitled(derived))
}

/// The schema of arguments of this shape as it is published: where there are none,
/// one of its own in place of the derived one.
pub open spec fn published_input(shape: InputShape, derived: JsonV) -> JsonV {
    if shape is NoArgs {
        no_args_schema_v()
    } else {
        published(derived)
    }
}

/// A derived schema as it is published.
pub fn publish(derived: Json) -> (r: Json)
    ensures
        r@ == published(derived@),
{
    Json::Object(envelope_schema(derived))
}

/// The schema of arguments of this shape as it is published.
pub fn publish_input(shape: InputShape, derived: Json) -> (r: Json)
    ensures
        r@ == published_input(shape, derived@),
{
    match shape {
        InputShape::NoArgs => Json::Object(no_args_schema()),
        _ => publish(derived),
    }
}

/// A tool's entry in the catalog: `None` for a sub-capability.
pub open spec fn catalog_entry(name: ToolName, source: ToolSource) -> Option<ToolV> {
    match tool_def(name) {
        None => None,
        Some(def) => Some(
            ToolV {
                tool: name,
                name: tool::wire_name(name),
                title: Some(def.title),
                description: Some(def.description),
                input_schema: published_input(def.input, source.input_schema@),
                output_schema: published(source.output_schema@),
                annotations: Some(annotations_v(def.title, source.hints)),
            },
        ),
    }
}

/// A tool's entry in the catalog: `None` for a sub-capability.
pub fn build_tool_def(name: ToolName, source: &ToolSource) -> (r: Option<Tool>)
    ensures
        match r {
            Some(entry) => catalog_entry(name, *source) == Some(entry@),
            None => catalog_entry(name, *source) is None,
        },
{
    match tool_def_parts(name) {
        None => None,
        Some(def) => Some(
            Tool {
                tool: name,
                name: name.as_str().to_owned(),
                title: Some(def.title.to_owned()),
                description: Some(def.description.to_owned()),
                input_schema: publish_input(def.input, copy_json(&source.input_schema)),
                output_schema: publish(copy_json(&source.output_schema)),
                annotations: Some(build_annotations(def.title, source.hints)),
            },
        ),
    }
}

/// Whether a tool has an entry in the catalog.
pub fn is_defined(name: ToolName) -> (r: bool)
    ensures
        r == !sub_capability(name),
{
    match name {
        ToolName::SearchAdvanced | ToolName::FetchMessageHtml | ToolName::CreateDraftHtml => false,
        _ => true,
    }
}

/// The tools of `tools` that have an entry in the catalog, in their order.
pub open spec fn defined(tools: Seq<ToolName>) -> Seq<ToolName> {
    tools.filter(|t: ToolName| !sub_capability(t))
}

/// A tool that the catalog lists of some tools is one of them, and no
/// sub-capability.
pub proof fn lemma_defined(tools: Seq<ToolName>, j: int)
    requires
        0 <= j < defined(tools).len(),
    ensures
        !sub_capability(defined(tools)[j]),
        tools.contains(defined(tools)[j]),
    decreases tools.len(),
{
    reveal(Seq::filter);
    if tools.len() > 0 {
        let rest = tools.drop_last();
        if j < defined(rest).len() {
            lemma_defined(rest, j);
            let k = choose|k: int| 0 <= k < rest.len() && rest[k] == defined(rest)[j];
            assert(tools[k] == defined(tools)[j]);
        } else {
            assert(tools[tools.len() - 1] == defined(tools)[j]);
        }
    }
}

/// The tools of a list that have an entry in the catalog, in their order.
pub fn defined_tools(tools: &Vec<ToolName>) -> (r: Vec<ToolName>)
    ensures
        r@ == defined(tools@),
{
    let mut r: Vec<ToolName> = Vec::new();
    let ghost keep = |t: ToolName| !sub_capability(t);
    for i in 0..tools.len()
        invariant
            keep == (|t: ToolName| !sub_capability(t)),
            r@ == tools@.take(i as int).filter(keep),
    {
        assert(tools@.take(i + 1).drop_last() =~= tools@.take(i as int));
        reveal(Seq::filter);
        if is_defined(tools[i]) {
            r.push(tools[i]);
        }
    }
    assert(tools@.take(tools@.len() as int) =~= tools@);
    r
}

/// The tools with an entry in the catalog, in order of declaration.
pub fn build_tool_defs() -> (r: Vec<ToolName>)
    ensures
        r@ == defined(tool::all_tools()),
{
    defined_tools(&ToolName::all())
}

/// The catalog holds twenty-four tools.
#[verifier::rlimit(40)]
#[verifier::spinoff_prover]
pub proof fn law_catalog_size()
    ensures
        defined(tool::all_tools()).len() == 24,
{
    let keep = |t: ToolName| !sub_capability(t);
    let all = tool::all_tools();
    reveal_with_fuel(Seq::filter, 28);
    assert(all.filter(keep).len() == 24);
}

/// A tool has an entry in the catalog unless it is a sub-capability, and its entry
/// carries its name on the wire, a title that the annotations repeat, a description,
/// and an object for each of its schemas.
pub proof fn law_entry_is_complete(name: ToolName, source: ToolSource)
    ensures
        catalog_entry(name, source) is Some == !sub_capability(name),
        catalog_entry(name, source) matches Some(entry) ==> {
            &&& entry.name == tool::wire_name(name)
            &&& entry.title is Some
            &&& entry.description is Some
            &&& entry.input_schema is Object
            &&& entry.output_schema is Object
            &&& entry.annotations matches Some(a) && a.title == entry.title
        },
{
}

/// No advertised tool has a dot in its name: what a client calls with a dot in it
/// names an account or a sub-capability.
pub proof fn law_catalog_names_have_no_dot(name: ToolName)
    requires
        !sub_capability(name),
    ensures
        !tool::wire_name(name).contains('.'),
{
    tool::lemma_undotted_names(name);
}

/// The number of tools on a page of the tool list.
pub const TOOLS_PER_PAGE: usize = 25;

/// The text of `{:?}` for a text.
pub uninterp spec fn debug_text(s: Seq<char>) -> Seq<char>;

/// Formats a text with `{:?}`. What comes out depends on the text alone.
#[verifier::external_body]
fn quoted(s: &str) -> (r: String)
    ensures
        r@ == debug_text(s@),
{
    format!("{s:?}")
}

/// A decimal digit.
pub open spec fn is_digit(c: char) -> bool {
    '0' <= c <= '9'
}

/// The number that a row of digits stands for.
pub open spec fn digits_value(s: Seq<char>) -> nat
    decreases s.len(),
{
    if s.len() == 0 {
        0
    } else {
        digits_value(s.drop_last()) * 10 + (s.last() as nat - '0' as nat) as nat
    }
}

/// The digits of a cursor: it may begin with a plus sign.
pub open spec fn cursor_digits(cursor: Seq<char>) -> Seq<char> {
    if cursor.len() > 0 && cursor[0] == '+' {
        cursor.skip(1)
    } else {
        cursor
    }
}

/// The offset that a cursor stands for: `None` where it is no number that fits.
pub open spec fn cursor_offset(cursor: Seq<char>) -> Option<nat> {
    let digits = cursor_digits(cursor);
    if digits.len() > 0 && (forall|i: int|
        0 <= i < digits.len() ==> is_digit(#[trigger] digits[i])) && digits_value(digits)
        <= usize::MAX {
        Some(digits_value(digits))
    } else {
        None
    }
}

proof fn lemma_digits_grow(s: Seq<char>, i: int)
    requires
        0 <= i <= s.len(),
        forall|j: int| 0 <= j < s.len() ==> is_digit(#[trigger] s[j]),
    ensures
        digits_value(s.take(i)) <= digits_value(s),
    decreases s.len() - i,
{
    if i < s.len() {
        lemma_digits_grow(s, i + 1);
        assert(s.take(i + 1).drop_last() =~= s.take(i));
    } else {
        assert(s.take(i) =~= s);
    }
}

/// The refusal of a cursor that is no offset.
pub open spec fn bad_cursor(cursor: Seq<char>) -> ErrorDataV {
    ErrorDataV {
        code: INVALID_PARAMS as int,
        message: "invalid tools/list cursor: "@ + debug_text(cursor),
        data: None,
    }
}

fn parse_offset(cursor: &str) -> (r: Option<usize>)
    ensures
        match r {
            Some(n) => cursor_offset(cursor@) == Some(n as nat),
            None => cursor_offset(cursor@) is None,
        },
{
    let n: usize = cursor.unicode_len();
    let start: usize = if n > 0 && cursor.get_char(0) == '+' {
        1
    } else {
        0
    };
    let ghost digits = cursor_digits(cursor@);
    assert(digits =~= cursor@.skip(start as int));
    if start == n {
        return None;
    }
    let body = cursor.substring_char(start, n);
    assert(body@ =~= digits);
    let mut value: usize = 0;
    for c in it: body.chars()
        invariant
            body@ == digits,
            digits == cursor_digits(cursor@),
            it.seq() == digits,
            value == digits_value(digits.take(it.index() as int)),
            forall|j: int| 0 <= j < it.index() ==> is_digit(#[trigger] digits[j]),
    {
        let ghost k = it.index() as int;
        if !('0' <= c && c <= '9') {
            assert(!is_digit(digits[k]));
            return None;
        }
        let d: usize = (c as u32 - '0' as u32) as usize;
        proof {
            assert(digits.take(k + 1).drop_last() =~= digits.take(k));
            if forall|j: int| 0 <= j < digits.len() ==> is_digit(#[trigger] digits[j]) {
                lemma_digits_grow(digits, k + 1);
            }
        }
        match value.checked_mul(10) {
            None => {
                return None;
            },
            Some(tens) => match tens.checked_add(d) {
                None => {
                    return None;
                },
                Some(sum) => {
                    value = sum;
                },
            },
        }
    }
    assert(digits.take(digits.len() as int) =~= digits);
    Some(value)
}

/// The offset that a cursor of the tool list stands for.
pub fn decode_tool_cursor(cursor: &str) -> (r: Result<usize, ErrorData>)
    ensures
        match r {
            Ok(n) => cursor_offset(cursor@) == Some(n as nat),
            Err(e) => cursor_offset(cursor@) is None && e@ == bad_cursor(cursor@),
        },
{
    match parse_offset(cursor) {
        Some(n) => Ok(n),
        None => {
            let mut message = "invalid tools/list cursor: ".to_owned();
            let shown = quoted(cursor);
            message.append(shown.as_str());
            Err(ErrorData { code: INVALID_PARAMS, message, data: None })
        },
    }
}

/// The page of a list of `len` tools that begins at `start`: where it begins,
/// where it ends, and where the next begins, if there is one.
pub open spec fn page(len: nat, start: nat) -> (nat, nat, Option<nat>) {
    let from = if start < len {
        start
    } else {
        len
    };
    let to = if from + TOOLS_PER_PAGE < len {
        (from + TOOLS_PER_PAGE) as nat
    } else {
        len
    };
    (
        from,
        to,
        if to < len {
            Some(to)
        } else {
            None
        },
    )
}

/// The page of a list of `len` tools that begins at `start`, cut to the list.
pub fn tool_page_window(len: usize, start: usize) -> (r: (usize, usize, Option<usize>))
    ensures
        (r.0 as nat, r.1 as nat) == (page(len as nat, start as nat).0, page(
            len as nat,
            start as nat,
        ).1),
        match r.2 {
            Some(n) => page(len as nat, start as nat).2 == Some(n as nat),
            None => page(len as nat, start as nat).2 is None,
        },
        r.0 <= r.1 <= len,
{
    let from: usize = if start < len {
        start
    } else {
        len
    };
    let to: usize = if len - from > TOOLS_PER_PAGE {
        from + TOOLS_PER_PAGE
    } else {
        len
    };
    (
        from,
        to,
        if to < len {
            Some(to)
        } else {
            None
        },
    )
}

/// The positions that a client sees that follows the cursors from `start` on.
pub open spec fn visited(len: nat, start: nat) -> Seq<int>
    decreases len - start,
{
    let (from, to, next) = page(len, start);
    let here = Seq::new((to - from) as nat, |i: int| from + i);
    match next {
        Some(n) => if n > start {
            here + visited(len, n)
        } else {
            here
        },
        None => here,
    }
}

/// A client that follows the cursors sees every position from where it began to
/// the end, each once and in order.
pub proof fn law_pages_cover_the_list(len: nat, start: nat)
    requires
        start <= len,
    ensures
        visited(len, start) == Seq::new((len - start) as nat, |i: int| start + i),
    decreases len - start,
{
    if let Some(n) = page(len, start).2 {
        law_pages_cover_the_list(len, n);
    }
    assert(visited(len, start) =~= Seq::new((len - start) as nat, |i: int| start + i));
}

/// A page that another follows is full.
pub proof fn law_page_before_the_last_is_full(len: nat, start: nat)
    requires
        page(len, start).2 is Some,
    ensures
        page(len, start).1 - page(len, start).0 == TOOLS_PER_PAGE,
{
}

/// How many pages a client sees that follows the cursors from `start` on.
pub open spec fn pages_from(len: nat, start: nat) -> nat
    decreases len - start,
{
    match page(len, start).2 {
        Some(n) => if n > start {
            1 + pages_from(len, n)
        } else {
            1
        },
        None => 1,
    }
}

/// A client that follows the cursors sees as many pages as the list fills, the last
/// perhaps in part, and one page where there is nothing to list.
pub proof fn law_walk_takes_as_many_pages_as_the_list_fills(len: nat, start: nat)
    requires
        start <= len,
    ensures
        pages_from(len, start) == if len == start {
            1
        } else {
            (len - start + TOOLS_PER_PAGE - 1) / TOOLS_PER_PAGE as int
        },
    decreases len - start,
{
    if let Some(n) = page(len, start).2 {
        law_walk_takes_as_many_pages_as_the_list_fills(len, n);
    }
}

/// A list of no more than a page has no second page.
pub proof fn law_short_list_is_one_page(len: nat)
    requires
        len <= TOOLS_PER_PAGE,
    ensures
        page(len, 0) == (0nat, len, None::<nat>),
{
}

/// A tool's entry carries each hint of its source under the hint's own name.
pub proof fn law_entry_carries_its_hints(name: ToolName, source: ToolSource)
    requires
        catalog_entry(name, source) is Some,
    ensures
        catalog_entry(name, source)->0.annotations matches Some(a) && {
            &&& a.read_only_hint == Some(source.hints.read_only)
            &&& a.destructive_hint == Some(source.hints.destructive)
            &&& a.idempotent_hint == Some(source.hints.idempotent)
            &&& a.open_world_hint == Some(source.hints.open_world)
        },
{
}

/// A tool that takes no arguments publishes an object without properties, whatever
/// is derived for it. Every other schema is published member by member as it is
/// derived, but for its title.
pub proof fn law_entry_carries_its_schemas(name: ToolName, source: ToolSource, key: Seq<char>)
    requires
        catalog_entry(name, source) is Some,
        source.input_schema@ is Object,
        source.output_schema@ is Object,
    ensures
        name is ListFolders || name is ListAccounts ==> json::field(
            catalog_entry(name, source)->0.input_schema,
            "type"@,
        ) == Some(JsonV::Str("object"@)) && json::field(
            catalog_entry(name, source)->0.input_schema,
            "properties"@,
        ) == Some(JsonV::Object(Map::empty())),
        !(name is ListFolders) && !(name is ListAccounts) && key != "title"@ ==> json::field(
            catalog_entry(name, source)->0.input_schema,
            key,
        ) == json::field(source.input_schema@, key),
        !(name is ListFolders) && !(name is ListAccounts) ==> json::field(
            catalog_entry(name, source)->0.input_schema,
            "title"@,
        ) is None,
        key != "title"@ ==> json::field(catalog_entry(name, source)->0.output_schema, key)
            == json::field(source.output_schema@, key),
        json::field(catalog_entry(name, source)->0.output_schema, "title"@) is None,
{
    reveal_strlit("type");
    reveal_strlit("properties");
    assert("type"@.len() == 4 && "properties"@.len() == 10);
}

/// A tool that is among some tools and is no sub-capability stays when the catalog's
/// are picked out.
pub proof fn lemma_defined_holds(tools: Seq<ToolName>, tool: ToolName) -> (j: int)
    requires
        tools.contains(tool),
        !sub_capability(tool),
    ensures
        0 <= j < defined(tools).len(),
        defined(tools)[j] == tool,
    decreases tools.len(),
{
    reveal(Seq::filter);
    let rest = tools.drop_last();
    if tools.last() == tool {
        assert(defined(tools) =~= defined(rest).push(tool));
        defined(rest).len() as int
    } else {
        let i = choose|i: int| 0 <= i < tools.len() && tools[i] == tool;
        assert(rest[i] == tool);
        let j = lemma_defined_holds(rest, tool);
        assert(defined(tools)[j] == defined(rest)[j]);
        j
    }
}

/// What is no digit makes a cursor none, and the empty cursor is none. A plus sign may
/// stand in front and nothing else.
pub proof fn law_cursor_is_made_of_digits(cursor: Seq<char>, i: int)
    requires
        0 <= i < cursor.len(),
        !('0' <= cursor[i] <= '9'),
        i > 0 || cursor[0] != '+' || cursor.len() == 1,
    ensures
        cursor_offset(cursor) is None,
        cursor_offset(Seq::empty()) is None,
{
    let digits = cursor_digits(cursor);
    if cursor[0] == '+' {
        if i > 0 {
            assert(digits[i - 1] == cursor[i]);
        }
    } else {
        assert(digits[i] == cursor[i]);
    }
}

proof fn lemma_digits_are_worth(s: Seq<char>)
    requires
        forall|i: int| 0 <= i < s.len() ==> '0' <= #[trigger] s[i] <= '9',
    ensures
        digits_value(s) == text::worth(s),
    decreases s.len(),
{
    if s.len() > 0 {
        lemma_digits_are_worth(s.drop_last());
        assert('0' <= s[s.len() - 1] <= '9');
    }
}

/// A cursor that is a number in decimal is read as that number, with a plus sign in
/// front or without. A number too large for the machine is refused.
pub proof fn law_cursor_reads_back(n: nat)
    ensures
        cursor_offset(text::decimal(n)) == if n <= usize::MAX {
            Some(n)
        } else {
            None::<nat>
        },
        cursor_offset(seq!['+'] + text::decimal(n)) == cursor_offset(text::decimal(n)),
{
    text::law_decimal_is_worth_its_number(n);
    let digits = text::decimal(n);
    lemma_digits_are_worth(digits);
    assert(digits[0] != '+');
    assert((seq!['+'] + digits).skip(1) =~= digits);
    assert(forall|i: int| 0 <= i < digits.len() ==> is_digit(#[trigger] digits[i]));
}

/// A page from beyond the end of the list is empty and the last. Otherwise it begins
/// where it was asked to begin, and holds at most twenty-five tools.
pub proof fn law_page_begins_where_asked(len: nat, start: nat)
    ensures
        start >= len ==> page(len, start) == (len, len, None::<nat>),
        start < len ==> page(len, start).0 == start && page(len, start).1 > start,
        page(len, start).1 - page(len, start).0 <= 25,
        page(len, start).2 is Some <==> len - page(len, start).0 > 25,
        page(len, start).2 is Some ==> page(len, start).1 - page(len, start).0 == 25,
        page(len, start).2 matches Some(next) ==> next == page(len, start).1,
{
}

/// The name of the one tool that takes arguments of this shape: `None` for a shape that
/// several tools share.
pub open spec fn input_tool(shape: InputShape) -> Option<Seq<char>> {
    match shape {
        InputShape::Search => Some("search"@),
        InputShape::FetchMessage => Some("fetch_message"@),
        InputShape::ListAttachments => Some("list_attachments"@),
        InputShape::DownloadAttachment => Some("download_attachment"@),
        InputShape::ExportMessages => Some("export_messages"@),
        InputShape::ListLabels => Some("list_labels"@),
        InputShape::MoveMessage => Some("move_message"@),
        InputShape::CreateDraft => Some("create_draft"@),
        InputShape::SendEmail => Some("send_email"@),
        InputShape::Forward => Some("forward"@),
        InputShape::DeleteMessage => Some("delete_message"@),
        InputShape::Expunge => Some("expunge"@),
        InputShape::CreateFolder => Some("create_folder"@),
        InputShape::RenameFolder => Some("rename_folder"@),
        InputShape::DeleteFolder => Some("delete_folder"@),
        InputShape::UseAccount => Some("use_account"@),
        InputShape::NoArgs => None,
        InputShape::Flag => None,
        InputShape::Label => None,
    }
}

/// The name of the one tool whose result has a trusted part of this shape: `None` for a
/// shape that several tools share.
pub open spec fn meta_tool(shape: MetaShape) -> Option<Seq<char>> {
    match shape {
        MetaShape::ListFolders => Some("list_folders"@),
        MetaShape::Search => Some("search"@),
        MetaShape::FetchMessage => Some("fetch_message"@),
        MetaShape::ListAttachments => Some("list_attachments"@),
        MetaShape::DownloadAttachment => Some("download_attachment"@),
        MetaShape::ExportMessages => Some("export_messages"@),
        MetaShape::ListLabels => Some("list_labels"@),
        MetaShape::MoveMessage => Some("move_message"@),
        MetaShape::CreateDraft => Some("create_draft"@),
        MetaShape::SendEmail => Some("send_email"@),
        MetaShape::Forward => Some("forward"@),
        MetaShape::DeleteMessage => Some("delete_message"@),
        MetaShape::Expunge => Some("expunge"@),
        MetaShape::CreateFolder => Some("create_folder"@),
        MetaShape::RenameFolder => Some("rename_folder"@),
        MetaShape::DeleteFolder => Some("delete_folder"@),
        MetaShape::UseAccount => Some("use_account"@),
        MetaShape::ListAccounts => Some("list_accounts"@),
        MetaShape::Flags => None,
        MetaShape::Labels => None,
    }
}

/// The name of the one tool whose result has an untrusted part of this shape: `None`
/// where there is no such part.
pub open spec fn untrusted_tool(shape: UntrustedShape) -> Option<Seq<char>> {
    match shape {
        UntrustedShape::Search => Some("search"@),
        UntrustedShape::FetchMessage => Some("fetch_message"@),
        UntrustedShape::ListAttachments => Some("list_attachments"@),
        UntrustedShape::DownloadAttachment => Some("download_attachment"@),
        UntrustedShape::Unit => None,
    }
}

/// A tool takes arguments of its own shape and returns a trusted part of its own
/// shape. The four tools that set or clear a status share both, and so do the two that
/// add or remove a label. Two tools take no arguments.
pub proof fn law_tool_has_the_shapes_of_its_name(name: ToolName)
    requires
        tool_def(name) is Some,
    ensures
        ({
            let def = tool_def(name)->0;
            let status = name is MarkRead || name is MarkUnread || name is Flag || name is Unflag;
            let label = name is AddLabel || name is RemoveLabel;
            let bare = name is ListFolders || name is ListAccounts;
            &&& status <==> def.input is Flag
            &&& status <==> def.meta is Flags
            &&& label <==> def.input is Label
            &&& label <==> def.meta is Labels
            &&& bare <==> def.input is NoArgs
            &&& !status && !label && !bare ==> input_tool(def.input) == Some(tool::wire_name(name))
            &&& !status && !label ==> meta_tool(def.meta) == Some(tool::wire_name(name))
        }),
{
}

/// Only the four tools that read mail return a part that is not trusted, each one of
/// its own shape.
pub proof fn law_what_reads_mail_returns_an_untrusted_part(name: ToolName)
    requires
        tool_def(name) is Some,
    ensures
        ({
            let def = tool_def(name)->0;
            let reads = name is Search || name is FetchMessage || name is ListAttachments || name
                is DownloadAttachment;
            &&& reads ==> untrusted_tool(def.untrusted) == Some(tool::wire_name(name))
            &&& !reads ==> def.untrusted is Unit
        }),
{
}

/// A letter without regard to case: the small one for a capital one.
pub open spec fn small_letter(c: char) -> char {
    if 'A' <= c <= 'Z' {
        (c as u32 + 32) as char
    } else {
        c
    }
}

/// From `at` on a title reads as the name does from `from` on to its end, but for a
/// capital at the beginning.
pub open spec fn reads_on(title: Seq<char>, at: int, name: Seq<char>, from: int) -> bool {
    &&& 0 <= at
    &&& 0 <= from < name.len()
    &&& at + name.len() - from <= title.len()
    &&& 'A' <= title[at] <= 'Z'
    &&& small_letter(title[at]) == name[from]
    &&& forall|k: int| from < k < name.len() ==> title[at + k - from] == #[trigger] name[k]
}

/// The last word of a name begins at `from`.
pub open spec fn last_word(name: Seq<char>, from: int) -> bool {
    &&& from == 0 || name[from - 1] == '_'
    &&& forall|k: int| from <= k < name.len() ==> #[trigger] name[k] != '_'
}

/// A tool's title says what its name says: it begins with the first letter of the name,
/// as a capital, and holds the last word of the name, capitalised. Only the title of
/// the tool that selects an account begins with another word.
#[verifier::rlimit(60)]
#[verifier::spinoff_prover]
pub proof fn law_title_says_the_name(name: ToolName)
    requires
        tool_def(name) is Some,
    ensures
        ({
            let title = tool_def(name)->0.title;
            let wire = tool::wire_name(name);
            &&& title.len() > 0 && wire.len() > 0
            &&& !(name is UseAccount) ==> small_letter(title[0]) == wire[0] && title[1] == wire[1]
                && title[2] == wire[2]
            &&& exists|at: int, from: int| #[trigger]
                reads_on(title, at, wire, from) && last_word(wire, from)
        }),
{
    let title = tool_title(name);
    let wire = tool::wire_name(name);
    let (from, at) = match name {
        ToolName::ListFolders => {
            reveal_strlit("list_folders");
            reveal_strlit("List IMAP Folders");
            (5int, 10int)
        },
        ToolName::Search => {
            reveal_strlit("search");
            reveal_strlit("Search Messages");
            (0int, 0int)
        },
        ToolName::FetchMessage => {
            reveal_strlit("fetch_message");
            reveal_strlit("Fetch Message");
            (6int, 6int)
        },
        ToolName::ListAttachments => {
            reveal_strlit("list_attachments");
            reveal_strlit("List Message Attachments");
            (5int, 13int)
        },
        ToolName::DownloadAttachment => {
            reveal_strlit("download_attachment");
            reveal_strlit("Download Attachment");
            (9int, 9int)
        },
        ToolName::ExportMessages => {
            reveal_strlit("export_messages");
            reveal_strlit("Export Messages");
            (7int, 7int)
        },
        ToolName::MarkRead => {
            reveal_strlit("mark_read");
            reveal_strlit("Mark Messages Read");
            (5int, 14int)
        },
        ToolName::MarkUnread => {
            reveal_strlit("mark_unread");
            reveal_strlit("Mark Messages Unread");
            (5int, 14int)
        },
        ToolName::Flag => {
            reveal_strlit("flag");
            reveal_strlit("Flag Messages");
            (0int, 0int)
        },
        ToolName::Unflag => {
            reveal_strlit("unflag");
            reveal_strlit("Unflag Messages");
            (0int, 0int)
        },
        ToolName::AddLabel => {
            reveal_strlit("add_label");
            reveal_strlit("Add Label to Messages");
            (4int, 4int)
        },
        ToolName::RemoveLabel => {
            reveal_strlit("remove_label");
            reveal_strlit("Remove Label from Messages");
            (7int, 7int)
        },
        ToolName::ListLabels => {
            reveal_strlit("list_labels");
            reveal_strlit("List Labels on Message");
            (5int, 5int)
        },
        ToolName::MoveMessage => {
            reveal_strlit("move_message");
            reveal_strlit("Move Messages");
            (5int, 5int)
        },
        ToolName::CreateDraft => {
            reveal_strlit("create_draft");
            reveal_strlit("Create Draft Email");
            (7int, 7int)
        },
        ToolName::SendEmail => {
            reveal_strlit("send_email");
            reveal_strlit("Send Email");
            (5int, 5int)
        },
        ToolName::Forward => {
            reveal_strlit("forward");
            reveal_strlit("Forward Message");
            (0int, 0int)
        },
        ToolName::DeleteMessage => {
            reveal_strlit("delete_message");
            reveal_strlit("Delete Message");
            (7int, 7int)
        },
        ToolName::Expunge => {
            reveal_strlit("expunge");
            reveal_strlit("Expunge Folder");
            (0int, 0int)
        },
        ToolName::CreateFolder => {
            reveal_strlit("create_folder");
            reveal_strlit("Create IMAP Folder");
            (7int, 12int)
        },
        ToolName::RenameFolder => {
            reveal_strlit("rename_folder");
            reveal_strlit("Rename IMAP Folder");
            (7int, 12int)
        },
        ToolName::DeleteFolder => {
            reveal_strlit("delete_folder");
            reveal_strlit("Delete IMAP Folder");
            (7int, 12int)
        },
        ToolName::UseAccount => {
            reveal_strlit("use_account");
            reveal_strlit("Select Active Account");
            (4int, 14int)
        },
        ToolName::ListAccounts => {
            reveal_strlit("list_accounts");
            reveal_strlit("List Email Accounts");
            (5int, 11int)
        },
        _ => (0int, 0int),
    };
    assert(reads_on(title, at, wire, from));
    assert(last_word(wire, from));
    assert(tool_def(name)->0.title == title);
    assert(title.len() > 0 && wire.len() > 0);
    assert(!(name is UseAccount) ==> small_letter(title[0]) == wire[0]);
    assert(!(name is UseAccount) ==> title[1] == wire[1]);
    assert(!(name is UseAccount) ==> title[2] == wire[2]);
}

/// A tool is described by the text that is kept for it, and by no other tool's.
pub proof fn law_tool_is_described_by_its_own_text(name: ToolName)
    requires
        tool_def(name) is Some,
    ensures
        name is ListFolders ==> tool_def(name)->0.description == LIST_FOLDERS_DESCRIPTION@,
        name is Search ==> tool_def(name)->0.description == SEARCH_DESCRIPTION@,
        name is FetchMessage ==> tool_def(name)->0.description == FETCH_MESSAGE_DESCRIPTION@,
        name is ListAttachments ==> tool_def(name)->0.description == LIST_ATTACHMENTS_DESCRIPTION@,
        name is DownloadAttachment ==> tool_def(name)->0.description == DOWNLOAD_ATTACHMENT_DESCRIPTION@,
        name is ExportMessages ==> tool_def(name)->0.description == EXPORT_MESSAGES_DESCRIPTION@,
        name is MarkRead ==> tool_def(name)->0.description == MARK_READ_DESCRIPTION@,
        name is MarkUnread ==> tool_def(name)->0.description == MARK_UNREAD_DESCRIPTION@,
        name is Flag ==> tool_def(name)->0.description == FLAG_DESCRIPTION@,
        name is Unflag ==> tool_def(name)->0.description == UNFLAG_DESCRIPTION@,
        name is AddLabel ==> tool_def(name)->0.description == ADD_LABEL_DESCRIPTION@,
        name is RemoveLabel ==> tool_def(name)->0.description == REMOVE_LABEL_DESCRIPTION@,
        name is ListLabels ==> tool_def(name)->0.description == LIST_LABELS_DESCRIPTION@,
        name is MoveMessage ==> tool_def(name)->0.description == MOVE_MESSAGE_DESCRIPTION@,
        name is CreateDraft ==> tool_def(name)->0.description == CREATE_DRAFT_DESCRIPTION@,
        name is SendEmail ==> tool_def(name)->0.description == SEND_EMAIL_DESCRIPTION@,
        name is Forward ==> tool_def(name)->0.description == FORWARD_DESCRIPTION@,
        name is DeleteMessage ==> tool_def(name)->0.description == DELETE_MESSAGE_DESCRIPTION@,
        name is Expunge ==> tool_def(name)->0.description == EXPUNGE_DESCRIPTION@,
        name is CreateFolder ==> tool_def(name)->0.description == CREATE_FOLDER_DESCRIPTION@,
        name is RenameFolder ==> tool_def(name)->0.description == RENAME_FOLDER_DESCRIPTION@,
        name is DeleteFolder ==> tool_def(name)->0.description == DELETE_FOLDER_DESCRIPTION@,
        name is UseAccount ==> tool_def(name)->0.description == USE_ACCOUNT_DESCRIPTION@,
        name is ListAccounts ==> tool_def(name)->0.description == LIST_ACCOUNTS_DESCRIPTION@,
{
}

/// A tool, its annotations and its definition are told field by field as they are held.
pub proof fn law_tool_is_told_as_it_is_held(tool: Tool, a: ToolAnnotations, def: ToolDef)
    ensures
        a@.read_only_hint == a.read_only_hint,
        a@.destructive_hint == a.destructive_hint,
        a@.idempotent_hint == a.idempotent_hint,
        a@.open_world_hint == a.open_world_hint,
        a.title matches Some(t) ==> a@.title == Some(t@),
        a.title is None ==> a@.title is None,
        tool@.tool == tool.tool,
        tool@.name == tool.name@,
        tool.title matches Some(t) ==> tool@.title == Some(t@),
        tool.title is None ==> tool@.title is None,
        tool.description matches Some(d) ==> tool@.description == Some(d@),
        tool.description is None ==> tool@.description is None,
        tool@.input_schema == tool.input_schema@,
        tool@.output_schema == tool.output_schema@,
        tool.annotations matches Some(a) ==> tool@.annotations == Some(a@),
        tool.annotations is None ==> tool@.annotations is None,
        def@.title == def.title@,
        def@.description == def.description@,
        def@.input == def.input,
        def@.meta == def.meta,
        def@.untrusted == def.untrusted,
{
}

/// A cursor that is no offset is refused by the code for parameters, and shown.
pub proof fn law_bad_cursor_is_shown(cursor: Seq<char>)
    ensures
        bad_cursor(cursor).code == -32602,
        bad_cursor(cursor).message == "invalid tools/list cursor: "@ + debug_text(cursor),
        bad_cursor(cursor).data is None,
{
}

} // verus!
