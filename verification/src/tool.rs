//! The tools that the server offers, and the postures that gate them.
use vstd::prelude::*;
use vstd::string::*;

use crate::text::same_text;

verus! {

/// A tool, or a sub-capability of one that is gated on its own.
#[derive(Debug, Clone, Copy, PartialEq, Eq, Structural, PartialOrd, Ord, Hash)]
pub enum ToolName {
    ListFolders,
    Search,
    SearchAdvanced,
    FetchMessage,
    FetchMessageHtml,
    ListAttachments,
    DownloadAttachment,
    ExportMessages,
    MarkRead,
    MarkUnread,
    Flag,
    Unflag,
    AddLabel,
    RemoveLabel,
    ListLabels,
    MoveMessage,
    CreateDraft,
    CreateDraftHtml,
    SendEmail,
    Forward,
    DeleteMessage,
    Expunge,
    CreateFolder,
    RenameFolder,
    DeleteFolder,
    UseAccount,
    ListAccounts,
}

/// The name of a tool on the wire.
pub open spec fn wire_name(tool: ToolName) -> Seq<char> {
    match tool {
        ToolName::ListFolders => "list_folders"@,
        ToolName::Search => "search"@,
        ToolName::SearchAdvanced => "search.advanced_query"@,
        ToolName::FetchMessage => "fetch_message"@,
        ToolName::FetchMessageHtml => "fetch_message.include_html"@,
        ToolName::ListAttachments => "list_attachments"@,
        ToolName::DownloadAttachment => "download_attachment"@,
        ToolName::ExportMessages => "export_messages"@,
        ToolName::MarkRead => "mark_read"@,
        ToolName::MarkUnread => "mark_unread"@,
        ToolName::Flag => "flag"@,
        ToolName::Unflag => "unflag"@,
        ToolName::AddLabel => "add_label"@,
        ToolName::RemoveLabel => "remove_label"@,
        ToolName::ListLabels => "list_labels"@,
        ToolName::MoveMessage => "move_message"@,
        ToolName::CreateDraft => "create_draft"@,
        ToolName::CreateDraftHtml => "create_draft.include_html"@,
        ToolName::SendEmail => "send_email"@,
        ToolName::Forward => "forward"@,
        ToolName::DeleteMessage => "delete_message"@,
        ToolName::Expunge => "expunge"@,
        ToolName::CreateFolder => "create_folder"@,
        ToolName::RenameFolder => "rename_folder"@,
        ToolName::DeleteFolder => "delete_folder"@,
        ToolName::UseAccount => "use_account"@,
        ToolName::ListAccounts => "list_accounts"@,
    }
}

/// Every tool, in order of declaration.
pub open spec fn all_tools() -> Seq<ToolName> {
    seq![
        ToolName::ListFolders,
        ToolName::Search,
        ToolName::SearchAdvanced,
        ToolName::FetchMessage,
        ToolName::FetchMessageHtml,
        ToolName::ListAttachments,
        ToolName::DownloadAttachment,
        ToolName::ExportMessages,
        ToolName::MarkRead,
        ToolName::MarkUnread,
        ToolName::Flag,
        ToolName::Unflag,
        ToolName::AddLabel,
        ToolName::RemoveLabel,
        ToolName::ListLabels,
        ToolName::MoveMessage,
        ToolName::CreateDraft,
        ToolName::CreateDraftHtml,
        ToolName::SendEmail,
        ToolName::Forward,
        ToolName::DeleteMessage,
        ToolName::Expunge,
        ToolName::CreateFolder,
        ToolName::RenameFolder,
        ToolName::DeleteFolder,
        ToolName::UseAccount,
        ToolName::ListAccounts,
    ]
}

/// The position of a tool in the order of declaration.
pub open spec fn position(tool: ToolName) -> int {
    match tool {
        ToolName::ListFolders => 0,
        ToolName::Search => 1,
        ToolName::SearchAdvanced => 2,
        ToolName::FetchMessage => 3,
        ToolName::FetchMessageHtml => 4,
        ToolName::ListAttachments => 5,
        ToolName::DownloadAttachment => 6,
        ToolName::ExportMessages => 7,
        ToolName::MarkRead => 8,
        ToolName::MarkUnread => 9,
        ToolName::Flag => 10,
        ToolName::Unflag => 11,
        ToolName::AddLabel => 12,
        ToolName::RemoveLabel => 13,
        ToolName::ListLabels => 14,
        ToolName::MoveMessage => 15,
        ToolName::CreateDraft => 16,
        ToolName::CreateDraftHtml => 17,
        ToolName::SendEmail => 18,
        ToolName::Forward => 19,
        ToolName::DeleteMessage => 20,
        ToolName::Expunge => 21,
        ToolName::CreateFolder => 22,
        ToolName::RenameFolder => 23,
        ToolName::DeleteFolder => 24,
        ToolName::UseAccount => 25,
        ToolName::ListAccounts => 26,
    }
}

/// The tool of a name on the wire: `None` where no tool has it.
pub open spec fn tool_of(name: Seq<char>) -> Option<ToolName> {
    if exists|t: ToolName| #[trigger] wire_name(t) == name {
        Some(choose|t: ToolName| #[trigger] wire_name(t) == name)
    } else {
        None
    }
}

/// The tools about accounts, which belong to no account themselves.
pub open spec fn infrastructure(tool: ToolName) -> bool {
    tool is UseAccount || tool is ListAccounts
}

/// A number that tells the names on the wire apart: of each length no two begin
/// with the same character.
spec fn fingerprint(name: Seq<char>) -> int {
    name.len() * 256 + name[0] as int
}

proof fn lemma_fingerprint(tool: ToolName)
    ensures
        fingerprint(wire_name(tool)) == match tool {
            ToolName::ListFolders => 3180int,
            ToolName::Search => 1651int,
            ToolName::SearchAdvanced => 5491int,
            ToolName::FetchMessage => 3430int,
            ToolName::FetchMessageHtml => 6758int,
            ToolName::ListAttachments => 4204int,
            ToolName::DownloadAttachment => 4964int,
            ToolName::ExportMessages => 3941int,
            ToolName::MarkRead => 2413int,
            ToolName::MarkUnread => 2925int,
            ToolName::Flag => 1126int,
            ToolName::Unflag => 1653int,
            ToolName::AddLabel => 2401int,
            ToolName::RemoveLabel => 3186int,
            ToolName::ListLabels => 2924int,
            ToolName::MoveMessage => 3181int,
            ToolName::CreateDraft => 3171int,
            ToolName::CreateDraftHtml => 6499int,
            ToolName::SendEmail => 2675int,
            ToolName::Forward => 1894int,
            ToolName::DeleteMessage => 3684int,
            ToolName::Expunge => 1893int,
            ToolName::CreateFolder => 3427int,
            ToolName::RenameFolder => 3442int,
            ToolName::DeleteFolder => 3428int,
            ToolName::UseAccount => 2933int,
            ToolName::ListAccounts => 3436int,
        },
{
    match tool {
        ToolName::ListFolders => reveal_strlit("list_folders"),
        ToolName::Search => reveal_strlit("search"),
        ToolName::SearchAdvanced => reveal_strlit("search.advanced_query"),
        ToolName::FetchMessage => reveal_strlit("fetch_message"),
        ToolName::FetchMessageHtml => reveal_strlit("fetch_message.include_html"),
        ToolName::ListAttachments => reveal_strlit("list_attachments"),
        ToolName::DownloadAttachment => reveal_strlit("download_attachment"),
        ToolName::ExportMessages => reveal_strlit("export_messages"),
        ToolName::MarkRead => reveal_strlit("mark_read"),
        ToolName::MarkUnread => reveal_strlit("mark_unread"),
        ToolName::Flag => reveal_strlit("flag"),
        ToolName::Unflag => reveal_strlit("unflag"),
        ToolName::AddLabel => reveal_strlit("add_label"),
        ToolName::RemoveLabel => reveal_strlit("remove_label"),
        ToolName::ListLabels => reveal_strlit("list_labels"),
        ToolName::MoveMessage => reveal_strlit("move_message"),
        ToolName::CreateDraft => reveal_strlit("create_draft"),
        ToolName::CreateDraftHtml => reveal_strlit("create_draft.include_html"),
        ToolName::SendEmail => reveal_strlit("send_email"),
        ToolName::Forward => reveal_strlit("forward"),
        ToolName::DeleteMessage => reveal_strlit("delete_message"),
        ToolName::Expunge => reveal_strlit("expunge"),
        ToolName::CreateFolder => reveal_strlit("create_folder"),
        ToolName::RenameFolder => reveal_strlit("rename_folder"),
        ToolName::DeleteFolder => reveal_strlit("delete_folder"),
        ToolName::UseAccount => reveal_strlit("use_account"),
        ToolName::ListAccounts => reveal_strlit("list_accounts"),
    }
}

/// No two tools share a name on the wire.
pub proof fn law_names_are_distinct(a: ToolName, b: ToolName)
    requires
        wire_name(a) == wire_name(b),
    ensures
        a == b,
{
    lemma_fingerprint(a);
    lemma_fingerprint(b);
}

/// A tool is found again by its name on the wire.
pub proof fn law_name_reads_back(tool: ToolName)
    ensures
        tool_of(wire_name(tool)) == Some(tool),
{
    let found = choose|t: ToolName| #[trigger] wire_name(t) == wire_name(tool);
    law_names_are_distinct(found, tool);
}

/// Every tool is listed once, at its position.
pub proof fn law_all_tools_lists_each(tool: ToolName)
    ensures
        0 <= position(tool) < all_tools().len(),
        all_tools()[position(tool)] == tool,
        forall|i: int| 0 <= i < all_tools().len() ==> position(#[trigger] all_tools()[i]) == i,
{
}

/// Only three names hold a dot, and in two of them an underscore stands before
/// it.
pub proof fn lemma_dotted_names(tool: ToolName, dot: int)
    requires
        0 <= dot < wire_name(tool).len(),
        wire_name(tool)[dot] == '.',
        forall|j: int| 0 <= j < dot ==> #[trigger] wire_name(tool)[j] != '_',
    ensures
        tool is SearchAdvanced,
        dot == 6,
{
    match tool {
        ToolName::ListFolders => reveal_strlit("list_folders"),
        ToolName::Search => reveal_strlit("search"),
        ToolName::SearchAdvanced => reveal_strlit("search.advanced_query"),
        ToolName::FetchMessage => reveal_strlit("fetch_message"),
        ToolName::FetchMessageHtml => {
            reveal_strlit("fetch_message.include_html");
            assert(wire_name(tool)[5] == '_');
        },
        ToolName::ListAttachments => reveal_strlit("list_attachments"),
        ToolName::DownloadAttachment => reveal_strlit("download_attachment"),
        ToolName::ExportMessages => reveal_strlit("export_messages"),
        ToolName::MarkRead => reveal_strlit("mark_read"),
        ToolName::MarkUnread => reveal_strlit("mark_unread"),
        ToolName::Flag => reveal_strlit("flag"),
        ToolName::Unflag => reveal_strlit("unflag"),
        ToolName::AddLabel => reveal_strlit("add_label"),
        ToolName::RemoveLabel => reveal_strlit("remove_label"),
        ToolName::ListLabels => reveal_strlit("list_labels"),
        ToolName::MoveMessage => reveal_strlit("move_message"),
        ToolName::CreateDraft => reveal_strlit("create_draft"),
        ToolName::CreateDraftHtml => {
            reveal_strlit("create_draft.include_html");
            assert(wire_name(tool)[6] == '_');
        },
        ToolName::SendEmail => reveal_strlit("send_email"),
        ToolName::Forward => reveal_strlit("forward"),
        ToolName::DeleteMessage => reveal_strlit("delete_message"),
        ToolName::Expunge => reveal_strlit("expunge"),
        ToolName::CreateFolder => reveal_strlit("create_folder"),
        ToolName::RenameFolder => reveal_strlit("rename_folder"),
        ToolName::DeleteFolder => reveal_strlit("delete_folder"),
        ToolName::UseAccount => reveal_strlit("use_account"),
        ToolName::ListAccounts => reveal_strlit("list_accounts"),
    }
}

/// The names of all but the three sub-capabilities hold no dot.
pub proof fn lemma_undotted_names(tool: ToolName)
    requires
        !(tool is SearchAdvanced),
        !(tool is FetchMessageHtml),
        !(tool is CreateDraftHtml),
    ensures
        !wire_name(tool).contains('.'),
{
    match tool {
        ToolName::ListFolders => reveal_strlit("list_folders"),
        ToolName::Search => reveal_strlit("search"),
        ToolName::SearchAdvanced => reveal_strlit("search.advanced_query"),
        ToolName::FetchMessage => reveal_strlit("fetch_message"),
        ToolName::FetchMessageHtml => reveal_strlit("fetch_message.include_html"),
        ToolName::ListAttachments => reveal_strlit("list_attachments"),
        ToolName::DownloadAttachment => reveal_strlit("download_attachment"),
        ToolName::ExportMessages => reveal_strlit("export_messages"),
        ToolName::MarkRead => reveal_strlit("mark_read"),
        ToolName::MarkUnread => reveal_strlit("mark_unread"),
        ToolName::Flag => reveal_strlit("flag"),
        ToolName::Unflag => reveal_strlit("unflag"),
        ToolName::AddLabel => reveal_strlit("add_label"),
        ToolName::RemoveLabel => reveal_strlit("remove_label"),
        ToolName::ListLabels => reveal_strlit("list_labels"),
        ToolName::MoveMessage => reveal_strlit("move_message"),
        ToolName::CreateDraft => reveal_strlit("create_draft"),
        ToolName::CreateDraftHtml => reveal_strlit("create_draft.include_html"),
        ToolName::SendEmail => reveal_strlit("send_email"),
        ToolName::Forward => reveal_strlit("forward"),
        ToolName::DeleteMessage => reveal_strlit("delete_message"),
        ToolName::Expunge => reveal_strlit("expunge"),
        ToolName::CreateFolder => reveal_strlit("create_folder"),
        ToolName::RenameFolder => reveal_strlit("rename_folder"),
        ToolName::DeleteFolder => reveal_strlit("delete_folder"),
        ToolName::UseAccount => reveal_strlit("use_account"),
        ToolName::ListAccounts => reveal_strlit("list_accounts"),
    }
}

/// What follows the dot in the name of the content search is no tool's name.
pub proof fn lemma_no_tool_is_advanced_query(tool: ToolName)
    ensures
        wire_name(tool) != wire_name(ToolName::SearchAdvanced).skip(7),
{
    lemma_fingerprint(tool);
    reveal_strlit("search.advanced_query");
    let rest = wire_name(ToolName::SearchAdvanced).skip(7);
    assert(rest.len() == 14 && rest[0] == 'a');
    assert(fingerprint(rest) == 14 * 256 + 97);
}

impl ToolName {
    /// Every tool, in order of declaration.
    pub fn all() -> (r: Vec<ToolName>)
        ensures
            r@ == all_tools(),
    {
        let mut r: Vec<ToolName> = Vec::new();
        r.push(ToolName::ListFolders);
        r.push(ToolName::Search);
        r.push(ToolName::SearchAdvanced);
        r.push(ToolName::FetchMessage);
        r.push(ToolName::FetchMessageHtml);
        r.push(ToolName::ListAttachments);
        r.push(ToolName::DownloadAttachment);
        r.push(ToolName::ExportMessages);
        r.push(ToolName::MarkRead);
        r.push(ToolName::MarkUnread);
        r.push(ToolName::Flag);
        r.push(ToolName::Unflag);
        r.push(ToolName::AddLabel);
        r.push(ToolName::RemoveLabel);
        r.push(ToolName::ListLabels);
        r.push(ToolName::MoveMessage);
        r.push(ToolName::CreateDraft);
        r.push(ToolName::CreateDraftHtml);
        r.push(ToolName::SendEmail);
        r.push(ToolName::Forward);
        r.push(ToolName::DeleteMessage);
        r.push(ToolName::Expunge);
        r.push(ToolName::CreateFolder);
        r.push(ToolName::RenameFolder);
        r.push(ToolName::DeleteFolder);
        r.push(ToolName::UseAccount);
        r.push(ToolName::ListAccounts);
        r
    }

    /// The position in the order of declaration.
    pub fn position(self) -> (r: usize)
        ensures
            r == position(self),
            r < all_tools().len(),
    {
        match self {
            ToolName::ListFolders => 0,
            ToolName::Search => 1,
            ToolName::SearchAdvanced => 2,
            ToolName::FetchMessage => 3,
            ToolName::FetchMessageHtml => 4,
            ToolName::ListAttachments => 5,
            ToolName::DownloadAttachment => 6,
            ToolName::ExportMessages => 7,
            ToolName::MarkRead => 8,
            ToolName::MarkUnread => 9,
            ToolName::Flag => 10,
            ToolName::Unflag => 11,
            ToolName::AddLabel => 12,
            ToolName::RemoveLabel => 13,
            ToolName::ListLabels => 14,
            ToolName::MoveMessage => 15,
            ToolName::CreateDraft => 16,
            ToolName::CreateDraftHtml => 17,
            ToolName::SendEmail => 18,
            ToolName::Forward => 19,
            ToolName::DeleteMessage => 20,
            ToolName::Expunge => 21,
            ToolName::CreateFolder => 22,
            ToolName::RenameFolder => 23,
            ToolName::DeleteFolder => 24,
            ToolName::UseAccount => 25,
            ToolName::ListAccounts => 26,
        }
    }

    /// The name on the wire.
    pub fn as_str(self) -> (r: &'static str)
        ensures
            r@ == wire_name(self),
    {
        match self {
            ToolName::ListFolders => "list_folders",
            ToolName::Search => "search",
            ToolName::SearchAdvanced => "search.advanced_query",
            ToolName::FetchMessage => "fetch_message",
            ToolName::FetchMessageHtml => "fetch_message.include_html",
            ToolName::ListAttachments => "list_attachments",
            ToolName::DownloadAttachment => "download_attachment",
            ToolName::ExportMessages => "export_messages",
            ToolName::MarkRead => "mark_read",
            ToolName::MarkUnread => "mark_unread",
            ToolName::Flag => "flag",
            ToolName::Unflag => "unflag",
            ToolName::AddLabel => "add_label",
            ToolName::RemoveLabel => "remove_label",
            ToolName::ListLabels => "list_labels",
            ToolName::MoveMessage => "move_message",
            ToolName::CreateDraft => "create_draft",
            ToolName::CreateDraftHtml => "create_draft.include_html",
            ToolName::SendEmail => "send_email",
            ToolName::Forward => "forward",
            ToolName::DeleteMessage => "delete_message",
            ToolName::Expunge => "expunge",
            ToolName::CreateFolder => "create_folder",
            ToolName::RenameFolder => "rename_folder",
            ToolName::DeleteFolder => "delete_folder",
            ToolName::UseAccount => "use_account",
            ToolName::ListAccounts => "list_accounts",
        }
    }

    /// The tool of a name on the wire: `None` where no tool has it.
    pub fn parse(name: &str) -> (r: Option<ToolName>)
        ensures
            r == tool_of(name@),
    {
        let all = ToolName::all();
        for i in 0..all.len()
            invariant
                all@ == all_tools(),
                forall|j: int| 0 <= j < i ==> wire_name(#[trigger] all_tools()[j]) != name@,
        {
            if same_text(all[i].as_str(), name) {
                proof {
                    law_name_reads_back(all@[i as int]);
                }
                return Some(all[i]);
            }
        }
        proof {
            assert forall|t: ToolName| #[trigger] wire_name(t) != name@ by {
                law_all_tools_lists_each(t);
                assert(all_tools()[position(t)] == t);
            }
        }
        None
    }

    /// Whether the tool is about accounts and belongs to none itself.
    pub fn is_infrastructure(self) -> (r: bool)
        ensures
            r == infrastructure(self),
    {
        match self {
            ToolName::UseAccount | ToolName::ListAccounts => true,
            _ => false,
        }
    }
}

/// How much an account lets its tools do, from least to most.
#[derive(Debug, Clone, Copy, PartialEq, Eq, Structural, PartialOrd, Ord, Hash)]
pub enum Posture {
    Readonly,
    DraftSafe,
    Full,
    Destructive,
}

/// The name of a posture.
pub open spec fn posture_name(posture: Posture) -> Seq<char> {
    match posture {
        Posture::Readonly => "readonly"@,
        Posture::DraftSafe => "draft-safe"@,
        Posture::Full => "full"@,
        Posture::Destructive => "destructive"@,
    }
}

impl Posture {
    /// The name of the posture.
    pub fn as_str(self) -> (r: &'static str)
        ensures
            r@ == posture_name(self),
    {
        match self {
            Posture::Readonly => "readonly",
            Posture::DraftSafe => "draft-safe",
            Posture::Full => "full",
            Posture::Destructive => "destructive",
        }
    }
}

/// No two postures share a name.
pub proof fn law_posture_names_are_distinct(a: Posture, b: Posture)
    requires
        posture_name(a) == posture_name(b),
    ensures
        a == b,
{
    lemma_posture_name_length(a);
    lemma_posture_name_length(b);
}

proof fn lemma_posture_name_length(posture: Posture)
    ensures
        posture_name(posture).len() == match posture {
            Posture::Readonly => 8int,
            Posture::DraftSafe => 10int,
            Posture::Full => 4int,
            Posture::Destructive => 11int,
        },
{
    reveal_strlit("readonly");
    reveal_strlit("draft-safe");
    reveal_strlit("full");
    reveal_strlit("destructive");
}

/// The two tools whose names speak of accounts are the ones that belong to none.
pub proof fn law_infrastructure_is_about_accounts(tool: ToolName)
    ensures
        infrastructure(tool) <==> wire_name(tool) == "use_account"@ || wire_name(tool)
            == "list_accounts"@,
{
    if wire_name(tool) == "use_account"@ {
        law_names_are_distinct(tool, ToolName::UseAccount);
    }
    if wire_name(tool) == "list_accounts"@ {
        law_names_are_distinct(tool, ToolName::ListAccounts);
    }
}

/// Tools stand in groups: those that read mail, those that mark and move it, those that
/// write and send it, those that remove it and keep folders, and last those about
/// accounts. A sub-capability stands right behind its tool, and what undoes a tool right
/// behind what it undoes.
pub proof fn law_tools_stand_in_groups()
    ensures
        position(ToolName::ListFolders) == 0,
        position(ToolName::ListFolders) + 1 == position(ToolName::Search),
        position(ToolName::Search) + 1 == position(ToolName::SearchAdvanced),
        position(ToolName::SearchAdvanced) + 1 == position(ToolName::FetchMessage),
        position(ToolName::FetchMessage) + 1 == position(ToolName::FetchMessageHtml),
        position(ToolName::FetchMessageHtml) + 1 == position(ToolName::ListAttachments),
        position(ToolName::ListAttachments) + 1 == position(ToolName::DownloadAttachment),
        position(ToolName::DownloadAttachment) + 1 == position(ToolName::ExportMessages),
        position(ToolName::MarkRead) + 1 == position(ToolName::MarkUnread),
        position(ToolName::MarkUnread) + 1 == position(ToolName::Flag),
        position(ToolName::Flag) + 1 == position(ToolName::Unflag),
        position(ToolName::Unflag) + 1 == position(ToolName::AddLabel),
        position(ToolName::AddLabel) + 1 == position(ToolName::RemoveLabel),
        position(ToolName::RemoveLabel) + 1 == position(ToolName::ListLabels),
        position(ToolName::ListLabels) + 1 == position(ToolName::MoveMessage),
        position(ToolName::CreateDraft) + 1 == position(ToolName::CreateDraftHtml),
        position(ToolName::CreateDraftHtml) + 1 == position(ToolName::SendEmail),
        position(ToolName::SendEmail) + 1 == position(ToolName::Forward),
        position(ToolName::DeleteMessage) + 1 == position(ToolName::Expunge),
        position(ToolName::Expunge) + 1 == position(ToolName::CreateFolder),
        position(ToolName::CreateFolder) + 1 == position(ToolName::RenameFolder),
        position(ToolName::RenameFolder) + 1 == position(ToolName::DeleteFolder),
        position(ToolName::UseAccount) + 1 == position(ToolName::ListAccounts),
        position(ToolName::ExportMessages) + 1 == position(ToolName::MarkRead),
        position(ToolName::MoveMessage) + 1 == position(ToolName::CreateDraft),
        position(ToolName::Forward) + 1 == position(ToolName::DeleteMessage),
        position(ToolName::DeleteFolder) + 1 == position(ToolName::UseAccount),
        all_tools().len() == 27,
{
}

} // verus!
