//! The resources that the server offers to read: its documents, and one summary
//! for each account.
use vstd::prelude::*;
use vstd::string::*;

use crate::account;
use crate::account::is_account_name;
use crate::boot::registry;
use crate::boot::registry::{AccountRegistry, AccountState};
use crate::error::RimapError;
use crate::json;
use crate::json::{render_json_pretty, set_member, text_array, Json, JsonV};
use crate::mcp::error::{ErrorData, ErrorDataV, INVALID_PARAMS, RESOURCE_NOT_FOUND};
use crate::mcp::tool_catalog;
use crate::mcp::tool_catalog::defined_tools;
use crate::text;
use crate::text::{same_text, strip_prefix};
use crate::tool;
use crate::tool::ToolName;

verus! {

/// Where the document on postures is read.
pub const POSTURES_DOC_URI: &'static str = "rimap://docs/postures";

/// Where the document on workflows is read.
pub const WORKFLOWS_DOC_URI: &'static str = "rimap://docs/workflows";

/// What the address of an account's summary begins with.
pub const ACCOUNTS_URI_PREFIX: &'static str = "rimap://accounts/";

/// The documents that the server offers to read.
pub struct StaticDocs {
    pub postures: String,
    pub workflows: String,
}

/// A resource as it is listed.
pub struct Resource {
    pub uri: String,
    pub name: String,
    pub description: String,
    pub mime_type: String,
}

/// A resource as it is listed, by value.
#[verifier::ext_equal]
pub struct ResourceV {
    pub uri: Seq<char>,
    pub name: Seq<char>,
    pub description: Seq<char>,
    pub mime_type: Seq<char>,
}

impl View for Resource {
    type V = ResourceV;

    open spec fn view(&self) -> ResourceV {
        ResourceV {
            uri: self.uri@,
            name: self.name@,
            description: self.description@,
            mime_type: self.mime_type@,
        }
    }
}

/// A list of resources by value.
pub open spec fn resources_view(resources: Seq<Resource>) -> Seq<ResourceV> {
    Seq::new(resources.len(), |i: int| resources[i]@)
}

/// How the document on postures is described.
pub const POSTURES_DESCRIPTION: &'static str = "Security posture matrix: the four levels, \
    per-tool gating, sub-capabilities, and the [security.tools] override mechanism.";

/// How the document on workflows is described.
pub const WORKFLOWS_DESCRIPTION: &'static str = "Agent workflows: search\u{2192}fetch\u{2192}act, \
    UIDVALIDITY pinning, attachment retrieval, the draft lifecycle, the export_messages opt-in, \
    and numeric limits.";

/// The listing of the two documents.
pub open spec fn static_docs_v() -> Seq<ResourceV> {
    seq![
        ResourceV {
            uri: POSTURES_DOC_URI@,
            name: "postures"@,
            description: POSTURES_DESCRIPTION@,
            mime_type: "text/markdown"@,
        },
        ResourceV {
            uri: WORKFLOWS_DOC_URI@,
            name: "workflows"@,
            description: WORKFLOWS_DESCRIPTION@,
            mime_type: "text/markdown"@,
        },
    ]
}

/// The two documents, which are listed whatever accounts there are.
pub fn static_doc_resources() -> (r: Vec<Resource>)
    ensures
        resources_view(r@) == static_docs_v(),
{
    let mut r: Vec<Resource> = Vec::new();
    r.push(
        Resource {
            uri: POSTURES_DOC_URI.to_owned(),
            name: "postures".to_owned(),
            description: POSTURES_DESCRIPTION.to_owned(),
            mime_type: "text/markdown".to_owned(),
        },
    );
    r.push(
        Resource {
            uri: WORKFLOWS_DOC_URI.to_owned(),
            name: "workflows".to_owned(),
            description: WORKFLOWS_DESCRIPTION.to_owned(),
            mime_type: "text/markdown".to_owned(),
        },
    );
    assert(resources_view(r@) =~= static_docs_v());
    r
}

/// The document at an address: `None` where there is none.
pub open spec fn doc_at(docs: StaticDocs, uri: Seq<char>) -> Option<Seq<char>> {
    if uri == POSTURES_DOC_URI@ {
        Some(docs.postures@)
    } else if uri == WORKFLOWS_DOC_URI@ {
        Some(docs.workflows@)
    } else {
        None
    }
}

/// The document at an address: `None` where there is none.
pub fn static_doc_content<'a>(docs: &'a StaticDocs, uri: &str) -> (r: Option<&'a str>)
    ensures
        match r {
            Some(doc) => doc_at(*docs, uri@) == Some(doc@),
            None => doc_at(*docs, uri@) is None,
        },
{
    if same_text(uri, POSTURES_DOC_URI) {
        Some(docs.postures.as_str())
    } else if same_text(uri, WORKFLOWS_DOC_URI) {
        Some(docs.workflows.as_str())
    } else {
        None
    }
}

/// The listing of an account's summary.
pub open spec fn account_resource_v(state: AccountState) -> ResourceV {
    ResourceV {
        uri: ACCOUNTS_URI_PREFIX@ + state.id@,
        name: state.id@,
        description: "IMAP account: "@ + state.imap_username@ + " on "@ + state.imap_host@,
        mime_type: "application/json"@,
    }
}

/// The listing of an account's summary.
pub fn account_resource(state: &AccountState) -> (r: Resource)
    ensures
        r@ == account_resource_v(*state),
{
    let mut uri = ACCOUNTS_URI_PREFIX.to_owned();
    uri.append(state.id.as_str());
    let mut description = "IMAP account: ".to_owned();
    description.append(state.imap_username.as_str());
    description.append(" on ");
    description.append(state.imap_host.as_str());
    Resource {
        uri,
        name: state.id.as_str().to_owned(),
        description,
        mime_type: "application/json".to_owned(),
    }
}

/// All that is listed: the two documents, then the accounts in order.
pub open spec fn listing(accounts: Seq<AccountState>) -> Seq<ResourceV> {
    static_docs_v() + Seq::new(accounts.len(), |i: int| account_resource_v(accounts[i]))
}

/// Lists the resources: the two documents, then the accounts in order.
pub fn list_resources(accounts: &Vec<AccountState>) -> (r: Vec<Resource>)
    ensures
        resources_view(r@) == listing(accounts@),
{
    let mut r = static_doc_resources();
    for i in 0..accounts.len()
        invariant
            resources_view(r@) == listing(accounts@.take(i as int)),
    {
        let ghost before = resources_view(r@);
        r.push(account_resource(&accounts[i]));
        assert(resources_view(r@) =~= before.push(account_resource_v(accounts@[i as int])));
        assert(listing(accounts@.take(i + 1)) =~= listing(accounts@.take(i as int)).push(
            account_resource_v(accounts@[i as int]),
        ));
    }
    assert(accounts@.take(accounts@.len() as int) =~= accounts@);
    r
}

/// The names on the wire of a list of tools.
pub open spec fn wire_names(tools: Seq<ToolName>) -> Seq<Seq<char>> {
    Seq::new(tools.len(), |i: int| tool::wire_name(tools[i]))
}

fn tool_names(tools: &Vec<ToolName>) -> (r: Vec<String>)
    ensures
        text::texts(r@) == wire_names(tools@),
{
    let mut r: Vec<String> = Vec::new();
    for i in 0..tools.len()
        invariant
            text::texts(r@) == wire_names(tools@).take(i as int),
    {
        let ghost before = text::texts(r@);
        r.push(tools[i].as_str().to_owned());
        assert(text::texts(r@) =~= before.push(tool::wire_name(tools@[i as int])));
        assert(wire_names(tools@).take(i + 1) =~= wire_names(tools@).take(i as int).push(
            tool::wire_name(tools@[i as int]),
        ));
    }
    assert(wire_names(tools@).take(tools@.len() as int) =~= wire_names(tools@));
    r
}

/// The summary of an account: its name, posture, mail server, whether it can
/// send, and the tools that it offers.
pub open spec fn account_summary(name: Seq<char>, state: AccountState) -> JsonV {
    JsonV::Object(
        map![
            "name"@ => JsonV::Str(name),
            "posture"@ => JsonV::Str(tool::posture_name(state.posture)),
            "imap_host"@ => JsonV::Str(state.imap_host@),
            "smtp_configured"@ => JsonV::Bool(state.smtp_configured),
            "available_tools"@ => JsonV::Array(
                json::text_items(wire_names(tool_catalog::defined(state.advertised@))),
            ),
        ],
    )
}

/// The summary of an account.
pub fn account_resource_metadata(account_name: &str, state: &AccountState) -> (r: Json)
    ensures
        r@ == account_summary(account_name@, *state),
{
    let tools = defined_tools(&state.advertised);
    let mut members: Vec<(String, Json)> = Vec::new();
    set_member(&mut members, "name", Json::Str(account_name.to_owned()));
    set_member(&mut members, "posture", Json::Str(state.posture.as_str().to_owned()));
    set_member(&mut members, "imap_host", Json::Str(state.imap_host.clone()));
    set_member(&mut members, "smtp_configured", Json::Bool(state.smtp_configured));
    set_member(&mut members, "available_tools", text_array(&tool_names(&tools)));
    Json::Object(members)
}

/// What is read at an address.
pub struct ResourceContents {
    pub uri: String,
    pub mime_type: String,
    pub text: String,
}

/// What is read at an address, by value.
#[verifier::ext_equal]
pub struct ContentsV {
    pub uri: Seq<char>,
    pub mime_type: Seq<char>,
    pub text: Seq<char>,
}

impl View for ResourceContents {
    type V = ContentsV;

    open spec fn view(&self) -> ContentsV {
        ContentsV { uri: self.uri@, mime_type: self.mime_type@, text: self.text@ }
    }
}

/// Why an address cannot be read.
pub enum ReadRefusal {
    /// The address itself is refused.
    Protocol(ErrorData),
    /// The account at the address does not exist.
    Account(RimapError),
}

/// The refusal of an address that leads nowhere.
pub open spec fn unsupported_uri(uri: Seq<char>) -> ErrorDataV {
    ErrorDataV {
        code: INVALID_PARAMS as int,
        message: "unsupported resource URI: "@ + uri,
        data: None,
    }
}

/// The refusal of an address whose account name is none. It does not repeat the
/// name.
pub open spec fn bad_account_name() -> ErrorDataV {
    ErrorDataV {
        code: RESOURCE_NOT_FOUND as int,
        message: "invalid account name in resource URI"@,
        data: None,
    }
}

/// What is read at an address, or why nothing is.
pub enum ReadingV {
    Contents(ContentsV),
    Refused(ErrorDataV),
    /// There is no account of this name.
    NoSuchAccount(Seq<char>),
}

/// What is read at an address: a document, or an account's summary.
pub open spec fn reading(accounts: Seq<AccountState>, docs: StaticDocs, uri: Seq<char>) -> ReadingV {
    match (doc_at(docs, uri), text::after_prefix(uri, ACCOUNTS_URI_PREFIX@)) {
        (Some(doc), _) => ReadingV::Contents(
            ContentsV { uri, mime_type: "text/markdown"@, text: doc },
        ),
        (None, None) => ReadingV::Refused(unsupported_uri(uri)),
        (None, Some(name)) => if !account::account_name(name) {
            ReadingV::Refused(bad_account_name())
        } else {
            match registry::last_named(accounts, name) {
                Some(state) => ReadingV::Contents(
                    ContentsV {
                        uri,
                        mime_type: "application/json"@,
                        text: json::json_pretty_text(account_summary(name, state)),
                    },
                ),
                None => ReadingV::NoSuchAccount(name),
            }
        },
    }
}

/// A result of reading is that of an address.
pub open spec fn reads_out(
    r: Result<ResourceContents, ReadRefusal>,
    reading: ReadingV,
    accounts: Seq<AccountState>,
) -> bool {
    match reading {
        ReadingV::Contents(contents) => r matches Ok(c) && c@ == contents,
        ReadingV::Refused(refusal) => r matches Err(ReadRefusal::Protocol(e)) && e@ == refusal,
        ReadingV::NoSuchAccount(name) => r matches Err(
            ReadRefusal::Account(RimapError::UnknownAccount { name: n, available }),
        ) && n@ == name && text::texts(available@) == registry::names(accounts),
    }
}

/// Reads the resource at an address: a document, or an account's summary.
pub fn read_resource(registry: &AccountRegistry, docs: &StaticDocs, uri: &str) -> (r: Result<
    ResourceContents,
    ReadRefusal,
>)
    ensures
        match (doc_at(*docs, uri@), text::after_prefix(uri@, ACCOUNTS_URI_PREFIX@)) {
            (Some(doc), _) => r matches Ok(c) && c@ == (ContentsV {
                uri: uri@,
                mime_type: "text/markdown"@,
                text: doc,
            }),
            (None, None) => r matches Err(ReadRefusal::Protocol(e)) && e@ == unsupported_uri(uri@),
            (None, Some(name)) => if !account::account_name(name) {
                r matches Err(ReadRefusal::Protocol(e)) && e@ == bad_account_name()
            } else {
                match registry::last_named(registry.states(), name) {
                    Some(state) => r matches Ok(c) && c@ == (ContentsV {
                        uri: uri@,
                        mime_type: "application/json"@,
                        text: json::json_pretty_text(account_summary(name, state)),
                    }),
                    None => r matches Err(
                        ReadRefusal::Account(RimapError::UnknownAccount { name: n, available }),
                    ) && n@ == name && text::texts(available@) == registry::names(
                        registry.states(),
                    ),
                }
            },
        },
        reads_out(r, reading(registry.states(), *docs, uri@), registry.states()),
{
    if let Some(doc) = static_doc_content(docs, uri) {
        return Ok(
            ResourceContents {
                uri: uri.to_owned(),
                mime_type: "text/markdown".to_owned(),
                text: doc.to_owned(),
            },
        );
    }
    let name = match strip_prefix(uri, ACCOUNTS_URI_PREFIX) {
        Some(name) => name,
        None => {
            let mut message = "unsupported resource URI: ".to_owned();
            message.append(uri);
            return Err(
                ReadRefusal::Protocol(ErrorData { code: INVALID_PARAMS, message, data: None }),
            );
        },
    };
    if !is_account_name(name) {
        return Err(
            ReadRefusal::Protocol(
                ErrorData {
                    code: RESOURCE_NOT_FOUND,
                    message: "invalid account name in resource URI".to_owned(),
                    data: None,
                },
            ),
        );
    }
    match registry.resolve(Some(name)) {
        Err(e) => Err(ReadRefusal::Account(e)),
        Ok(state) => {
            let summary = account_resource_metadata(name, state);
            Ok(
                ResourceContents {
                    uri: uri.to_owned(),
                    mime_type: "application/json".to_owned(),
                    text: render_json_pretty(&summary),
                },
            )
        },
    }
}

/// Every account's summary is read at the address that it is listed under.
pub proof fn law_listed_account_is_readable(state: AccountState)
    requires
        account::account_name(state.id@),
    ensures
        text::after_prefix(account_resource_v(state).uri, ACCOUNTS_URI_PREFIX@) == Some(state.id@),
        forall|docs: StaticDocs| doc_at(docs, #[trigger] account_resource_v(state).uri) is None,
{
    let uri = account_resource_v(state).uri;
    assert(uri.take(ACCOUNTS_URI_PREFIX@.len() as int) =~= ACCOUNTS_URI_PREFIX@);
    assert(uri.skip(ACCOUNTS_URI_PREFIX@.len() as int) =~= state.id@);
    reveal_strlit("rimap://accounts/");
    reveal_strlit("rimap://docs/postures");
    reveal_strlit("rimap://docs/workflows");
    assert(uri[8] == ACCOUNTS_URI_PREFIX@[8]);
    assert(ACCOUNTS_URI_PREFIX@[8] == 'a');
    assert(POSTURES_DOC_URI@[8] == 'd');
    assert(WORKFLOWS_DOC_URI@[8] == 'd');
}

/// A document is read at the address that it is listed under: the one on postures at
/// that of postures, the one on workflows at that of workflows. The address ends in
/// the name under which the document is listed.
pub proof fn law_listed_document_is_readable(docs: StaticDocs)
    ensures
        static_docs_v().len() == 2,
        static_docs_v()[0].name == "postures"@,
        doc_at(docs, static_docs_v()[0].uri) == Some(docs.postures@),
        static_docs_v()[0].uri == "rimap://docs/"@ + static_docs_v()[0].name,
        static_docs_v()[0].description == POSTURES_DESCRIPTION@,
        static_docs_v()[1].name == "workflows"@,
        static_docs_v()[1].description == WORKFLOWS_DESCRIPTION@,
        doc_at(docs, static_docs_v()[1].uri) == Some(docs.workflows@),
        static_docs_v()[1].uri == "rimap://docs/"@ + static_docs_v()[1].name,
{
    reveal_strlit("rimap://docs/");
    reveal_strlit("postures");
    reveal_strlit("workflows");
    reveal_strlit("rimap://docs/postures");
    reveal_strlit("rimap://docs/workflows");
    assert("rimap://docs/"@ + "postures"@ =~= POSTURES_DOC_URI@);
    assert("rimap://docs/"@ + "workflows"@ =~= WORKFLOWS_DOC_URI@);
    assert(POSTURES_DOC_URI@.len() == 21 && WORKFLOWS_DOC_URI@.len() == 22);
}

/// A document is markdown and an account's summary JSON, and an account is listed
/// under its name, at an address that ends in it, with its user and its mail server.
pub proof fn law_listing_tells_each_resource(accounts: Seq<AccountState>, i: int)
    requires
        0 <= i < accounts.len(),
    ensures
        listing(accounts).len() == accounts.len() + 2,
        listing(accounts)[0].mime_type == "text/markdown"@,
        listing(accounts)[1].mime_type == "text/markdown"@,
        listing(accounts)[i + 2].mime_type == "application/json"@,
        listing(accounts)[i + 2].name == accounts[i].id@,
        listing(accounts)[i + 2].uri == "rimap://accounts/"@ + accounts[i].id@,
        listing(accounts)[i + 2].description == "IMAP account: "@ + accounts[i].imap_username@
            + " on "@ + accounts[i].imap_host@,
{
}

/// The summary of an account read field by field.
pub proof fn law_summary_by_field(name: Seq<char>, state: AccountState)
    ensures
        json::field(account_summary(name, state), "name"@) == Some(JsonV::Str(name)),
        json::field(account_summary(name, state), "posture"@) == Some(
            JsonV::Str(tool::posture_name(state.posture)),
        ),
        json::field(account_summary(name, state), "imap_host"@) == Some(
            JsonV::Str(state.imap_host@),
        ),
        json::field(account_summary(name, state), "smtp_configured"@) == Some(
            JsonV::Bool(state.smtp_configured),
        ),
        json::field(account_summary(name, state), "available_tools"@) matches Some(
            JsonV::Array(tools),
        ) && tools.len() == tool_catalog::defined(state.advertised@).len() && forall|k: int|
            0 <= k < tools.len() ==> #[trigger] tools[k] == JsonV::Str(
                tool::wire_name(tool_catalog::defined(state.advertised@)[k]),
            ),
{
    reveal_strlit("name");
    reveal_strlit("posture");
    reveal_strlit("imap_host");
    reveal_strlit("smtp_configured");
    reveal_strlit("available_tools");
    assert("name"@.len() == 4 && "posture"@.len() == 7 && "imap_host"@.len() == 9);
    assert("smtp_configured"@[0] == 's' && "available_tools"@[0] == 'a');
    assert("smtp_configured"@.len() == 15 && "available_tools"@.len() == 15);
}

/// The summary of an account names every tool that the account offers and a client
/// can call, by its name on the wire.
pub proof fn law_summary_names_what_is_offered(
    name: Seq<char>,
    state: AccountState,
    offered: ToolName,
)
    requires
        state.advertised@.contains(offered),
        !(offered is SearchAdvanced) && !(offered is FetchMessageHtml) && !(offered
            is CreateDraftHtml),
    ensures
        json::field(account_summary(name, state), "available_tools"@) matches Some(
            JsonV::Array(tools),
        ) && tools.contains(JsonV::Str(tool::wire_name(offered))),
{
    law_summary_by_field(name, state);
    let k = tool_catalog::lemma_defined_holds(state.advertised@, offered);
    let tools = json::field(account_summary(name, state), "available_tools"@)->0->Array_0;
    assert(tools[k] == JsonV::Str(tool::wire_name(offered)));
}

/// A resource, what is read of it and a list of them are told field by field as they are
/// held.
pub proof fn law_resource_is_told_as_it_is_held(
    resource: Resource,
    contents: ResourceContents,
    all: Seq<Resource>,
    i: int,
)
    ensures
        resource@.uri == resource.uri@,
        resource@.name == resource.name@,
        resource@.description == resource.description@,
        resource@.mime_type == resource.mime_type@,
        contents@.uri == contents.uri@,
        contents@.mime_type == contents.mime_type@,
        contents@.text == contents.text@,
        resources_view(all).len() == all.len(),
        0 <= i < all.len() ==> resources_view(all)[i] == all[i]@,
{
}

/// An address that leads nowhere is refused by the code for parameters, with the address.
/// One whose account name is none is refused as not there, and does not repeat the name.
pub proof fn law_bad_addresses_are_told(uri: Seq<char>)
    ensures
        unsupported_uri(uri).code == -32602,
        unsupported_uri(uri).message == "unsupported resource URI: "@ + uri,
        bad_account_name().code == -32002,
        bad_account_name().message == "invalid account name in resource URI"@,
        unsupported_uri(uri).data is None && bad_account_name().data is None,
{
}

/// Whatever is listed can be read at its address, and is of the type that it is listed
/// with: a document as its own text, and an account as its own summary.
pub proof fn law_what_is_listed_is_read(
    accounts: Seq<AccountState>,
    docs: StaticDocs,
    k: int,
)
    requires
        registry::in_order(accounts),
        0 <= k < listing(accounts).len(),
        k >= 2 ==> account::account_name(accounts[k - 2].id@),
    ensures
        ({
            let listed = listing(accounts)[k];
            reading(accounts, docs, listed.uri) matches ReadingV::Contents(c) && {
                &&& c.uri == listed.uri
                &&& c.mime_type == listed.mime_type
                &&& k == 0 ==> c.text == docs.postures@
                &&& k == 1 ==> c.text == docs.workflows@
                &&& k >= 2 ==> c.text == json::json_pretty_text(
                    account_summary(accounts[k - 2].id@, accounts[k - 2]),
                )
            }
        }),
{
    law_listed_document_is_readable(docs);
    if k >= 2 {
        let state = accounts[k - 2];
        law_listed_account_is_readable(state);
        registry::law_every_account_is_reachable(accounts, k - 2);
        assert(listing(accounts)[k] == account_resource_v(state));
        assert(doc_at(docs, account_resource_v(state).uri) is None);
    }
}

/// An address of no account that is configured is told so, by the name. One that is
/// neither a document's nor an account's is refused.
pub proof fn law_what_is_not_there_is_refused(
    accounts: Seq<AccountState>,
    docs: StaticDocs,
    name: Seq<char>,
    uri: Seq<char>,
)
    ensures
        account::account_name(name) && registry::last_named(accounts, name) is None ==> reading(
            accounts,
            docs,
            "rimap://accounts/"@ + name,
        ) == ReadingV::NoSuchAccount(name),
        !account::account_name(name) ==> reading(accounts, docs, "rimap://accounts/"@ + name)
            == ReadingV::Refused(bad_account_name()),
        uri != "rimap://docs/postures"@ && uri != "rimap://docs/workflows"@ && !(
        "rimap://accounts/"@).is_prefix_of(uri) ==> reading(accounts, docs, uri)
            == ReadingV::Refused(unsupported_uri(uri)),
{
    let at = "rimap://accounts/"@ + name;
    text::law_prefix_comes_off(at, ACCOUNTS_URI_PREFIX@, name);
    reveal_strlit("rimap://accounts/");
    reveal_strlit("rimap://docs/postures");
    reveal_strlit("rimap://docs/workflows");
    assert(at[8] == ACCOUNTS_URI_PREFIX@[8]);
    assert(ACCOUNTS_URI_PREFIX@[8] == 'a');
    assert(POSTURES_DOC_URI@[8] == 'd');
    assert(WORKFLOWS_DOC_URI@[8] == 'd');
    if let Some(rest) = text::after_prefix(uri, ACCOUNTS_URI_PREFIX@) {
        text::law_prefix_comes_off(uri, ACCOUNTS_URI_PREFIX@, rest);
        assert(uri.subrange(0, ACCOUNTS_URI_PREFIX@.len() as int) =~= ACCOUNTS_URI_PREFIX@);
        assert(ACCOUNTS_URI_PREFIX@.is_prefix_of(uri));
    }
}

} // verus!
