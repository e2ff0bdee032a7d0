//! Tool names as clients call them: with or without an account in front, and
//! refined by what the arguments ask for.
use vstd::prelude::*;
use vstd::string::*;

use crate::account;
use crate::account::{is_account_name, DEFAULT_ACCOUNT_NAME};
use crate::boot::registry::AccountState;
use crate::json;
use crate::json::{lookup, Json, JsonV};
use crate::mcp::error::{ErrorData, ErrorDataV, INVALID_PARAMS};
use crate::text::same_text;
use crate::tool;
use crate::tool::ToolName;

verus! {

/// Exactly one account, of the default name.
pub open spec fn legacy_single(names: Seq<Seq<char>>) -> bool {
    names.len() == 1 && names[0] == DEFAULT_ACCOUNT_NAME@
}

/// Whether there is exactly one account and it has the default name: then tools
/// go by their bare names.
pub fn is_legacy_single_account(accounts: &Vec<AccountState>) -> (r: bool)
    ensures
        r == legacy_single(crate::boot::registry::names(accounts@)),
{
    accounts.len() == 1 && same_text(accounts[0].id.as_str(), DEFAULT_ACCOUNT_NAME)
}

/// The argument is a text. A null stands for none.
pub open spec fn gives_text(args: JsonV, key: Seq<char>) -> bool {
    json::field(args, key) matches Some(JsonV::Str(_))
}

/// A search that looks into message content: by a raw query, by body, text or
/// blind copy, or by any header.
pub open spec fn searches_content(args: JsonV) -> bool {
    ||| gives_text(args, "advanced_query"@)
    ||| gives_text(args, "body"@)
    ||| gives_text(args, "text"@)
    ||| gives_text(args, "bcc"@)
    ||| json::field(args, "headers"@) matches Some(JsonV::Array(items)) && items.len() > 0
}

/// What a call of `base` with these arguments asks for: the tool itself, or its
/// sub-capability that is gated on its own.
pub open spec fn refined(base: ToolName, args: Option<JsonV>) -> ToolName {
    match args {
        None => base,
        Some(args) => if base is FetchMessage && json::field(args, "include_html"@) == Some(
            JsonV::Bool(true),
        ) {
            ToolName::FetchMessageHtml
        } else if base is Search && searches_content(args) {
            ToolName::SearchAdvanced
        } else if base is CreateDraft && gives_text(args, "body_html"@) {
            ToolName::CreateDraftHtml
        } else {
            base
        },
    }
}

/// The arguments of a call by value.
pub open spec fn args_view(args: Option<&Vec<(String, Json)>>) -> Option<JsonV> {
    match args {
        Some(members) => Some(JsonV::Object(json::object_view(members@))),
        None => None,
    }
}

fn has_text(args: &Vec<(String, Json)>, key: &str) -> (r: bool)
    ensures
        r == gives_text(JsonV::Object(json::object_view(args@)), key@),
{
    match lookup(args, key) {
        Some(Json::Str(_)) => true,
        _ => false,
    }
}

/// Whether the arguments of a search make it look into message content.
pub fn promotes_search_to_advanced(args: &Vec<(String, Json)>) -> (r: bool)
    ensures
        r == searches_content(JsonV::Object(json::object_view(args@))),
{
    if has_text(args, "advanced_query") || has_text(args, "body") || has_text(args, "text")
        || has_text(args, "bcc") {
        return true;
    }
    match lookup(args, "headers") {
        Some(Json::Array(items)) => {
            proof {
                json::lemma_array_view(items@);
            }
            items.len() > 0
        },
        _ => false,
    }
}

/// The tool that a call of `base` asks for: a sub-capability where the arguments
/// call for one, so that the posture check sees it.
pub fn refine_tool_name(base: ToolName, args: Option<&Vec<(String, Json)>>) -> (r: ToolName)
    ensures
        r == refined(base, args_view(args)),
{
    match args {
        None => base,
        Some(args) => match base {
            ToolName::FetchMessage => match lookup(args, "include_html") {
                Some(Json::Bool(true)) => ToolName::FetchMessageHtml,
                _ => base,
            },
            ToolName::Search => if promotes_search_to_advanced(args) {
                ToolName::SearchAdvanced
            } else {
                base
            },
            ToolName::CreateDraft => if has_text(args, "body_html") {
                ToolName::CreateDraftHtml
            } else {
                base
            },
            _ => base,
        },
    }
}

/// The bare name, without a dot, of a tool of an account.
pub open spec fn bare_simple(raw: Seq<char>) -> bool {
    !raw.contains('.') && (tool::tool_of(raw) matches Some(t) && !tool::infrastructure(t))
}

/// The position of the first dot: `None` where there is none.
pub open spec fn first_dot(raw: Seq<char>) -> Option<int> {
    raw.index_of_first('.')
}

fn find_dot(raw: &str) -> (r: Option<usize>)
    ensures
        match r {
            Some(i) => first_dot(raw@) == Some(i as int) && i < raw@.len(),
            None => first_dot(raw@) is None && !raw@.contains('.'),
        },
{
    proof {
        raw@.index_of_first_ensures('.');
    }
    let n: usize = raw.unicode_len();
    let mut i: usize = 0;
    for c in it: raw.chars()
        invariant
            it.seq() == raw@,
            n == raw@.len(),
            i == it.index(),
            forall|j: int| 0 <= j < i ==> #[trigger] raw@[j] != '.',
    {
        if c == '.' {
            assert(raw@[i as int] == '.');
            proof {
                raw@.index_of_first_ensures('.');
            }
            return Some(i);
        }
        i = i + 1;
    }
    None
}

/// Whether `raw` is the bare name, without a dot, of a tool of an account.
pub fn is_bare_simple_tool_name(raw: &str) -> (r: bool)
    ensures
        r == bare_simple(raw@),
{
    proof {
        raw@.index_of_first_ensures('.');
    }
    if find_dot(raw).is_some() {
        return false;
    }
    match ToolName::parse(raw) {
        None => false,
        Some(t) => !t.is_infrastructure(),
    }
}

/// The refusal of a bare name where an account has to be named.
pub open spec fn not_namespaced(raw: Seq<char>) -> ErrorDataV {
    ErrorDataV {
        code: INVALID_PARAMS as int,
        message: "tool name must be namespaced in multi-account mode: <account>."@ + raw,
        data: None,
    }
}

/// Refuses the bare name of an account's tool, unless the sole account has the
/// default name.
pub fn validate_bare_tool_namespace(legacy_single_account: bool, raw_name: &str) -> (r: Result<
    (),
    ErrorData,
>)
    ensures
        match r {
            Ok(()) => legacy_single_account || !bare_simple(raw_name@),
            Err(e) => !legacy_single_account && bare_simple(raw_name@) && e@ == not_namespaced(
                raw_name@,
            ),
        },
{
    if !legacy_single_account && is_bare_simple_tool_name(raw_name) {
        let mut message = "tool name must be namespaced in multi-account mode: <account>."
            .to_owned();
        message.append(raw_name);
        return Err(ErrorData { code: INVALID_PARAMS, message, data: None });
    }
    Ok(())
}

/// The account and the tool's name in a name as it is called. A name that is a
/// tool's stands for itself, dots and all.
pub open spec fn split_name(raw: Seq<char>) -> (Option<Seq<char>>, Seq<char>) {
    if tool::tool_of(raw) is Some {
        (None, raw)
    } else {
        match first_dot(raw) {
            Some(i) => if account::account_name(raw.take(i)) && tool::tool_of(raw.skip(i + 1))
                is Some {
                (Some(raw.take(i)), raw.skip(i + 1))
            } else {
                (None, raw)
            },
            None => (None, raw),
        }
    }
}

/// Splits a name as it is called into the account, where one is named, and the
/// tool's name.
pub fn split_tool_name<'a>(raw: &'a str) -> (r: (Option<&'a str>, &'a str))
    ensures
        r.1@ == split_name(raw@).1,
        match r.0 {
            Some(account) => split_name(raw@).0 == Some(account@),
            None => split_name(raw@).0 is None,
        },
{
    if ToolName::parse(raw).is_some() {
        return (None, raw);
    }
    match find_dot(raw) {
        Some(i) => {
            let n: usize = raw.unicode_len();
            let prefix = raw.substring_char(0, i);
            let rest = raw.substring_char(i + 1, n);
            assert(prefix@ =~= raw@.take(i as int));
            assert(rest@ =~= raw@.skip(i + 1));
            if is_valid_account_prefix(prefix) && ToolName::parse(rest).is_some() {
                (Some(prefix), rest)
            } else {
                (None, raw)
            }
        },
        None => (None, raw),
    }
}

/// Whether a text can stand in front of a tool's name as the account.
pub fn is_valid_account_prefix(s: &str) -> (r: bool)
    ensures
        r == account::account_name(s@),
{
    is_account_name(s)
}

/// The name by which a tool of an account is called.
pub open spec fn namespaced(account: Seq<char>, tool: ToolName) -> Seq<char> {
    account.push('.') + tool::wire_name(tool)
}

proof fn lemma_first_dot_behind_account(account: Seq<char>, rest: Seq<char>)
    requires
        account::account_name(account),
    ensures
        first_dot(account.push('.') + rest) == Some(account.len() as int),
{
    let s = account.push('.') + rest;
    s.index_of_first_ensures('.');
    assert(s[account.len() as int] == '.');
    assert forall|j: int| 0 <= j < account.len() implies s[j] != '.' by {
        assert(s[j] == account[j]);
        assert(account::account_char(account[j]));
    }
}

/// No tool's own name reads as an account and a tool.
proof fn lemma_no_tool_is_namespaced(account: Seq<char>, inner: ToolName, outer: ToolName)
    requires
        account::account_name(account),
    ensures
        tool::wire_name(outer) != namespaced(account, inner),
{
    let s = namespaced(account, inner);
    if tool::wire_name(outer) == s {
        assert(s[account.len() as int] == '.');
        assert forall|j: int| 0 <= j < account.len() implies s[j] != '.' && s[j] != '_' by {
            assert(s[j] == account[j]);
            assert(account::account_char(account[j]));
        }
        tool::lemma_dotted_names(outer, account.len() as int);
        let rest = tool::wire_name(outer).skip(7);
        assert(rest =~= tool::wire_name(inner));
        tool::lemma_no_tool_is_advanced_query(inner);
    }
}

/// What is called by account and tool is split into just these.
pub proof fn law_namespaced_name_splits(account: Seq<char>, tool: ToolName)
    requires
        account::account_name(account),
    ensures
        split_name(namespaced(account, tool)) == (Some(account), tool::wire_name(tool)),
{
    let s = namespaced(account, tool);
    lemma_first_dot_behind_account(account, tool::wire_name(tool));
    if tool::tool_of(s) is Some {
        let t = choose|t: ToolName| #[trigger] tool::wire_name(t) == s;
        lemma_no_tool_is_namespaced(account, tool, t);
    }
    assert(s.take(account.len() as int) =~= account);
    assert(s.skip(account.len() as int + 1) =~= tool::wire_name(tool));
    tool::law_name_reads_back(tool);
}

/// A tool's own name, with a dot in it or not, names no account.
pub proof fn law_tool_name_is_bare(tool: ToolName)
    ensures
        split_name(tool::wire_name(tool)) == (None::<Seq<char>>, tool::wire_name(tool)),
{
    tool::law_name_reads_back(tool);
}

/// Whatever a split gives back, the account is one that can be configured, the
/// rest is a tool's name, and together they are what was called.
pub proof fn law_split_loses_nothing(raw: Seq<char>)
    ensures
        match split_name(raw) {
            (Some(account), rest) => account::account_name(account) && tool::tool_of(rest) is Some
                && raw == account.push('.') + rest,
            (None, rest) => rest == raw,
        },
{
    raw.index_of_first_ensures('.');
    if let Some(i) = first_dot(raw) {
        assert(raw =~= raw.take(i).push('.') + raw.skip(i + 1));
    }
}

/// Refining a call leaves its tool the same, or gives a sub-capability of it that
/// no client calls by name in its place. Refining twice changes nothing more.
pub proof fn law_refining_is_stable(base: ToolName, args: Option<JsonV>)
    ensures
        refined(refined(base, args), args) == refined(base, args),
        refined(base, args) != base ==> (base is FetchMessage && refined(base, args)
            is FetchMessageHtml) || (base is Search && refined(base, args) is SearchAdvanced) || (
        base is CreateDraft && refined(base, args) is CreateDraftHtml),
        refined(base, None) == base,
{
}

/// A search by any header at all is an advanced one, however many headers it names.
pub proof fn law_any_header_makes_a_search_advanced(args: JsonV, headers: Seq<JsonV>, i: int)
    requires
        json::field(args, "headers"@) == Some(JsonV::Array(headers)),
        0 <= i < headers.len(),
    ensures
        refined(ToolName::Search, Some(args)) is SearchAdvanced,
{
}

/// A search is an advanced one where a raw query, a body, a text or a blind copy is
/// asked for, as a string of whatever length.
pub proof fn law_any_content_makes_a_search_advanced(args: JsonV, wanted: Seq<char>)
    ensures
        json::field(args, "advanced_query"@) == Some(JsonV::Str(wanted)) ==> refined(
            ToolName::Search,
            Some(args),
        ) is SearchAdvanced,
        json::field(args, "body"@) == Some(JsonV::Str(wanted)) ==> refined(
            ToolName::Search,
            Some(args),
        ) is SearchAdvanced,
        json::field(args, "text"@) == Some(JsonV::Str(wanted)) ==> refined(
            ToolName::Search,
            Some(args),
        ) is SearchAdvanced,
        json::field(args, "bcc"@) == Some(JsonV::Str(wanted)) ==> refined(
            ToolName::Search,
            Some(args),
        ) is SearchAdvanced,
{
}

/// A search stays a plain one only where it gives none of the five arguments that
/// look into content: no raw query, body, text or blind copy, and no header.
pub proof fn law_plain_search_gives_no_content(args: JsonV)
    ensures
        refined(ToolName::Search, Some(args)) is Search <==> {
            &&& !(json::field(args, "advanced_query"@) matches Some(JsonV::Str(_)))
            &&& !(json::field(args, "body"@) matches Some(JsonV::Str(_)))
            &&& !(json::field(args, "text"@) matches Some(JsonV::Str(_)))
            &&& !(json::field(args, "bcc"@) matches Some(JsonV::Str(_)))
            &&& json::field(args, "headers"@) matches Some(JsonV::Array(headers)) ==> headers
                =~= Seq::empty()
        },
{
}

/// Asking for more never makes a search a plain one again: arguments beside those
/// that made it an advanced one leave it so.
pub proof fn law_more_arguments_keep_a_search_advanced(
    fewer: Map<Seq<char>, JsonV>,
    more: Map<Seq<char>, JsonV>,
)
    requires
        fewer.submap_of(more),
        refined(ToolName::Search, Some(JsonV::Object(fewer))) is SearchAdvanced,
    ensures
        refined(ToolName::Search, Some(JsonV::Object(more))) is SearchAdvanced,
{
    let key = if fewer.contains_key("advanced_query"@)
        && fewer["advanced_query"@] is Str {
        "advanced_query"@
    } else if fewer.contains_key("body"@) && fewer["body"@] is Str {
        "body"@
    } else if fewer.contains_key("text"@) && fewer["text"@] is Str {
        "text"@
    } else if fewer.contains_key("bcc"@) && fewer["bcc"@] is Str {
        "bcc"@
    } else {
        "headers"@
    };
    assert(fewer.contains_key(key));
    assert(fewer.dom().contains(key));
    assert(more.contains_key(key) && more[key] == fewer[key]);
}

/// A message is fetched with its HTML only where that is asked for by `true`, and a
/// draft is made with HTML only where its text is given. Every other tool is what it
/// was called as, whatever the arguments.
pub proof fn law_html_is_asked_for(args: JsonV, tool: ToolName)
    ensures
        refined(ToolName::FetchMessage, Some(args)) is FetchMessageHtml <==> json::field(
            args,
            "include_html"@,
        ) == Some(JsonV::Bool(true)),
        refined(ToolName::CreateDraft, Some(args)) is CreateDraftHtml <==> (json::field(
            args,
            "body_html"@,
        ) matches Some(JsonV::Str(_))),
        !(tool is FetchMessage) && !(tool is Search) && !(tool is CreateDraft) ==> refined(
            tool,
            Some(args),
        ) == tool,
{
}

/// Without an account in front, a name is taken as a whole: only the sole account
/// of the default name can be left out.
pub proof fn law_default_account_can_be_left_out(names: Seq<Seq<char>>)
    ensures
        legacy_single(names) <==> names =~= seq![DEFAULT_ACCOUNT_NAME@],
{
}

/// The bare names that an account has to stand in front of are those of its tools: not
/// those of the tools about accounts, and not those of sub-capabilities.
pub proof fn law_bare_names(tool: ToolName, raw: Seq<char>)
    ensures
        bare_simple(tool::wire_name(tool)) <==> !(tool is UseAccount) && !(tool is ListAccounts)
            && !(tool is SearchAdvanced) && !(tool is FetchMessageHtml) && !(tool
            is CreateDraftHtml),
        (forall|t: ToolName| #[trigger] tool::wire_name(t) != raw) ==> !bare_simple(raw),
{
    tool::law_name_reads_back(tool);
    if !(tool is SearchAdvanced) && !(tool is FetchMessageHtml) && !(tool is CreateDraftHtml) {
        tool::lemma_undotted_names(tool);
    } else {
        reveal_strlit("search.advanced_query");
        reveal_strlit("fetch_message.include_html");
        reveal_strlit("create_draft.include_html");
        let name = tool::wire_name(tool);
        let dot: int = if tool is SearchAdvanced {
            6
        } else if tool is FetchMessageHtml {
            13
        } else {
            12
        };
        assert(name[dot] == '.');
        assert(name.contains('.'));
    }
}

/// The arguments of a call are told as an object of its members, and no arguments as
/// none.
pub proof fn law_arguments_are_told_as_they_are_held(members: Vec<(String, Json)>)
    ensures
        args_view(Some(&members)) == Some(JsonV::Object(json::object_view(members@))),
        args_view(None) is None,
{
}

} // verus!
