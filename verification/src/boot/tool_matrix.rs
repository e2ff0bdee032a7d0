//! The policy that an account is started with: its explicit verdicts on tools and
//! its folder lists, each with the layer of the configuration that it comes from.
use vstd::prelude::*;
use vstd::string::*;

use crate::account::AccountId;
use crate::boot::mutf7;
use crate::boot::mutf7::holds_folder;
use crate::text;
use crate::text::join;
use crate::tool;
use crate::tool::{Posture, ToolName};

verus! {

/// What the configuration says of a tool.
#[derive(Debug, Clone, Copy, PartialEq, Eq, Structural)]
pub enum Verdict {
    Allow,
    Deny,
}

/// The layer that wrote a verdict.
#[derive(Debug, Clone, Copy, PartialEq, Eq, Structural)]
pub enum VerdictSource {
    Account,
    Inherited,
}

/// Where a folder of a list comes from.
#[derive(Debug, Clone, Copy, PartialEq, Eq, Structural)]
pub enum FolderSource {
    Account,
    Inherited,
    Discovered,
}

/// Whether the server's special-use folders have been looked up.
#[derive(Debug, Clone, Copy, PartialEq, Eq, Structural)]
pub enum SpecialUseDiscovery {
    Ran,
    NotRun,
}

/// What is said of a tool, and by which layer.
#[derive(Debug, Clone, Copy, PartialEq, Eq, Structural)]
pub struct ToolVerdict {
    pub tool: ToolName,
    pub allow: bool,
    pub source: VerdictSource,
}

/// A folder of a list.
#[derive(Debug)]
pub struct FolderEntry {
    pub folder: String,
    pub source: FolderSource,
}

/// The part of an account's configuration that decides its policy.
pub struct AccountConfig {
    pub id: AccountId,
    pub posture: Posture,
    pub imap_host: String,
    /// Explicit verdicts. Of two on one tool the later counts.
    pub tool_overrides: Vec<(ToolName, Verdict)>,
    /// The tools whose verdict the account wrote itself.
    pub account_written_tools: Vec<ToolName>,
    pub protected_folders: Vec<String>,
    pub account_written_protected_folders: bool,
    pub expunge_folders: Vec<String>,
    pub account_written_expunge_folders: bool,
}

/// The policy of an account.
pub struct AccountToolMatrix {
    pub account: String,
    pub posture: Posture,
    pub tools: Vec<ToolVerdict>,
    pub protected_folders: Vec<FolderEntry>,
    pub special_use_discovery: SpecialUseDiscovery,
    pub expunge_folders: Vec<FolderEntry>,
}

/// The names and sources of a folder list.
pub open spec fn entries_view(entries: Seq<FolderEntry>) -> Seq<(Seq<char>, FolderSource)> {
    Seq::new(entries.len(), |i: int| (entries[i].folder@, entries[i].source))
}

/// The policy of an account, its texts as sequences.
#[verifier::ext_equal]
pub struct MatrixV {
    pub account: Seq<char>,
    pub posture: Posture,
    pub tools: Seq<ToolVerdict>,
    pub protected_folders: Seq<(Seq<char>, FolderSource)>,
    pub special_use_discovery: SpecialUseDiscovery,
    pub expunge_folders: Seq<(Seq<char>, FolderSource)>,
}

impl View for AccountToolMatrix {
    type V = MatrixV;

    open spec fn view(&self) -> MatrixV {
        MatrixV {
            account: self.account@,
            posture: self.posture,
            tools: self.tools@,
            protected_folders: entries_view(self.protected_folders@),
            special_use_discovery: self.special_use_discovery,
            expunge_folders: entries_view(self.expunge_folders@),
        }
    }
}

/// The verdict on a tool: the last one in the list.
pub open spec fn verdict_on(
    overrides: Seq<(ToolName, Verdict)>,
    wanted: ToolName,
) -> Option<Verdict>
    decreases overrides.len(),
{
    if overrides.len() == 0 {
        None
    } else if overrides.last().0 == wanted {
        Some(overrides.last().1)
    } else {
        verdict_on(overrides.drop_last(), wanted)
    }
}

/// What a configuration says of a tool, and which layer says so.
pub open spec fn explicit(config: AccountConfig, wanted: ToolName) -> Option<ToolVerdict> {
    match verdict_on(config.tool_overrides@, wanted) {
        Some(verdict) => Some(
            (ToolVerdict {
                tool: wanted,
                allow: verdict == Verdict::Allow,
                source: if config.account_written_tools@.contains(wanted) {
                    VerdictSource::Account
                } else {
                    VerdictSource::Inherited
                },
            }),
        ),
        None => None,
    }
}

/// The explicit verdicts on some tools, in their order.
pub open spec fn rows(config: AccountConfig, tools: Seq<ToolName>) -> Seq<ToolVerdict>
    decreases tools.len(),
{
    if tools.len() == 0 {
        Seq::empty()
    } else {
        match explicit(config, tools.last()) {
            Some(row) => rows(config, tools.drop_last()).push(row),
            None => rows(config, tools.drop_last()),
        }
    }
}

/// The source of a whole list.
pub open spec fn layer(account_written: bool) -> FolderSource {
    if account_written {
        FolderSource::Account
    } else {
        FolderSource::Inherited
    }
}

/// Every name of a list with one source.
pub open spec fn tagged(
    folders: Seq<Seq<char>>,
    account_written: bool,
) -> Seq<(Seq<char>, FolderSource)> {
    Seq::new(folders.len(), |i: int| (folders[i], layer(account_written)))
}

/// Where a folder of the resolved list comes from: from the configuration where
/// that names it, whatever the case or encoding of its name.
pub open spec fn source_of(
    configured: Seq<Seq<char>>,
    account_written: bool,
    folder: Seq<char>,
) -> FolderSource {
    if mutf7::holds(configured, folder) {
        layer(account_written)
    } else {
        FolderSource::Discovered
    }
}

/// The protected folders: the resolved list, each folder with its source; the
/// configured list where none is resolved yet.
pub open spec fn protected(
    config: AccountConfig,
    resolved: Option<Seq<Seq<char>>>,
) -> Seq<(Seq<char>, FolderSource)> {
    let configured = text::texts(config.protected_folders@);
    let written = config.account_written_protected_folders;
    match resolved {
        Some(folders) => Seq::new(
            folders.len(),
            |i: int| (folders[i], source_of(configured, written, folders[i])),
        ),
        None => tagged(configured, written),
    }
}

/// The policy of an account.
pub open spec fn matrix_of(config: AccountConfig, resolved: Option<Seq<Seq<char>>>) -> MatrixV {
    MatrixV {
        account: config.id@,
        posture: config.posture,
        tools: rows(config, tool::all_tools()),
        protected_folders: protected(config, resolved),
        special_use_discovery: if resolved is Some {
            SpecialUseDiscovery::Ran
        } else {
            SpecialUseDiscovery::NotRun
        },
        expunge_folders: tagged(
            text::texts(config.expunge_folders@),
            config.account_written_expunge_folders,
        ),
    }
}

/// A list that may be missing.
pub open spec fn list_view(list: Option<&Vec<String>>) -> Option<Seq<Seq<char>>> {
    match list {
        Some(folders) => Some(text::texts(folders@)),
        None => None,
    }
}

/// Only what the configuration names outright is listed, and all of that.
pub proof fn law_rows_are_the_explicit_verdicts(config: AccountConfig, wanted: ToolName)
    ensures
        match explicit(config, wanted) {
            Some(row) => rows(config, tool::all_tools()).contains(row),
            None => forall|i: int|
                0 <= i < rows(config, tool::all_tools()).len() ==> (#[trigger] rows(
                    config,
                    tool::all_tools(),
                )[i]).tool != wanted,
        },
{
    tool::law_all_tools_lists_each(wanted);
    lemma_rows(config, tool::all_tools());
    if let Some(row) = explicit(config, wanted) {
        assert(tool::all_tools().contains(wanted));
    }
}

/// The rows of a list: one for each tool that has a verdict, and no other.
proof fn lemma_rows(config: AccountConfig, tools: Seq<ToolName>)
    ensures
        forall|i: int|
            0 <= i < rows(config, tools).len() ==> {
                let row = #[trigger] rows(config, tools)[i];
                tools.contains(row.tool) && explicit(config, row.tool) == Some(row)
            },
        forall|t: ToolName| #[trigger]
            tools.contains(t) ==> match explicit(config, t) {
                Some(row) => rows(config, tools).contains(row),
                None => true,
            },
    decreases tools.len(),
{
    if tools.len() > 0 {
        let rest = tools.drop_last();
        lemma_rows(config, rest);
        let all = rows(config, tools);
        let before = rows(config, rest);
        assert forall|i: int| 0 <= i < all.len() implies {
            let row = #[trigger] all[i];
            tools.contains(row.tool) && explicit(config, row.tool) == Some(row)
        } by {
            if i < before.len() {
                let row = before[i];
                assert(rest.contains(row.tool));
                let k = choose|k: int| 0 <= k < rest.len() && rest[k] == row.tool;
                assert(tools[k] == row.tool);
            } else {
                assert(tools[tools.len() - 1] == tools.last());
            }
        }
        assert forall|t: ToolName| #[trigger] tools.contains(t) implies match explicit(config, t) {
            Some(row) => all.contains(row),
            None => true,
        } by {
            if let Some(row) = explicit(config, t) {
                let k = choose|k: int| 0 <= k < tools.len() && tools[k] == t;
                if k < rest.len() {
                    assert(rest[k] == t);
                    assert(rest.contains(t));
                    let j = choose|j: int| 0 <= j < before.len() && before[j] == row;
                    assert(all[j] == row);
                } else {
                    assert(all[all.len() - 1] == row);
                }
            }
        }
    }
}

/// Rows stand in the order in which tools are declared.
pub proof fn law_rows_follow_declaration_order(config: AccountConfig, i: int, j: int)
    requires
        0 <= i < j < rows(config, tool::all_tools()).len(),
    ensures
        tool::position(rows(config, tool::all_tools())[i].tool) < tool::position(
            rows(config, tool::all_tools())[j].tool,
        ),
{
    assert(tool::all_tools().take(tool::all_tools().len() as int) =~= tool::all_tools());
    lemma_order(config, tool::all_tools().len() as int, i, j);
}

proof fn lemma_order(config: AccountConfig, n: int, i: int, j: int)
    requires
        0 <= n <= tool::all_tools().len(),
        0 <= i < j < rows(config, tool::all_tools().take(n)).len(),
    ensures
        tool::position(rows(config, tool::all_tools().take(n))[i].tool) < tool::position(
            rows(config, tool::all_tools().take(n))[j].tool,
        ),
    decreases n,
{
    let all = tool::all_tools();
    let tools = all.take(n);
    if n > 0 {
        let rest = all.take(n - 1);
        assert(tools.drop_last() =~= rest);
        if j < rows(config, rest).len() {
            lemma_order(config, n - 1, i, j);
        } else {
            lemma_rows(config, rest);
            let first = rows(config, tools)[i].tool;
            assert(rows(config, rest)[i].tool == first);
            assert(rest.contains(first));
            let k = choose|k: int| 0 <= k < rest.len() && rest[k] == first;
            assert(all[k] == first);
            tool::law_all_tools_lists_each(first);
            tool::law_all_tools_lists_each(all[n - 1]);
            lemma_positions(k);
            lemma_positions(n - 1);
        }
    }
}

proof fn lemma_positions(k: int)
    requires
        0 <= k < tool::all_tools().len(),
    ensures
        tool::position(tool::all_tools()[k]) == k,
{
}

/// Once folders are resolved, the recorded list is the resolved list, folder for
/// folder, and says that they were looked up.
pub proof fn law_recorded_list_is_the_resolved_list(
    config: AccountConfig,
    resolved: Seq<Seq<char>>,
    i: int,
)
    requires
        0 <= i < resolved.len(),
    ensures
        matrix_of(config, Some(resolved)).protected_folders.len() == resolved.len(),
        matrix_of(config, Some(resolved)).protected_folders[i].0 == resolved[i],
        matrix_of(config, Some(resolved)).special_use_discovery == SpecialUseDiscovery::Ran,
{
}

/// Before folders are looked up, the record lists the configured folders, none of
/// them as discovered, and says that they were not looked up: another claim than
/// that of an empty resolved list.
pub proof fn law_nothing_is_discovered_before_discovery(config: AccountConfig)
    ensures
        ({
            let before = matrix_of(config, None);
            let empty = matrix_of(config, Some(Seq::empty()));
            let configured = text::texts(config.protected_folders@);
            &&& before.protected_folders.len() == configured.len()
            &&& forall|i: int|
                0 <= i < configured.len() ==> (#[trigger] before.protected_folders[i]).0
                    == configured[i] && before.protected_folders[i].1 != FolderSource::Discovered
            &&& empty.protected_folders.len() == 0
            &&& before != empty
        }),
{
    assert(matrix_of(config, None).special_use_discovery == SpecialUseDiscovery::NotRun);
    assert(matrix_of(config, Some(Seq::empty())).special_use_discovery == SpecialUseDiscovery::Ran);
}

fn find_verdict(overrides: &Vec<(ToolName, Verdict)>, wanted: ToolName) -> (r: Option<Verdict>)
    ensures
        r == verdict_on(overrides@, wanted),
{
    let mut i: usize = overrides.len();
    assert(overrides@.take(i as int) =~= overrides@);
    while i > 0
        invariant
            i <= overrides@.len(),
            verdict_on(overrides@, wanted) == verdict_on(overrides@.take(i as int), wanted),
        decreases i,
    {
        assert(overrides@.take(i as int).drop_last() =~= overrides@.take(i - 1));
        i = i - 1;
        if overrides[i].0 == wanted {
            return Some(overrides[i].1);
        }
    }
    None
}

fn lists_tool(tools: &Vec<ToolName>, wanted: ToolName) -> (r: bool)
    ensures
        r == tools@.contains(wanted),
{
    for i in 0..tools.len()
        invariant
            forall|j: int| 0 <= j < i ==> tools@[j] != wanted,
    {
        if tools[i] == wanted {
            assert(tools@[i as int] == wanted);
            return true;
        }
    }
    false
}

fn explicit_verdict(acfg: &AccountConfig, wanted: ToolName) -> (r: Option<ToolVerdict>)
    ensures
        r == explicit(*acfg, wanted),
{
    match find_verdict(&acfg.tool_overrides, wanted) {
        Some(verdict) => {
            let source = if lists_tool(&acfg.account_written_tools, wanted) {
                VerdictSource::Account
            } else {
                VerdictSource::Inherited
            };
            Some(ToolVerdict { tool: wanted, allow: verdict == Verdict::Allow, source })
        },
        None => None,
    }
}

fn layer_of(account_written: bool) -> (r: FolderSource)
    ensures
        r == layer(account_written),
{
    if account_written {
        FolderSource::Account
    } else {
        FolderSource::Inherited
    }
}

/// Every name of a configured list with the layer that wrote the list.
pub fn folder_entries(folders: &Vec<String>, account_written: bool) -> (r: Vec<FolderEntry>)
    ensures
        entries_view(r@) == tagged(text::texts(folders@), account_written),
{
    let mut entries: Vec<FolderEntry> = Vec::new();
    for i in 0..folders.len()
        invariant
            entries@.len() == i,
            forall|j: int|
                0 <= j < i ==> (#[trigger] entries@[j]).folder@ == folders@[j]@
                    && entries@[j].source == layer(account_written),
    {
        entries.push(
            FolderEntry {
                folder: folders[i].as_str().to_owned(),
                source: layer_of(account_written),
            },
        );
    }
    assert(entries_view(entries@) =~= tagged(text::texts(folders@), account_written));
    entries
}

/// The protected folders, each with its source.
pub fn protected_entries(
    acfg: &AccountConfig,
    resolved_protected: Option<&Vec<String>>,
) -> (r: Vec<FolderEntry>)
    ensures
        entries_view(r@) == protected(*acfg, list_view(resolved_protected)),
{
    let resolved = match resolved_protected {
        Some(resolved) => resolved,
        None => {
            return folder_entries(&acfg.protected_folders, acfg.account_written_protected_folders);
        },
    };
    let ghost configured = text::texts(acfg.protected_folders@);
    let ghost written = acfg.account_written_protected_folders;
    let mut entries: Vec<FolderEntry> = Vec::new();
    for i in 0..resolved.len()
        invariant
            entries@.len() == i,
            configured == text::texts(acfg.protected_folders@),
            written == acfg.account_written_protected_folders,
            forall|j: int|
                0 <= j < i ==> (#[trigger] entries@[j]).folder@ == resolved@[j]@
                    && entries@[j].source == source_of(configured, written, resolved@[j]@),
    {
        let source = if holds_folder(&acfg.protected_folders, resolved[i].as_str()) {
            layer_of(acfg.account_written_protected_folders)
        } else {
            FolderSource::Discovered
        };
        entries.push(FolderEntry { folder: resolved[i].as_str().to_owned(), source });
    }
    assert(entries_view(entries@) =~= protected(*acfg, list_view(resolved_protected)));
    entries
}

/// The policy of an account: posture, explicit verdicts in the order in which
/// tools are declared, and folder lists.
///
/// `resolved_protected` is the list that the account is guarded with; `None` where
/// the server's special-use folders have not been looked up.
pub fn account_tool_matrix(
    acfg: &AccountConfig,
    resolved_protected: Option<&Vec<String>>,
) -> (r: AccountToolMatrix)
    ensures
        r@ == matrix_of(*acfg, list_view(resolved_protected)),
{
    let all = ToolName::all();
    let mut tools: Vec<ToolVerdict> = Vec::new();
    for i in 0..all.len()
        invariant
            tools@ == rows(*acfg, all@.take(i as int)),
    {
        assert(all@.take(i + 1).drop_last() =~= all@.take(i as int));
        match explicit_verdict(acfg, all[i]) {
            Some(row) => {
                tools.push(row);
            },
            None => {},
        }
    }
    assert(all@.take(all@.len() as int) =~= all@);
    let special_use_discovery = match resolved_protected {
        Some(_) => SpecialUseDiscovery::Ran,
        None => SpecialUseDiscovery::NotRun,
    };
    AccountToolMatrix {
        account: acfg.id.as_str().to_owned(),
        posture: acfg.posture,
        tools,
        protected_folders: protected_entries(acfg, resolved_protected),
        special_use_discovery,
        expunge_folders: folder_entries(
            &acfg.expunge_folders,
            acfg.account_written_expunge_folders,
        ),
    }
}

/// A verdict as text, such as `delete_message=allow(inherited)`.
pub open spec fn verdict_text(verdict: ToolVerdict) -> Seq<char> {
    let word = if verdict.allow {
        "allow"@
    } else {
        "deny"@
    };
    let source = match verdict.source {
        VerdictSource::Account => "account"@,
        VerdictSource::Inherited => "inherited"@,
    };
    tool::wire_name(verdict.tool) + "="@ + word + "("@ + source + ")"@
}

/// A verdict as text, such as `delete_message=allow(inherited)`.
pub fn render_verdict(verdict: &ToolVerdict) -> (r: String)
    ensures
        r@ == verdict_text(*verdict),
{
    let mut out = verdict.tool.as_str().to_owned();
    out.append("=");
    if verdict.allow {
        out.append("allow");
    } else {
        out.append("deny");
    }
    out.append("(");
    match verdict.source {
        VerdictSource::Account => {
            out.append("account");
        },
        VerdictSource::Inherited => {
            out.append("inherited");
        },
    }
    out.append(")");
    out
}

/// A folder as text, such as `Trash(inherited)`.
pub open spec fn entry_text(folder: Seq<char>, source: FolderSource) -> Seq<char> {
    let word = match source {
        FolderSource::Account => "account"@,
        FolderSource::Inherited => "inherited"@,
        FolderSource::Discovered => "discovered"@,
    };
    folder + "("@ + word + ")"@
}

/// A folder as text, such as `Trash(inherited)`.
pub fn render_folder_entry(entry: &FolderEntry) -> (r: String)
    ensures
        r@ == entry_text(entry.folder@, entry.source),
{
    let mut out = entry.folder.as_str().to_owned();
    out.append("(");
    match entry.source {
        FolderSource::Account => {
            out.append("account");
        },
        FolderSource::Inherited => {
            out.append("inherited");
        },
        FolderSource::Discovered => {
            out.append("discovered");
        },
    }
    out.append(")");
    out
}

/// The verdicts as texts.
pub open spec fn verdict_texts(verdicts: Seq<ToolVerdict>) -> Seq<Seq<char>> {
    Seq::new(verdicts.len(), |i: int| verdict_text(verdicts[i]))
}

/// The folders as texts.
pub open spec fn entry_texts(entries: Seq<(Seq<char>, FolderSource)>) -> Seq<Seq<char>> {
    Seq::new(entries.len(), |i: int| entry_text(entries[i].0, entries[i].1))
}

/// The texts of some verdicts, in their order.
pub fn render_verdicts(verdicts: &Vec<ToolVerdict>) -> (r: Vec<String>)
    ensures
        text::texts(r@) == verdict_texts(verdicts@),
{
    let mut out: Vec<String> = Vec::new();
    for i in 0..verdicts.len()
        invariant
            out@.len() == i,
            forall|j: int| 0 <= j < i ==> (#[trigger] out@[j])@ == verdict_text(verdicts@[j]),
    {
        out.push(render_verdict(&verdicts[i]));
    }
    assert(text::texts(out@) =~= verdict_texts(verdicts@));
    out
}

/// The texts of the entries of a folder list, in their order.
pub fn render_entries(entries: &Vec<FolderEntry>) -> (r: Vec<String>)
    ensures
        text::texts(r@) == entry_texts(entries_view(entries@)),
{
    let mut out: Vec<String> = Vec::new();
    for i in 0..entries.len()
        invariant
            out@.len() == i,
            forall|j: int|
                0 <= j < i ==> (#[trigger] out@[j])@ == entry_text(
                    entries@[j].folder@,
                    entries@[j].source,
                ),
    {
        out.push(render_folder_entry(&entries[i]));
    }
    assert(text::texts(out@) =~= entry_texts(entries_view(entries@)));
    out
}

/// Items on one line, a blank between two: `none` where there is none.
pub open spec fn one_line(items: Seq<Seq<char>>) -> Seq<char> {
    if items.len() == 0 {
        "none"@
    } else {
        text::joined(items, " "@)
    }
}

fn on_one_line(items: &Vec<String>) -> (r: String)
    ensures
        r@ == one_line(text::texts(items@)),
{
    if items.len() == 0 {
        "none".to_owned()
    } else {
        join(items, " ")
    }
}

/// A folder list on one line: `none` where it is empty.
pub fn render_folder_list(entries: &Vec<FolderEntry>) -> (r: String)
    ensures
        r@ == one_line(entry_texts(entries_view(entries@))),
{
    on_one_line(&render_entries(entries))
}

/// What is logged of an account's tools.
pub struct MatrixLine {
    pub account: String,
    pub posture: &'static str,
    pub tool_overrides: String,
}

/// What is logged of an account's tools: its name, its posture and its explicit
/// verdicts.
pub fn log_account_matrix(matrix: &AccountToolMatrix) -> (r: MatrixLine)
    ensures
        r.account@ == matrix@.account,
        r.posture@ == tool::posture_name(matrix@.posture),
        r.tool_overrides@ == one_line(verdict_texts(matrix@.tools)),
{
    MatrixLine {
        account: matrix.account.as_str().to_owned(),
        posture: matrix.posture.as_str(),
        tool_overrides: on_one_line(&render_verdicts(&matrix.tools)),
    }
}

/// What is logged of an account's folders.
pub struct FolderPolicyLine {
    pub account: String,
    pub protected_folders: String,
    pub expunge_folders: String,
    pub special_use_discovery: &'static str,
}

/// What is logged of an account's folders: its name, both lists, and whether the
/// server's special-use folders were looked up.
pub fn log_account_folder_policy(matrix: &AccountToolMatrix) -> (r: FolderPolicyLine)
    ensures
        r.account@ == matrix@.account,
        r.protected_folders@ == one_line(entry_texts(matrix@.protected_folders)),
        r.expunge_folders@ == one_line(entry_texts(matrix@.expunge_folders)),
        r.special_use_discovery@ == match matrix@.special_use_discovery {
            SpecialUseDiscovery::Ran => "ran"@,
            SpecialUseDiscovery::NotRun => "not_run"@,
        },
{
    FolderPolicyLine {
        account: matrix.account.as_str().to_owned(),
        protected_folders: render_folder_list(&matrix.protected_folders),
        expunge_folders: render_folder_list(&matrix.expunge_folders),
        special_use_discovery: match matrix.special_use_discovery {
            SpecialUseDiscovery::Ran => "ran",
            SpecialUseDiscovery::NotRun => "not_run",
        },
    }
}

/// Of several verdicts on a tool the last counts, and it changes nothing for another
/// tool.
pub proof fn law_last_verdict_counts(
    overrides: Seq<(ToolName, Verdict)>,
    wanted: ToolName,
    other: ToolName,
    verdict: Verdict,
)
    ensures
        verdict_on(overrides.push((wanted, verdict)), wanted) == Some(verdict),
        other != wanted ==> verdict_on(overrides.push((wanted, verdict)), other) == verdict_on(
            overrides,
            other,
        ),
        verdict_on(Seq::empty(), wanted) is None,
{
    assert(overrides.push((wanted, verdict)).drop_last() =~= overrides);
}

/// A listed verdict allows its tool where the configuration allows it, and is put down
/// to the account where the account wrote it itself.
pub proof fn law_listed_verdict_is_the_configured_one(config: AccountConfig, i: int)
    requires
        0 <= i < matrix_of(config, None).tools.len(),
    ensures
        ({
            let row = matrix_of(config, None).tools[i];
            &&& row.allow ==> verdict_on(config.tool_overrides@, row.tool) == Some(Verdict::Allow)
            &&& !row.allow ==> verdict_on(config.tool_overrides@, row.tool) == Some(Verdict::Deny)
            &&& row.source is Account <==> config.account_written_tools@.contains(row.tool)
        }),
{
    lemma_rows(config, tool::all_tools());
}

/// Each of the two folder lists is put down to the layer that wrote that list, folder
/// for folder, whatever is said of the other.
pub proof fn law_each_list_has_its_own_layer(config: AccountConfig, i: int)
    ensures
        0 <= i < config.expunge_folders@.len() ==> matrix_of(config, None).expunge_folders[i] == (
            config.expunge_folders@[i]@,
            if config.account_written_expunge_folders {
                FolderSource::Account
            } else {
                FolderSource::Inherited
            },
        ),
        matrix_of(config, None).expunge_folders.len() == config.expunge_folders@.len(),
        0 <= i < config.protected_folders@.len() ==> matrix_of(config, None).protected_folders[i]
            == (
            config.protected_folders@[i]@,
            if config.account_written_protected_folders {
                FolderSource::Account
            } else {
                FolderSource::Inherited
            },
        ),
        matrix_of(config, None).account == config.id@,
        matrix_of(config, None).posture == config.posture,
{
}

/// Looking up folders changes nothing of the verdicts, of the posture and of the
/// folders that may be emptied.
pub proof fn law_lookup_changes_protected_folders_alone(
    config: AccountConfig,
    resolved: Seq<Seq<char>>,
)
    ensures
        ({
            let before = matrix_of(config, None);
            let after = matrix_of(config, Some(resolved));
            &&& after.account == before.account
            &&& after.posture == before.posture
            &&& after.tools == before.tools
            &&& after.expunge_folders == before.expunge_folders
        }),
{
}

/// A verdict reads as the tool, what is said of it, and who says so.
pub proof fn law_verdict_reads_as_said(wanted: ToolName)
    ensures
        verdict_text(ToolVerdict { tool: wanted, allow: true, source: VerdictSource::Account })
            == tool::wire_name(wanted) + "=allow(account)"@,
        verdict_text(ToolVerdict { tool: wanted, allow: true, source: VerdictSource::Inherited })
            == tool::wire_name(wanted) + "=allow(inherited)"@,
        verdict_text(ToolVerdict { tool: wanted, allow: false, source: VerdictSource::Account })
            == tool::wire_name(wanted) + "=deny(account)"@,
        verdict_text(ToolVerdict { tool: wanted, allow: false, source: VerdictSource::Inherited })
            == tool::wire_name(wanted) + "=deny(inherited)"@,
{
    reveal_strlit("=");
    reveal_strlit("(");
    reveal_strlit(")");
    reveal_strlit("allow");
    reveal_strlit("deny");
    reveal_strlit("account");
    reveal_strlit("inherited");
    reveal_strlit("=allow(account)");
    reveal_strlit("=allow(inherited)");
    reveal_strlit("=deny(account)");
    reveal_strlit("=deny(inherited)");
    assert("="@ + "allow"@ + "("@ + "account"@ + ")"@ =~= "=allow(account)"@);
    assert("="@ + "allow"@ + "("@ + "inherited"@ + ")"@ =~= "=allow(inherited)"@);
    assert("="@ + "deny"@ + "("@ + "account"@ + ")"@ =~= "=deny(account)"@);
    assert("="@ + "deny"@ + "("@ + "inherited"@ + ")"@ =~= "=deny(inherited)"@);
    let name = tool::wire_name(wanted);
    assert(name + "="@ + "allow"@ + "("@ + "account"@ + ")"@ =~= name + ("="@ + "allow"@ + "("@
        + "account"@ + ")"@));
    assert(name + "="@ + "allow"@ + "("@ + "inherited"@ + ")"@ =~= name + ("="@ + "allow"@ + "("@
        + "inherited"@ + ")"@));
    assert(name + "="@ + "deny"@ + "("@ + "account"@ + ")"@ =~= name + ("="@ + "deny"@ + "("@
        + "account"@ + ")"@));
    assert(name + "="@ + "deny"@ + "("@ + "inherited"@ + ")"@ =~= name + ("="@ + "deny"@ + "("@
        + "inherited"@ + ")"@));
}

/// A folder reads as its name and where it comes from.
pub proof fn law_folder_reads_as_its_source(folder: Seq<char>)
    ensures
        entry_text(folder, FolderSource::Account) == folder + "(account)"@,
        entry_text(folder, FolderSource::Inherited) == folder + "(inherited)"@,
        entry_text(folder, FolderSource::Discovered) == folder + "(discovered)"@,
{
    reveal_strlit("(");
    reveal_strlit(")");
    reveal_strlit("account");
    reveal_strlit("inherited");
    reveal_strlit("discovered");
    reveal_strlit("(account)");
    reveal_strlit("(inherited)");
    reveal_strlit("(discovered)");
    assert(folder + "("@ + "account"@ + ")"@ =~= folder + "(account)"@);
    assert(folder + "("@ + "inherited"@ + ")"@ =~= folder + "(inherited)"@);
    assert(folder + "("@ + "discovered"@ + ")"@ =~= folder + "(discovered)"@);
}

/// A line lists its items in their order, a blank between two, and says `none` where
/// there is none.
pub proof fn law_line_lists_its_items(first: Seq<Seq<char>>, second: Seq<Seq<char>>)
    ensures
        one_line(Seq::empty()) == "none"@,
        first.len() == 1 ==> one_line(first) == first[0],
        first.len() > 0 && second.len() > 0 ==> one_line(first + second) == one_line(first)
            + seq![' '] + one_line(second),
{
    reveal_strlit(" ");
    assert(" "@ =~= seq![' ']);
    text::law_joined_piece_by_piece(first, second, Seq::empty(), " "@);
}

/// Each verdict and each folder of a list has its own text, in the order of the list.
pub proof fn law_texts_follow_their_items(
    verdicts: Seq<ToolVerdict>,
    entries: Seq<(Seq<char>, FolderSource)>,
    i: int,
)
    ensures
        verdict_texts(verdicts).len() == verdicts.len(),
        entry_texts(entries).len() == entries.len(),
        0 <= i < verdicts.len() ==> verdict_texts(verdicts)[i] == verdict_text(verdicts[i]),
        0 <= i < entries.len() ==> entry_texts(entries)[i] == entry_text(entries[i].0, entries[i].1),
{
}

/// The policy of an account is told field by field as it is held.
pub proof fn law_policy_is_told_as_it_is_held(matrix: AccountToolMatrix, i: int)
    ensures
        matrix@.account == matrix.account@,
        matrix@.posture == matrix.posture,
        matrix@.tools == matrix.tools@,
        matrix@.special_use_discovery == matrix.special_use_discovery,
        matrix@.protected_folders.len() == matrix.protected_folders@.len(),
        0 <= i < matrix.protected_folders@.len() ==> matrix@.protected_folders[i] == (
            matrix.protected_folders@[i].folder@,
            matrix.protected_folders@[i].source,
        ),
        matrix@.expunge_folders.len() == matrix.expunge_folders@.len(),
        0 <= i < matrix.expunge_folders@.len() ==> matrix@.expunge_folders[i] == (
            matrix.expunge_folders@[i].folder@,
            matrix.expunge_folders@[i].source,
        ),
{
}

/// A folder of the resolved list comes from the configuration where that holds it, under
/// whatever name, and from the server otherwise.
pub proof fn law_source_of_a_resolved_folder(
    config: AccountConfig,
    resolved: Seq<Seq<char>>,
    i: int,
)
    requires
        0 <= i < resolved.len(),
    ensures
        ({
            let source = matrix_of(config, Some(resolved)).protected_folders[i].1;
            let held = mutf7::holds(text::texts(config.protected_folders@), resolved[i]);
            &&& held && config.account_written_protected_folders ==> source is Account
            &&& held && !config.account_written_protected_folders ==> source is Inherited
            &&& !held ==> source is Discovered
        }),
{
}

} // verus!
