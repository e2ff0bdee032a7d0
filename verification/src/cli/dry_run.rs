//! What `--dry-run` prints of an account: its tools, its policy, and what its
//! server answers.
use vstd::prelude::*;
use vstd::string::*;

use crate::boot::tool_matrix;
use crate::boot::tool_matrix::{
    account_tool_matrix, render_entries, render_verdicts, AccountConfig, AccountToolMatrix,
    FolderEntry, SpecialUseDiscovery,
};
use crate::text;
use crate::text::{decimal_of, indent, same_text};
use crate::tool;
use crate::tool::ToolName;

verus! {

/// What a first contact with a server brought. A fingerprint and an error come as
/// the text that they are shown with.
pub enum Preflight {
    Reached { capabilities: Vec<String>, fingerprint: String },
    /// The server's certificate is not the pinned one.
    PinMismatch { observed: String, expected: String, shown: String },
    Failed { shown: String },
}

/// The lines on a server's fingerprint: none where there is none to show.
pub open spec fn fingerprint_lines(result: Preflight, pinned: Option<Seq<char>>) -> Seq<char> {
    match result {
        Preflight::Reached { fingerprint, .. } => match pinned {
            None => "TLS fingerprint (sha256):\n  "@ + fingerprint@
                + "\n  (add `tls_fingerprint_sha256 = \""@ + fingerprint@
                + "\"` under [imap] in config.toml to pin)\n"@,
            Some(pin) => if fingerprint@ == pin {
                "TLS fingerprint (sha256):\n  "@ + fingerprint@ + "  (matches configured pin)\n"@
            } else {
                "TLS fingerprint (sha256):\n  "@ + fingerprint@
                    + "  (pin mismatch — unexpected state, please report)\n"@
            },
        },
        Preflight::PinMismatch { observed, expected, .. } => "TLS fingerprint (sha256):\n  observed: "@
            + observed@ + "\n  expected: "@ + expected@ + "  (configured pin)\n"@
            + "  hint: re-run the openssl command from the quickstart and update tls_fingerprint_sha256\n"@,
        Preflight::Failed { .. } => Seq::empty(),
    }
}

/// A text that may be missing.
pub open spec fn pin_view(pin: Option<&str>) -> Option<Seq<char>> {
    match pin {
        Some(pin) => Some(pin@),
        None => None,
    }
}

/// The lines on a server's fingerprint: none where there is none to show.
pub fn write_fingerprint_section(result: &Preflight, pinned: Option<&str>) -> (r: String)
    ensures
        r@ == fingerprint_lines(*result, pin_view(pinned)),
{
    match result {
        Preflight::Reached { fingerprint, .. } => {
            let mut out = "TLS fingerprint (sha256):\n  ".to_owned();
            out.append(fingerprint.as_str());
            match pinned {
                None => {
                    out.append("\n  (add `tls_fingerprint_sha256 = \"");
                    out.append(fingerprint.as_str());
                    out.append("\"` under [imap] in config.toml to pin)\n");
                },
                Some(pin) => {
                    if same_text(fingerprint.as_str(), pin) {
                        out.append("  (matches configured pin)\n");
                    } else {
                        out.append("  (pin mismatch — unexpected state, please report)\n");
                    }
                },
            }
            out
        },
        Preflight::PinMismatch { observed, expected, .. } => {
            let mut out = "TLS fingerprint (sha256):\n  observed: ".to_owned();
            out.append(observed.as_str());
            out.append("\n  expected: ");
            out.append(expected.as_str());
            out.append("  (configured pin)\n");
            out.append(
                "  hint: re-run the openssl command from the quickstart and update tls_fingerprint_sha256\n",
            );
            out
        },
        Preflight::Failed { .. } => String::new(),
    }
}

/// A headline and its rows: `none` beside the headline where there are no rows.
pub open spec fn section(header: Seq<char>, rows: Seq<Seq<char>>) -> Seq<char> {
    if rows.len() == 0 {
        header + ": none\n"@
    } else {
        header + ":\n"@ + text::indented(rows)
    }
}

fn write_section(header: &str, rows: &Vec<String>) -> (r: String)
    ensures
        r@ == section(header@, text::texts(rows@)),
{
    let mut out = header.to_owned();
    if rows.len() == 0 {
        out.append(": none\n");
    } else {
        out.append(":\n");
        let listed = indent(rows);
        out.append(listed.as_str());
    }
    out
}

/// The lines on the explicit verdicts of an account.
pub fn write_explicit_overrides_section(matrix: &AccountToolMatrix) -> (r: String)
    ensures
        r@ == section(
            "Explicit tool overrides"@,
            tool_matrix::verdict_texts(matrix@.tools),
        ),
{
    write_section("Explicit tool overrides", &render_verdicts(&matrix.tools))
}

/// The lines on a folder list.
pub fn write_folder_section(header: &str, entries: &Vec<FolderEntry>) -> (r: String)
    ensures
        r@ == section(
            header@,
            tool_matrix::entry_texts(tool_matrix::entries_view(entries@)),
        ),
{
    write_section(header, &render_entries(entries))
}

/// The headline of the protected folders. It says so where the server's own
/// special folders are still to come.
pub open spec fn protected_header(discovery: SpecialUseDiscovery) -> Seq<char> {
    match discovery {
        SpecialUseDiscovery::NotRun => "Protected folders (configured; server special-use folders are added at boot)"@,
        SpecialUseDiscovery::Ran => "Protected folders"@,
    }
}

/// The lines on the folder lists of an account.
pub open spec fn folder_lines(matrix: tool_matrix::MatrixV) -> Seq<char> {
    section(
        protected_header(matrix.special_use_discovery),
        tool_matrix::entry_texts(matrix.protected_folders),
    ) + section("Expunge folders"@, tool_matrix::entry_texts(matrix.expunge_folders))
}

/// The lines on the folder lists of an account.
pub fn write_folder_policy_sections(matrix: &AccountToolMatrix) -> (r: String)
    ensures
        r@ == folder_lines(matrix@),
{
    let header = match matrix.special_use_discovery {
        SpecialUseDiscovery::NotRun => "Protected folders (configured; server special-use folders are added at boot)",
        SpecialUseDiscovery::Ran => "Protected folders",
    };
    let mut out = write_folder_section(header, &matrix.protected_folders);
    let expunge = write_folder_section("Expunge folders", &matrix.expunge_folders);
    out.append(expunge.as_str());
    out
}

/// The row of a tool.
pub open spec fn tool_row(name: ToolName, allowed: bool) -> Seq<char> {
    if allowed {
        "[ok ] "@ + tool::wire_name(name)
    } else {
        "[deny] "@ + tool::wire_name(name)
    }
}

fn write_tool_row(name: ToolName, allowed: bool) -> (r: String)
    ensures
        r@ == tool_row(name, allowed),
{
    let mut out = (if allowed {
        "[ok ] "
    } else {
        "[deny] "
    }).to_owned();
    out.append(name.as_str());
    out
}

/// The rows of the tools that posture gates, in their order.
pub open spec fn content_rows(rows: Seq<(ToolName, bool)>) -> Seq<Seq<char>>
    decreases rows.len(),
{
    if rows.len() == 0 {
        Seq::empty()
    } else {
        let before = content_rows(rows.drop_last());
        if tool::infrastructure(rows.last().0) {
            before
        } else {
            before.push(tool_row(rows.last().0, rows.last().1))
        }
    }
}

fn write_content_rows(rows: &Vec<(ToolName, bool)>) -> (r: Vec<String>)
    ensures
        text::texts(r@) == content_rows(rows@),
{
    let mut out: Vec<String> = Vec::new();
    for i in 0..rows.len()
        invariant
            text::texts(out@) == content_rows(rows@.take(i as int)),
    {
        assert(rows@.take(i + 1).drop_last() =~= rows@.take(i as int));
        let (name, allowed) = rows[i];
        if !name.is_infrastructure() {
            let ghost before = text::texts(out@);
            out.push(write_tool_row(name, allowed));
            assert(text::texts(out@) =~= before.push(tool_row(name, allowed)));
        }
    }
    assert(rows@.take(rows@.len() as int) =~= rows@);
    out
}

/// The rows of the tools that no posture gates.
pub open spec fn infrastructure_rows(tools: Seq<ToolName>) -> Seq<Seq<char>>
    decreases tools.len(),
{
    if tools.len() == 0 {
        Seq::empty()
    } else {
        let before = infrastructure_rows(tools.drop_last());
        if tool::infrastructure(tools.last()) {
            before.push(tool_row(tools.last(), true))
        } else {
            before
        }
    }
}

fn write_infrastructure_rows() -> (r: Vec<String>)
    ensures
        text::texts(r@) == infrastructure_rows(tool::all_tools()),
{
    let all = ToolName::all();
    let mut out: Vec<String> = Vec::new();
    for i in 0..all.len()
        invariant
            text::texts(out@) == infrastructure_rows(all@.take(i as int)),
    {
        assert(all@.take(i + 1).drop_last() =~= all@.take(i as int));
        let name = all[i];
        if name.is_infrastructure() {
            let ghost before = text::texts(out@);
            out.push(write_tool_row(name, true));
            assert(text::texts(out@) =~= before.push(tool_row(name, true)));
        }
    }
    assert(all@.take(all@.len() as int) =~= all@);
    out
}

/// What the matrix says of a tool that no posture gates does not show.
pub proof fn law_infrastructure_verdicts_do_not_show(
    a: Seq<(ToolName, bool)>,
    b: Seq<(ToolName, bool)>,
)
    requires
        a.len() == b.len(),
        forall|i: int|
            0 <= i < a.len() ==> (#[trigger] a[i]).0 == b[i].0 && (tool::infrastructure(a[i].0)
                || a[i].1 == b[i].1),
    ensures
        content_rows(a) == content_rows(b),
    decreases a.len(),
{
    if a.len() > 0 {
        law_infrastructure_verdicts_do_not_show(a.drop_last(), b.drop_last());
        assert(a[a.len() - 1] == a.last());
        assert(b[b.len() - 1] == b.last());
    }
}

/// A tool that no posture gates is listed as available, whatever the account.
pub proof fn law_infrastructure_is_always_available(name: ToolName)
    requires
        tool::infrastructure(name),
    ensures
        infrastructure_rows(tool::all_tools()).contains(tool_row(name, true)),
{
    tool::law_all_tools_lists_each(name);
    let all = tool::all_tools();
    let k = choose|k: int| 0 <= k < all.len() && all[k] == name;
    lemma_infrastructure_row(all, k);
}

proof fn lemma_infrastructure_row(tools: Seq<ToolName>, k: int)
    requires
        0 <= k < tools.len(),
        tool::infrastructure(tools[k]),
    ensures
        infrastructure_rows(tools).contains(tool_row(tools[k], true)),
    decreases tools.len(),
{
    let before = infrastructure_rows(tools.drop_last());
    let after = infrastructure_rows(tools);
    let row = tool_row(tools[k], true);
    if k < tools.len() - 1 {
        lemma_infrastructure_row(tools.drop_last(), k);
        let j = choose|j: int| 0 <= j < before.len() && before[j] == row;
        assert(after[j] == row);
    } else {
        assert(after[before.len() as int] == row);
    }
}

/// The rows of a server's capabilities.
pub open spec fn capability_rows(capabilities: Seq<Seq<char>>) -> Seq<Seq<char>> {
    Seq::new(capabilities.len(), |i: int| "[ok ] "@ + capabilities[i])
}

/// The lines on what a server can do.
pub open spec fn capability_lines(host: Seq<char>, port: u16, result: Preflight) -> Seq<char> {
    let start = "Capabilities ("@ + host + ":"@ + text::decimal(port as nat);
    match result {
        Preflight::Reached { capabilities, .. } => start + "):\n"@ + text::indented(
            capability_rows(text::texts(capabilities@)),
        ),
        Preflight::PinMismatch { shown, .. } => start + "): unavailable ("@ + shown@ + ")\n"@,
        Preflight::Failed { shown } => start + "): unavailable ("@ + shown@ + ")\n"@,
    }
}

/// The lines on what a server can do.
pub fn write_capabilities_section(host: &str, port: u16, result: &Preflight) -> (r: String)
    ensures
        r@ == capability_lines(host@, port, *result),
{
    let mut out = "Capabilities (".to_owned();
    out.append(host);
    out.append(":");
    let number = decimal_of(port as u64);
    out.append(number.as_str());
    match result {
        Preflight::Reached { capabilities, .. } => {
            let mut rows: Vec<String> = Vec::new();
            for i in 0..capabilities.len()
                invariant
                    rows@.len() == i,
                    forall|j: int|
                        0 <= j < i ==> (#[trigger] rows@[j])@ == "[ok ] "@ + capabilities@[j]@,
            {
                let mut row = "[ok ] ".to_owned();
                row.append(capabilities[i].as_str());
                rows.push(row);
            }
            assert(text::texts(rows@) =~= capability_rows(text::texts(capabilities@)));
            out.append("):\n");
            let listed = indent(&rows);
            out.append(listed.as_str());
        },
        Preflight::PinMismatch { shown, .. } => {
            out.append("): unavailable (");
            out.append(shown.as_str());
            out.append(")\n");
        },
        Preflight::Failed { shown } => {
            out.append("): unavailable (");
            out.append(shown.as_str());
            out.append(")\n");
        },
    }
    out
}

/// The lines on an account's tools. Its name heads them where there are several
/// accounts.
pub open spec fn matrix_lines(
    config: AccountConfig,
    several: bool,
    rows: Seq<(ToolName, bool)>,
) -> Seq<char> {
    let start = if several {
        "Account: "@ + config.id@ + "\n"@
    } else {
        ""@
    };
    start + "Effective matrix (posture = "@ + tool::posture_name(config.posture) + ")\n"@
        + text::indented(content_rows(rows)) + "Infrastructure tools (always available):\n"@
        + text::indented(infrastructure_rows(tool::all_tools()))
}

fn write_matrix_section(
    acfg: &AccountConfig,
    several: bool,
    rows: &Vec<(ToolName, bool)>,
) -> (r: String)
    ensures
        r@ == matrix_lines(*acfg, several, rows@),
{
    let mut out = (if several {
        "Account: "
    } else {
        ""
    }).to_owned();
    if several {
        out.append(acfg.id.as_str());
        out.append("\n");
    }
    out.append("Effective matrix (posture = ");
    out.append(acfg.posture.as_str());
    out.append(")\n");
    let content = indent(&write_content_rows(rows));
    out.append(content.as_str());
    out.append("Infrastructure tools (always available):\n");
    let infrastructure = indent(&write_infrastructure_rows());
    out.append(infrastructure.as_str());
    out
}

/// What is printed of an account.
pub open spec fn report(
    config: AccountConfig,
    several: bool,
    rows: Seq<(ToolName, bool)>,
    host: Seq<char>,
    port: u16,
    result: Preflight,
    pinned: Option<Seq<char>>,
) -> Seq<char> {
    let policy = tool_matrix::matrix_of(config, None);
    matrix_lines(config, several, rows) + section(
        "Explicit tool overrides"@,
        tool_matrix::verdict_texts(policy.tools),
    ) + folder_lines(policy) + capability_lines(host, port, result) + fingerprint_lines(
        result,
        pinned,
    )
}

/// What is printed of an account: `rows` says of each tool whether the account
/// allows it, `several` whether it is one of several accounts. An unreachable
/// server is reported like a reachable one.
pub fn account_report(
    acfg: &AccountConfig,
    several: bool,
    rows: &Vec<(ToolName, bool)>,
    host: &str,
    port: u16,
    result: &Preflight,
    pinned: Option<&str>,
) -> (r: String)
    ensures
        r@ == report(*acfg, several, rows@, host@, port, *result, pin_view(pinned)),
{
    let mut out = write_matrix_section(acfg, several, rows);
    let policy = account_tool_matrix(acfg, None);
    let overrides = write_explicit_overrides_section(&policy);
    out.append(overrides.as_str());
    let folders = write_folder_policy_sections(&policy);
    out.append(folders.as_str());
    let capabilities = write_capabilities_section(host, port, result);
    out.append(capabilities.as_str());
    let fingerprint = write_fingerprint_section(result, pinned);
    out.append(fingerprint.as_str());
    out
}

/// What a first contact with an account's server showed, and what the account
/// allows.
pub struct Probe {
    /// Whether the account allows each tool, in the order of declaration.
    pub rows: Vec<(ToolName, bool)>,
    pub host: String,
    pub port: u16,
    pub result: Preflight,
    /// The fingerprint that the configuration pins.
    pub pinned: Option<String>,
}

/// What is printed of the first `n` accounts, one after another. Each is headed by
/// its name where there are several.
pub open spec fn reports(accounts: Seq<(AccountConfig, Probe)>, n: nat) -> Seq<char>
    decreases n,
{
    if n == 0 {
        Seq::empty()
    } else {
        let (config, probe) = accounts[n - 1];
        reports(accounts, (n - 1) as nat) + report(
            config,
            accounts.len() > 1,
            probe.rows@,
            probe.host@,
            probe.port,
            probe.result,
            text::text_view(probe.pinned),
        )
    }
}

fn pin_of(pinned: &Option<String>) -> (r: Option<&str>)
    ensures
        pin_view(r) == text::text_view(*pinned),
{
    match pinned {
        Some(pin) => Some(pin.as_str()),
        None => None,
    }
}

/// What is printed of all accounts, one after another. Each is headed by its name
/// where there are several.
pub fn dry_run_report(accounts: &Vec<(AccountConfig, Probe)>) -> (r: String)
    ensures
        r@ == reports(accounts@, accounts@.len()),
{
    let several = accounts.len() > 1;
    let mut out = String::new();
    for i in 0..accounts.len()
        invariant
            several == (accounts@.len() > 1),
            out@ == reports(accounts@, i as nat),
    {
        let (config, probe) = &accounts[i];
        let one = account_report(
            config,
            several,
            &probe.rows,
            probe.host.as_str(),
            probe.port,
            &probe.result,
            pin_of(&probe.pinned),
        );
        out.append(one.as_str());
    }
    out
}

/// What stands in front stands in front of a longer text too.
proof fn lemma_in_front(head: Seq<char>, a: Seq<char>, b: Seq<char>)
    ensures
        (head + a) + b == head + (a + b),
{
    assert((head + a) + b =~= head + (a + b));
}

proof fn lemma_begins(start: Seq<char>, a: Seq<char>, b: Seq<char>)
    requires
        start.is_prefix_of(a),
    ensures
        start.is_prefix_of(a + b),
{
    assert(start =~= (a + b).subrange(0, start.len() as int));
}

proof fn lemma_matrix_lines(config: AccountConfig, rows: Seq<(ToolName, bool)>)
    ensures
        matrix_lines(config, true, rows) == "Account: "@ + config.id@ + "\n"@ + matrix_lines(
            config,
            false,
            rows,
        ),
        "Effective matrix (posture = "@.is_prefix_of(matrix_lines(config, false, rows)),
{
    reveal_strlit("");
    let head = "Account: "@ + config.id@ + "\n"@;
    let start = "Effective matrix (posture = "@;
    let posture = tool::posture_name(config.posture);
    let content = text::indented(content_rows(rows));
    let middle = "Infrastructure tools (always available):\n"@;
    let infrastructure = text::indented(infrastructure_rows(tool::all_tools()));
    assert(""@ + start =~= start);
    lemma_in_front(head, start, posture);
    lemma_in_front(head, start + posture, ")\n"@);
    lemma_in_front(head, start + posture + ")\n"@, content);
    lemma_in_front(head, start + posture + ")\n"@ + content, middle);
    lemma_in_front(head, start + posture + ")\n"@ + content + middle, infrastructure);
    assert(start.is_prefix_of(start + posture)) by {
        assert(start =~= (start + posture).subrange(0, start.len() as int));
    }
    lemma_begins(start, start + posture, ")\n"@);
    lemma_begins(start, start + posture + ")\n"@, content);
    lemma_begins(start, start + posture + ")\n"@ + content, middle);
    lemma_begins(start, start + posture + ")\n"@ + content + middle, infrastructure);
}

/// The name of an account is one line in front of what is printed of it, and
/// printed only where there are several accounts: without it, the report begins
/// with the tools.
pub proof fn law_account_line_is_for_several_accounts(
    config: AccountConfig,
    rows: Seq<(ToolName, bool)>,
    host: Seq<char>,
    port: u16,
    result: Preflight,
    pinned: Option<Seq<char>>,
)
    ensures
        report(config, true, rows, host, port, result, pinned) == "Account: "@ + config.id@
            + "\n"@ + report(config, false, rows, host, port, result, pinned),
        "Effective matrix (posture = "@.is_prefix_of(
            report(config, false, rows, host, port, result, pinned),
        ),
{
    let head = "Account: "@ + config.id@ + "\n"@;
    let alone = matrix_lines(config, false, rows);
    let policy = tool_matrix::matrix_of(config, None);
    let overrides = section(
        "Explicit tool overrides"@,
        tool_matrix::verdict_texts(policy.tools),
    );
    let folders = folder_lines(policy);
    let capabilities = capability_lines(host, port, result);
    let fingerprint = fingerprint_lines(result, pinned);
    lemma_matrix_lines(config, rows);
    lemma_in_front(head, alone, overrides);
    lemma_in_front(head, alone + overrides, folders);
    lemma_in_front(head, alone + overrides + folders, capabilities);
    lemma_in_front(head, alone + overrides + folders + capabilities, fingerprint);
    lemma_begins(
        "Effective matrix (posture = "@,
        alone,
        overrides + folders + capabilities + fingerprint,
    );
    lemma_in_front(alone, overrides, folders);
    lemma_in_front(alone, overrides + folders, capabilities);
    lemma_in_front(alone, overrides + folders + capabilities, fingerprint);
}

/// A tool's row tells whether the account allows it, and names it. The tools about
/// accounts have no row of this kind. Rows stand in the order of the tools.
pub proof fn law_row_tells_whether_allowed(
    first: Seq<(ToolName, bool)>,
    second: Seq<(ToolName, bool)>,
    name: ToolName,
)
    ensures
        tool_row(name, true) == "[ok ] "@ + tool::wire_name(name),
        tool_row(name, false) == "[deny] "@ + tool::wire_name(name),
        content_rows(first + second) == content_rows(first) + content_rows(second),
        forall|allowed: bool| #[trigger]
            content_rows(seq![(name, allowed)]) == if name is UseAccount || name is ListAccounts {
                Seq::empty()
            } else {
                seq![tool_row(name, allowed)]
            },
    decreases second.len(),
{
    if second.len() == 0 {
        assert(first + second =~= first);
    } else {
        assert((first + second).drop_last() =~= first + second.drop_last());
        law_row_tells_whether_allowed(first, second.drop_last(), name);
    }
    assert forall|allowed: bool| #[trigger]
        content_rows(seq![(name, allowed)]) == if name is UseAccount || name is ListAccounts {
            Seq::empty()
        } else {
            seq![tool_row(name, allowed)]
        } by {
        let one = seq![(name, allowed)];
        assert(one.drop_last() =~= Seq::empty());
        assert(one.last() == (name, allowed));
        assert(content_rows(one.drop_last()) =~= Seq::empty());
        assert(content_rows(one) =~= if name is UseAccount || name is ListAccounts {
            Seq::empty()
        } else {
            seq![tool_row(name, allowed)]
        });
    }
}

/// The rows that are always there are those of the two tools about accounts, each as
/// available.
pub proof fn law_only_tools_about_accounts_are_always_available(tools: Seq<ToolName>, i: int)
    requires
        0 <= i < infrastructure_rows(tools).len(),
    ensures
        infrastructure_rows(tools)[i] == "[ok ] "@ + "use_account"@ || infrastructure_rows(tools)[i]
            == "[ok ] "@ + "list_accounts"@,
    decreases tools.len(),
{
    if tools.len() > 0 {
        let before = infrastructure_rows(tools.drop_last());
        if i < before.len() {
            law_only_tools_about_accounts_are_always_available(tools.drop_last(), i);
        }
    }
}

/// A headline without rows says that there are none, and one with rows has them on
/// lines of their own below it.
pub proof fn law_section_shows_its_rows(header: Seq<char>, rows: Seq<Seq<char>>)
    ensures
        section(header, Seq::empty()) == header + ": none\n"@,
        rows.len() > 0 ==> section(header, rows) == header + ":\n"@ + text::indented(rows),
{
}

/// The fingerprint of a server is said to match the pin only where it is the pin. Where
/// nothing is pinned, it is shown with how to pin just that fingerprint.
pub proof fn law_fingerprint_is_held_against_the_pin(
    capabilities: Vec<String>,
    fingerprint: String,
    pin: Seq<char>,
)
    ensures
        fingerprint@ == pin ==> fingerprint_lines(
            Preflight::Reached { capabilities, fingerprint },
            Some(pin),
        ) == "TLS fingerprint (sha256):\n  "@ + fingerprint@ + "  (matches configured pin)\n"@,
        fingerprint@ != pin ==> fingerprint_lines(
            Preflight::Reached { capabilities, fingerprint },
            Some(pin),
        ) == "TLS fingerprint (sha256):\n  "@ + fingerprint@
            + "  (pin mismatch — unexpected state, please report)\n"@,
        fingerprint_lines(Preflight::Reached { capabilities, fingerprint }, None)
            == "TLS fingerprint (sha256):\n  "@ + fingerprint@
            + "\n  (add `tls_fingerprint_sha256 = \""@ + fingerprint@
            + "\"` under [imap] in config.toml to pin)\n"@,
{
}

/// A certificate that is not the pinned one is shown as what was seen, and then what was
/// expected, whatever is pinned now. A server that was not reached has no fingerprint
/// to show.
pub proof fn law_mismatch_shows_both(
    observed: String,
    expected: String,
    shown: String,
    pinned: Option<Seq<char>>,
)
    ensures
        ("TLS fingerprint (sha256):\n  observed: "@ + observed@ + "\n  expected: "@
            + expected@).is_prefix_of(
            fingerprint_lines(Preflight::PinMismatch { observed, expected, shown }, pinned),
        ),
        fingerprint_lines(Preflight::Failed { shown }, pinned).len() == 0,
{
    let part = "TLS fingerprint (sha256):\n  observed: "@ + observed@ + "\n  expected: "@
        + expected@;
    let whole = fingerprint_lines(Preflight::PinMismatch { observed, expected, shown }, pinned);
    assert(part =~= whole.take(part.len() as int));
}

/// What a server can do is listed under its address, each on a line of its own. A server
/// that could not be used is listed under its address with the reason.
pub proof fn law_capabilities_stand_under_the_address(
    host: Seq<char>,
    port: u16,
    capabilities: Vec<String>,
    fingerprint: String,
    shown: String,
    observed: String,
    expected: String,
)
    ensures
        capability_lines(host, port, Preflight::Reached { capabilities, fingerprint })
            == "Capabilities ("@ + host + ":"@ + text::decimal(port as nat) + "):\n"@
            + text::indented(capability_rows(text::texts(capabilities@))),
        capability_rows(text::texts(capabilities@)).len() == capabilities@.len(),
        forall|i: int|
            0 <= i < capabilities@.len() ==> #[trigger] capability_rows(
                text::texts(capabilities@),
            )[i] == "[ok ] "@ + capabilities@[i]@,
        capability_lines(host, port, Preflight::Failed { shown }) == "Capabilities ("@ + host
            + ":"@ + text::decimal(port as nat) + "): unavailable ("@ + shown@ + ")\n"@,
        capability_lines(host, port, Preflight::PinMismatch { observed, expected, shown })
            == capability_lines(host, port, Preflight::Failed { shown }),
{
}

/// The protected folders come before those that may be emptied, each list under its own
/// headline. Where the server's own folders are still to come, the headline says so.
pub proof fn law_folder_lists_are_told_apart(matrix: tool_matrix::MatrixV)
    ensures
        folder_lines(matrix) == section(
            if matrix.special_use_discovery is Ran {
                "Protected folders"@
            } else {
                "Protected folders (configured; server special-use folders are added at boot)"@
            },
            tool_matrix::entry_texts(matrix.protected_folders),
        ) + section("Expunge folders"@, tool_matrix::entry_texts(matrix.expunge_folders)),
{
}

/// What is printed of an account names its posture first, and then its tools.
pub proof fn law_report_names_the_posture(
    config: AccountConfig,
    rows: Seq<(ToolName, bool)>,
    host: Seq<char>,
    port: u16,
    result: Preflight,
    pinned: Option<Seq<char>>,
)
    ensures
        ("Effective matrix (posture = "@ + tool::posture_name(config.posture) + ")\n"@
            + text::indented(content_rows(rows))).is_prefix_of(
            report(config, false, rows, host, port, result, pinned),
        ),
{
    reveal_strlit("");
    let start = "Effective matrix (posture = "@;
    let posture = tool::posture_name(config.posture);
    let content = text::indented(content_rows(rows));
    let part = start + posture + ")\n"@ + content;
    let middle = "Infrastructure tools (always available):\n"@;
    let infrastructure = text::indented(infrastructure_rows(tool::all_tools()));
    let policy = tool_matrix::matrix_of(config, None);
    let overrides = section(
        "Explicit tool overrides"@,
        tool_matrix::verdict_texts(policy.tools),
    );
    let folders = folder_lines(policy);
    let capabilities = capability_lines(host, port, result);
    let fingerprint = fingerprint_lines(result, pinned);
    assert(""@ + start =~= start);
    assert(part.is_prefix_of(part)) by {
        assert(part =~= part.subrange(0, part.len() as int));
    }
    lemma_begins(part, part, middle);
    lemma_begins(part, part + middle, infrastructure);
    let alone = part + middle + infrastructure;
    lemma_begins(part, alone, overrides);
    lemma_begins(part, alone + overrides, folders);
    lemma_begins(part, alone + overrides + folders, capabilities);
    lemma_begins(part, alone + overrides + folders + capabilities, fingerprint);
}

/// Accounts are printed one after another, in their order, each with what was seen of its
/// own server, and each headed by its name where there is more than one.
pub proof fn law_accounts_are_printed_one_after_another(
    accounts: Seq<(AccountConfig, Probe)>,
    n: nat,
)
    requires
        n < accounts.len(),
    ensures
        reports(accounts, 0).len() == 0,
        ({
            let (config, probe) = accounts[n as int];
            reports(accounts, n + 1) == reports(accounts, n) + report(
                config,
                accounts.len() != 1,
                probe.rows@,
                probe.host@,
                probe.port,
                probe.result,
                text::text_view(probe.pinned),
            )
        }),
{
}

/// The tools about accounts are listed in their order.
pub proof fn law_tools_about_accounts_keep_their_order(
    first: Seq<ToolName>,
    second: Seq<ToolName>,
)
    ensures
        infrastructure_rows(first + second) == infrastructure_rows(first) + infrastructure_rows(
            second,
        ),
    decreases second.len(),
{
    if second.len() == 0 {
        assert(first + second =~= first);
        assert(infrastructure_rows(first + second) =~= infrastructure_rows(first)
            + infrastructure_rows(second));
    } else {
        assert((first + second).drop_last() =~= first + second.drop_last());
        law_tools_about_accounts_keep_their_order(first, second.drop_last());
        assert(infrastructure_rows(first + second) =~= infrastructure_rows(first)
            + infrastructure_rows(second));
    }
}

} // verus!
