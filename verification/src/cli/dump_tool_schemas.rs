//! The schemas of what tools answer, collected under the tools' names.
use vstd::prelude::*;
use vstd::string::*;

use crate::json;
use crate::json::{render_json_pretty, set_member, Json, JsonV};
use crate::mcp::response;
use crate::mcp::response::envelope_schema;
use crate::mcp::tool_catalog;
use crate::mcp::tool_catalog::{MetaShape, UntrustedShape};
use crate::tool;
use crate::tool::ToolName;

verus! {

/// A tool whose schema is collected, and the types of what it answers.
#[derive(Debug, Clone, Copy, PartialEq, Eq, Structural)]
pub struct SchemaRow {
    pub tool: ToolName,
    pub meta: MetaShape,
    pub untrusted: UntrustedShape,
}

/// A row of the list.
pub open spec fn schema_row(tool: ToolName, meta: MetaShape, untrusted: UntrustedShape) -> SchemaRow {
    SchemaRow { tool, meta, untrusted }
}

/// The tools whose schemas are collected, in the order of their names.
pub open spec fn schema_rows() -> Seq<SchemaRow> {
    seq![
        schema_row(ToolName::AddLabel, MetaShape::Labels, UntrustedShape::Unit),
        schema_row(ToolName::CreateDraft, MetaShape::CreateDraft, UntrustedShape::Unit),
        schema_row(ToolName::CreateFolder, MetaShape::CreateFolder, UntrustedShape::Unit),
        schema_row(ToolName::DeleteFolder, MetaShape::DeleteFolder, UntrustedShape::Unit),
        schema_row(ToolName::DeleteMessage, MetaShape::DeleteMessage, UntrustedShape::Unit),
        schema_row(
            ToolName::DownloadAttachment,
            MetaShape::DownloadAttachment,
            UntrustedShape::DownloadAttachment,
        ),
        schema_row(ToolName::Expunge, MetaShape::Expunge, UntrustedShape::Unit),
        schema_row(ToolName::FetchMessage, MetaShape::FetchMessage, UntrustedShape::FetchMessage),
        schema_row(ToolName::Flag, MetaShape::Flags, UntrustedShape::Unit),
        schema_row(ToolName::ListAccounts, MetaShape::ListAccounts, UntrustedShape::Unit),
        schema_row(
            ToolName::ListAttachments,
            MetaShape::ListAttachments,
            UntrustedShape::ListAttachments,
        ),
        schema_row(ToolName::ListFolders, MetaShape::ListFolders, UntrustedShape::Unit),
        schema_row(ToolName::ListLabels, MetaShape::ListLabels, UntrustedShape::Unit),
        schema_row(ToolName::MarkRead, MetaShape::Flags, UntrustedShape::Unit),
        schema_row(ToolName::MarkUnread, MetaShape::Flags, UntrustedShape::Unit),
        schema_row(ToolName::MoveMessage, MetaShape::MoveMessage, UntrustedShape::Unit),
        schema_row(ToolName::RemoveLabel, MetaShape::Labels, UntrustedShape::Unit),
        schema_row(ToolName::RenameFolder, MetaShape::RenameFolder, UntrustedShape::Unit),
        schema_row(ToolName::Search, MetaShape::Search, UntrustedShape::Search),
        schema_row(ToolName::SendEmail, MetaShape::SendEmail, UntrustedShape::Unit),
        schema_row(ToolName::Unflag, MetaShape::Flags, UntrustedShape::Unit),
        schema_row(ToolName::UseAccount, MetaShape::UseAccount, UntrustedShape::Unit),
    ]
}

/// The tools whose schemas are collected, in the order of their names.
pub fn build_schemas() -> (r: Vec<SchemaRow>)
    ensures
        r@ == schema_rows(),
        r@.len() == 22,
{
    let mut rows: Vec<SchemaRow> = Vec::new();
    rows.push(
        SchemaRow {
            tool: ToolName::AddLabel,
            meta: MetaShape::Labels,
            untrusted: UntrustedShape::Unit,
        },
    );
    rows.push(
        SchemaRow {
            tool: ToolName::CreateDraft,
            meta: MetaShape::CreateDraft,
            untrusted: UntrustedShape::Unit,
        },
    );
    rows.push(
        SchemaRow {
            tool: ToolName::CreateFolder,
            meta: MetaShape::CreateFolder,
            untrusted: UntrustedShape::Unit,
        },
    );
    rows.push(
        SchemaRow {
            tool: ToolName::DeleteFolder,
            meta: MetaShape::DeleteFolder,
            untrusted: UntrustedShape::Unit,
        },
    );
    rows.push(
        SchemaRow {
            tool: ToolName::DeleteMessage,
            meta: MetaShape::DeleteMessage,
            untrusted: UntrustedShape::Unit,
        },
    );
    rows.push(
        SchemaRow {
            tool: ToolName::DownloadAttachment,
            meta: MetaShape::DownloadAttachment,
            untrusted: UntrustedShape::DownloadAttachment,
        },
    );
    rows.push(
        SchemaRow {
            tool: ToolName::Expunge,
            meta: MetaShape::Expunge,
            untrusted: UntrustedShape::Unit,
        },
    );
    rows.push(
        SchemaRow {
            tool: ToolName::FetchMessage,
            meta: MetaShape::FetchMessage,
            untrusted: UntrustedShape::FetchMessage,
        },
    );
    rows.push(
        SchemaRow {
            tool: ToolName::Flag,
            meta: MetaShape::Flags,
            untrusted: UntrustedShape::Unit,
        },
    );
    rows.push(
        SchemaRow {
            tool: ToolName::ListAccounts,
            meta: MetaShape::ListAccounts,
            untrusted: UntrustedShape::Unit,
        },
    );
    rows.push(
        SchemaRow {
            tool: ToolName::ListAttachments,
            meta: MetaShape::ListAttachments,
            untrusted: UntrustedShape::ListAttachments,
        },
    );
    rows.push(
        SchemaRow {
            tool: ToolName::ListFolders,
            meta: MetaShape::ListFolders,
            untrusted: UntrustedShape::Unit,
        },
    );
    rows.push(
        SchemaRow {
            tool: ToolName::ListLabels,
            meta: MetaShape::ListLabels,
            untrusted: UntrustedShape::Unit,
        },
    );
    rows.push(
        SchemaRow {
            tool: ToolName::MarkRead,
            meta: MetaShape::Flags,
            untrusted: UntrustedShape::Unit,
        },
    );
    rows.push(
        SchemaRow {
            tool: ToolName::MarkUnread,
            meta: MetaShape::Flags,
            untrusted: UntrustedShape::Unit,
        },
    );
    rows.push(
        SchemaRow {
            tool: ToolName::MoveMessage,
            meta: MetaShape::MoveMessage,
            untrusted: UntrustedShape::Unit,
        },
    );
    rows.push(
        SchemaRow {
            tool: ToolName::RemoveLabel,
            meta: MetaShape::Labels,
            untrusted: UntrustedShape::Unit,
        },
    );
    rows.push(
        SchemaRow {
            tool: ToolName::RenameFolder,
            meta: MetaShape::RenameFolder,
            untrusted: UntrustedShape::Unit,
        },
    );
    rows.push(
        SchemaRow {
            tool: ToolName::Search,
            meta: MetaShape::Search,
            untrusted: UntrustedShape::Search,
        },
    );
    rows.push(
        SchemaRow {
            tool: ToolName::SendEmail,
            meta: MetaShape::SendEmail,
            untrusted: UntrustedShape::Unit,
        },
    );
    rows.push(
        SchemaRow {
            tool: ToolName::Unflag,
            meta: MetaShape::Flags,
            untrusted: UntrustedShape::Unit,
        },
    );
    rows.push(
        SchemaRow {
            tool: ToolName::UseAccount,
            meta: MetaShape::UseAccount,
            untrusted: UntrustedShape::Unit,
        },
    );
    assert(rows@ =~= schema_rows());
    rows
}

/// A collected schema is that of the types that the catalog publishes.
pub proof fn law_schemas_agree_with_the_catalog(i: int)
    requires
        0 <= i < schema_rows().len(),
    ensures
        match tool_catalog::tool_def(schema_rows()[i].tool) {
            Some(def) => def.meta == schema_rows()[i].meta && def.untrusted
                == schema_rows()[i].untrusted,
            None => false,
        },
{
}

/// No tool is listed twice.
proof fn lemma_rows_differ(i: int, j: int)
    requires
        0 <= i < j < schema_rows().len(),
    ensures
        schema_rows()[i].tool != schema_rows()[j].tool,
{
}

/// The schemas of the first tools under the tools' names, each as it is published.
pub open spec fn collected(schemas: Seq<JsonV>, n: nat) -> Map<Seq<char>, JsonV>
    decreases n,
{
    if n == 0 {
        Map::empty()
    } else {
        collected(schemas, (n - 1) as nat).insert(
            tool::wire_name(schema_rows()[n - 1].tool),
            JsonV::Object(response::untitled(schemas[n - 1])),
        )
    }
}

/// Every collected schema stands under the name of its tool, and there is no other.
pub proof fn law_every_schema_is_dumped(schemas: Seq<JsonV>, i: int)
    requires
        0 <= i < schema_rows().len(),
    ensures
        collected(schemas, schema_rows().len())[tool::wire_name(schema_rows()[i].tool)]
            == JsonV::Object(response::untitled(schemas[i])),
        collected(schemas, schema_rows().len()).dom().contains(
            tool::wire_name(schema_rows()[i].tool),
        ),
        collected(schemas, schema_rows().len()).dom().len() == schema_rows().len(),
{
    lemma_collected(schemas, schema_rows().len(), i);
    lemma_count(schemas, schema_rows().len());
}

proof fn lemma_collected(schemas: Seq<JsonV>, n: nat, i: int)
    requires
        0 <= i < n <= schema_rows().len(),
    ensures
        collected(schemas, n)[tool::wire_name(schema_rows()[i].tool)] == JsonV::Object(
            response::untitled(schemas[i]),
        ),
        collected(schemas, n).dom().contains(tool::wire_name(schema_rows()[i].tool)),
    decreases n,
{
    if i < n - 1 {
        lemma_collected(schemas, (n - 1) as nat, i);
        lemma_rows_differ(i, n - 1);
        if tool::wire_name(schema_rows()[i].tool) == tool::wire_name(schema_rows()[n - 1].tool) {
            tool::law_names_are_distinct(schema_rows()[i].tool, schema_rows()[n - 1].tool);
        }
    }
}

proof fn lemma_not_collected(schemas: Seq<JsonV>, n: nat, j: int)
    requires
        n <= j < schema_rows().len(),
    ensures
        !collected(schemas, n).dom().contains(tool::wire_name(schema_rows()[j].tool)),
    decreases n,
{
    if n > 0 {
        lemma_not_collected(schemas, (n - 1) as nat, j);
        lemma_rows_differ(n - 1, j);
        if tool::wire_name(schema_rows()[n - 1].tool) == tool::wire_name(schema_rows()[j].tool) {
            tool::law_names_are_distinct(schema_rows()[n - 1].tool, schema_rows()[j].tool);
        }
    }
}

proof fn lemma_count(schemas: Seq<JsonV>, n: nat)
    requires
        n <= schema_rows().len(),
    ensures
        collected(schemas, n).dom().finite(),
        collected(schemas, n).dom().len() == n,
    decreases n,
{
    if n > 0 {
        lemma_count(schemas, (n - 1) as nat);
        lemma_not_collected(schemas, (n - 1) as nat, n - 1);
    }
}

/// The values of schemas.
pub open spec fn schema_views(schemas: Seq<Json>) -> Seq<JsonV> {
    Seq::new(schemas.len(), |i: int| schemas[i]@)
}

/// The schemas under the tools' names, as indented JSON and a line end. `schemas`
/// are those of the rows, in their order.
pub fn dump_tool_schemas(schemas: Vec<Json>) -> (r: String)
    requires
        schemas@.len() == schema_rows().len(),
    ensures
        r@ == json::json_pretty_text(
            JsonV::Object(collected(schema_views(schemas@), schema_rows().len())),
        ) + "\n"@,
{
    let ghost all = schemas@;
    let rows = build_schemas();
    let mut members: Vec<(String, Json)> = Vec::new();
    let mut k: usize = 0;
    for schema in it: schemas
        invariant
            it.seq() == all,
            k == it.index(),
            all.len() == rows@.len(),
            rows@ == schema_rows(),
            json::object_view(members@) == collected(schema_views(all), k as nat),
    {
        assert(all[k as int] == schema);
        let row = rows[k];
        let published = envelope_schema(schema);
        set_member(&mut members, row.tool.as_str(), Json::Object(published));
        k = k + 1;
    }
    let mut out = render_json_pretty(&Json::Object(members));
    out.append("\n");
    out
}

/// Every tool of the catalog but the two that export and forward messages has its schema
/// collected.
pub proof fn law_collected_tools(wanted: ToolName)
    requires
        tool_catalog::tool_def(wanted) is Some,
    ensures
        (exists|i: int| 0 <= i < schema_rows().len() && (#[trigger] schema_rows()[i]).tool == wanted)
            <==> !(wanted is ExportMessages) && !(wanted is Forward),
        schema_rows().len() == 22,
{
    let rows = schema_rows();
    let i: int = match wanted {
        ToolName::AddLabel => 0,
        ToolName::CreateDraft => 1,
        ToolName::CreateFolder => 2,
        ToolName::DeleteFolder => 3,
        ToolName::DeleteMessage => 4,
        ToolName::DownloadAttachment => 5,
        ToolName::Expunge => 6,
        ToolName::FetchMessage => 7,
        ToolName::Flag => 8,
        ToolName::ListAccounts => 9,
        ToolName::ListAttachments => 10,
        ToolName::ListFolders => 11,
        ToolName::ListLabels => 12,
        ToolName::MarkRead => 13,
        ToolName::MarkUnread => 14,
        ToolName::MoveMessage => 15,
        ToolName::RemoveLabel => 16,
        ToolName::RenameFolder => 17,
        ToolName::Search => 18,
        ToolName::SendEmail => 19,
        ToolName::Unflag => 20,
        _ => 21,
    };
    assert(!(wanted is ExportMessages) && !(wanted is Forward) ==> rows[i].tool == wanted);
}

} // verus!
