//! What the tool documentation is made from: one line of JSON for each tool.
use vstd::prelude::*;
use vstd::string::*;

use crate::json;
use crate::json::{render_json, set_member, Json, JsonV};
use crate::mcp::tool_catalog;
use crate::mcp::tool_catalog::{publish, publish_input, tool_def_parts};
use crate::tool;
use crate::tool::{Posture, ToolName};

verus! {

/// Whether each posture allows a tool.
#[derive(Debug, Clone, Copy, PartialEq, Eq, Structural)]
pub struct PostureAllowance {
    pub readonly: bool,
    pub draft_safe: bool,
    pub full: bool,
    pub destructive: bool,
}

/// Whether a posture allows the tool.
pub open spec fn allows(allowed: PostureAllowance, posture: Posture) -> bool {
    match posture {
        Posture::Readonly => allowed.readonly,
        Posture::DraftSafe => allowed.draft_safe,
        Posture::Full => allowed.full,
        Posture::Destructive => allowed.destructive,
    }
}

/// How much a posture can do, from the least.
pub open spec fn rank(posture: Posture) -> int {
    match posture {
        Posture::Readonly => 0,
        Posture::DraftSafe => 1,
        Posture::Full => 2,
        Posture::Destructive => 3,
    }
}

/// The least capable posture that allows a tool, where one does.
pub open spec fn least(allowed: PostureAllowance) -> Option<Posture> {
    if allowed.readonly {
        Some(Posture::Readonly)
    } else if allowed.draft_safe {
        Some(Posture::DraftSafe)
    } else if allowed.full {
        Some(Posture::Full)
    } else if allowed.destructive {
        Some(Posture::Destructive)
    } else {
        None
    }
}

/// The least capable posture that allows a tool is one that allows it, and none
/// that allows it can do less.
pub proof fn law_least_posture(allowed: PostureAllowance, posture: Posture)
    ensures
        allows(allowed, posture) ==> least(allowed) is Some && rank(least(allowed)->0) <= rank(
            posture,
        ),
        least(allowed) is Some ==> allows(allowed, least(allowed)->0),
{
}

/// The least capable posture that allows a tool: `None` where none does.
pub fn min_posture(allowed: PostureAllowance) -> (r: Option<Posture>)
    ensures
        r == least(allowed),
{
    if allowed.readonly {
        Some(Posture::Readonly)
    } else if allowed.draft_safe {
        Some(Posture::DraftSafe)
    } else if allowed.full {
        Some(Posture::Full)
    } else if allowed.destructive {
        Some(Posture::Destructive)
    } else {
        None
    }
}

/// What a tool's record is made from beside the catalog. The schemas are as they are
/// derived from the types of its arguments and results.
pub struct DocSource {
    pub tool: ToolName,
    pub allowed: PostureAllowance,
    pub input_schema: Json,
    pub output_schema: Json,
}

/// The record of a tool: `None` for what the catalog does not list.
pub open spec fn doc_record(source: DocSource) -> Option<JsonV> {
    match tool_catalog::tool_def(source.tool) {
        Some(def) => Some(
            JsonV::Object(
                map![
                    "name"@ => JsonV::Str(tool::wire_name(source.tool)),
                    "title"@ => JsonV::Str(def.title),
                    "description"@ => JsonV::Str(def.description),
                    "min_posture"@ => match least(source.allowed) {
                        Some(posture) => JsonV::Str(tool::posture_name(posture)),
                        None => JsonV::Null,
                    },
                    "input_schema"@ => tool_catalog::published_input(
                        def.input,
                        source.input_schema@,
                    ),
                    "output_schema"@ => tool_catalog::published(source.output_schema@),
                ],
            ),
        ),
        None => None,
    }
}

/// The record of a tool: `None` for what the catalog does not list.
pub fn tool_doc(source: DocSource) -> (r: Option<Json>)
    ensures
        match r {
            Some(record) => doc_record(source) == Some(record@),
            None => doc_record(source) is None,
        },
{
    let def = match tool_def_parts(source.tool) {
        Some(def) => def,
        None => {
            return None;
        },
    };
    let posture = match min_posture(source.allowed) {
        Some(posture) => Json::Str(posture.as_str().to_owned()),
        None => Json::Null,
    };
    let mut members: Vec<(String, Json)> = Vec::new();
    set_member(&mut members, "name", Json::Str(source.tool.as_str().to_owned()));
    set_member(&mut members, "title", Json::Str(def.title.to_owned()));
    set_member(&mut members, "description", Json::Str(def.description.to_owned()));
    set_member(&mut members, "min_posture", posture);
    set_member(&mut members, "input_schema", publish_input(def.input, source.input_schema));
    set_member(&mut members, "output_schema", publish(source.output_schema));
    Some(Json::Object(members))
}

/// The records of some tools, in their order.
pub open spec fn doc_records(sources: Seq<DocSource>) -> Seq<JsonV>
    decreases sources.len(),
{
    if sources.len() == 0 {
        Seq::empty()
    } else {
        let before = doc_records(sources.drop_last());
        match doc_record(sources.last()) {
            Some(record) => before.push(record),
            None => before,
        }
    }
}

/// Values as JSON, each on a line.
pub open spec fn json_lines(values: Seq<JsonV>) -> Seq<char>
    decreases values.len(),
{
    if values.len() == 0 {
        Seq::empty()
    } else {
        json_lines(values.drop_last()) + json::json_text(values.last()) + "\n"@
    }
}

/// The records of some tools, each on a line.
pub open spec fn doc_lines(sources: Seq<DocSource>) -> Seq<char> {
    json_lines(doc_records(sources))
}

/// The tools that sources are for.
pub open spec fn source_tools(sources: Seq<DocSource>) -> Seq<ToolName> {
    Seq::new(sources.len(), |i: int| sources[i].tool)
}

/// There is one record for each source whose tool the catalog lists, in the order
/// of the sources, under the tool's name.
pub proof fn law_one_record_for_each_listed_tool(sources: Seq<DocSource>)
    ensures
        doc_records(sources).len() == tool_catalog::defined(source_tools(sources)).len(),
        forall|j: int|
            0 <= j < doc_records(sources).len() ==> json::field(
                #[trigger] doc_records(sources)[j],
                "name"@,
            ) == Some(
                JsonV::Str(tool::wire_name(tool_catalog::defined(source_tools(sources))[j])),
            ),
    decreases sources.len(),
{
    reveal(Seq::filter);
    let tools = source_tools(sources);
    let listed = tool_catalog::defined(tools);
    if sources.len() > 0 {
        let rest = sources.drop_last();
        law_one_record_for_each_listed_tool(rest);
        assert(source_tools(rest) =~= tools.drop_last());
        let before = tool_catalog::defined(source_tools(rest));
        assert forall|j: int| 0 <= j < doc_records(sources).len() implies json::field(
            #[trigger] doc_records(sources)[j],
            "name"@,
        ) == Some(JsonV::Str(tool::wire_name(listed[j]))) by {
            if j < doc_records(rest).len() {
                assert(doc_records(sources)[j] == doc_records(rest)[j]);
                assert(listed[j] == before[j]);
            } else {
                lemma_record_name(sources.last());
                assert(listed[j] == sources.last().tool);
            }
        }
    }
}

proof fn lemma_record_name(source: DocSource)
    ensures
        doc_record(source) matches Some(record) ==> json::field(record, "name"@) == Some(
            JsonV::Str(tool::wire_name(source.tool)),
        ),
{
    reveal_strlit("name");
    reveal_strlit("title");
    reveal_strlit("description");
    reveal_strlit("min_posture");
    reveal_strlit("input_schema");
    reveal_strlit("output_schema");
    assert("name"@[0] == 'n' && "title"@[0] == 't' && "description"@[0] == 'd');
    assert("min_posture"@[0] == 'm' && "input_schema"@[0] == 'i' && "output_schema"@[0] == 'o');
}

/// Sources for all tools, in the order in which tools are declared, give one
/// record for each tool of the catalog, in that order.
pub proof fn law_all_tools_are_documented(sources: Seq<DocSource>)
    requires
        source_tools(sources) == tool::all_tools(),
    ensures
        doc_records(sources).len() == 24,
        forall|j: int|
            0 <= j < doc_records(sources).len() ==> json::field(
                #[trigger] doc_records(sources)[j],
                "name"@,
            ) == Some(JsonV::Str(tool::wire_name(tool_catalog::defined(tool::all_tools())[j]))),
{
    law_one_record_for_each_listed_tool(sources);
    tool_catalog::law_catalog_size();
}

/// The records of some tools, each on a line.
pub fn dump_tool_doc(sources: Vec<DocSource>) -> (r: String)
    ensures
        r@ == doc_lines(sources@),
{
    let ghost all = sources@;
    let mut out = String::new();
    assert(all.take(0) =~= Seq::empty());
    for source in it: sources
        invariant
            it.seq() == all,
            out@ == doc_lines(all.take(it.index() as int)),
    {
        let ghost k = it.index() as int;
        assert(all.take(k + 1).drop_last() =~= all.take(k));
        assert(all[k] == source);
        let ghost records = doc_records(all.take(k));
        if let Some(record) = tool_doc(source) {
            assert(records.push(record@).drop_last() =~= records);
            let line = render_json(&record);
            out.append(line.as_str());
            out.append("\n");
        }
    }
    assert(all.take(all.len() as int) =~= all);
    out
}

/// A tool's record read field by field: its name, its title, its description, the least
/// posture that allows it, and the schemas as they are published.
pub proof fn law_record_by_field(source: DocSource, record: JsonV)
    requires
        doc_record(source) == Some(record),
    ensures
        ({
            let def = tool_catalog::tool_def(source.tool)->0;
            &&& json::field(record, "name"@) == Some(JsonV::Str(tool::wire_name(source.tool)))
            &&& json::field(record, "title"@) == Some(JsonV::Str(def.title))
            &&& json::field(record, "description"@) == Some(JsonV::Str(def.description))
            &&& json::field(record, "input_schema"@) == Some(
                tool_catalog::published_input(def.input, source.input_schema@),
            )
            &&& json::field(record, "output_schema"@) == Some(
                tool_catalog::published(source.output_schema@),
            )
            &&& json::field(record, "min_posture"@) matches Some(least_one) && (least_one is Null
                <==> !source.allowed.readonly && !source.allowed.draft_safe && !source.allowed.full
                && !source.allowed.destructive)
        }),
{
    reveal_strlit("name");
    reveal_strlit("title");
    reveal_strlit("description");
    reveal_strlit("min_posture");
    reveal_strlit("input_schema");
    reveal_strlit("output_schema");
    assert("name"@[0] == 'n' && "title"@[0] == 't' && "description"@[0] == 'd');
    assert("min_posture"@[0] == 'm' && "input_schema"@[0] == 'i' && "output_schema"@[0] == 'o');
}

/// The least posture is told by its name: that of a posture allows the tool while none
/// below it does.
pub proof fn law_least_posture_is_named(source: DocSource, record: JsonV)
    requires
        doc_record(source) == Some(record),
    ensures
        source.allowed.readonly ==> json::field(record, "min_posture"@) == Some(
            JsonV::Str("readonly"@),
        ),
        !source.allowed.readonly && source.allowed.draft_safe ==> json::field(
            record,
            "min_posture"@,
        ) == Some(JsonV::Str("draft-safe"@)),
        !source.allowed.readonly && !source.allowed.draft_safe && source.allowed.full
            ==> json::field(record, "min_posture"@) == Some(JsonV::Str("full"@)),
        !source.allowed.readonly && !source.allowed.draft_safe && !source.allowed.full
            && source.allowed.destructive ==> json::field(record, "min_posture"@) == Some(
            JsonV::Str("destructive"@),
        ),
{
    reveal_strlit("name");
    reveal_strlit("title");
    reveal_strlit("description");
    reveal_strlit("min_posture");
    reveal_strlit("input_schema");
    reveal_strlit("output_schema");
    assert("name"@[0] == 'n' && "title"@[0] == 't' && "description"@[0] == 'd');
    assert("min_posture"@[0] == 'm' && "input_schema"@[0] == 'i' && "output_schema"@[0] == 'o');
}

/// Values stand on lines of their own, in their order.
pub proof fn law_values_stand_on_lines(first: Seq<JsonV>, second: Seq<JsonV>, one: JsonV)
    ensures
        json_lines(first + second) == json_lines(first) + json_lines(second),
        json_lines(seq![one]) == json::json_text(one).push('\n'),
    decreases second.len(),
{
    reveal_strlit("\n");
    let row = seq![one];
    assert(row.drop_last() =~= Seq::empty());
    assert(row.last() == one);
    assert(json_lines(row.drop_last()) =~= Seq::empty());
    assert(json_lines(row) =~= json::json_text(one).push('\n'));
    if second.len() == 0 {
        assert(first + second =~= first);
        assert(json_lines(first + second) =~= json_lines(first) + json_lines(second));
    } else {
        assert((first + second).drop_last() =~= first + second.drop_last());
        law_values_stand_on_lines(first, second.drop_last(), one);
        assert(json_lines(first + second) =~= json_lines(first) + json_lines(second));
    }
}

} // verus!
