//! The envelope of a tool's result.
use vstd::prelude::*;

use crate::json;
use crate::json::{Json, JsonV};
use crate::text::same_text;

verus! {

/// A tool's result: what the server says, what the mail says, and what the server
/// noticed about the mail.
pub struct ToolResponse<M, U, W> {
    /// From the server; trusted.
    pub meta: M,
    /// From the mail, sanitized; not trusted.
    pub untrusted: Option<U>,
    /// What the server noticed; trusted.
    pub security_warnings: Vec<W>,
}

impl<M, U, W> ToolResponse<M, U, W> {
    /// A result with nothing from the mail and nothing noticed.
    pub fn meta_only(meta: M) -> (r: Self)
        ensures
            r.meta == meta,
            r.untrusted is None,
            r.security_warnings@.len() == 0,
    {
        ToolResponse { meta, untrusted: None, security_warnings: Vec::new() }
    }

    /// The same result with this from the mail.
    pub fn with_untrusted(self, untrusted: U) -> (r: Self)
        ensures
            r.meta == self.meta,
            r.untrusted == Some(untrusted),
            r.security_warnings == self.security_warnings,
    {
        ToolResponse {
            meta: self.meta,
            untrusted: Some(untrusted),
            security_warnings: self.security_warnings,
        }
    }

    /// The same result with these warnings in place of its own.
    pub fn with_warnings(self, warnings: Vec<W>) -> (r: Self)
        ensures
            r.meta == self.meta,
            r.untrusted == self.untrusted,
            r.security_warnings == warnings,
    {
        ToolResponse { meta: self.meta, untrusted: self.untrusted, security_warnings: warnings }
    }

    /// The same result with one warning more.
    pub fn with_warning(self, warning: W) -> (r: Self)
        ensures
            r.meta == self.meta,
            r.untrusted == self.untrusted,
            r.security_warnings@ == self.security_warnings@.push(warning),
    {
        let mut warnings = self.security_warnings;
        warnings.push(warning);
        ToolResponse { meta: self.meta, untrusted: self.untrusted, security_warnings: warnings }
    }
}

/// The members of a schema without its title; none where it is no object.
pub open spec fn untitled(schema: JsonV) -> Map<Seq<char>, JsonV> {
    match schema {
        JsonV::Object(members) => members.remove("title"@),
        _ => Map::empty(),
    }
}

/// A schema as it is published: without the title at its root, which would show
/// the name of a type. What is no object has no schema to publish.
pub fn envelope_schema(schema: Json) -> (r: Vec<(String, Json)>)
    ensures
        json::object_view(r@) == untitled(schema@),
{
    let mut out: Vec<(String, Json)> = Vec::new();
    if let Json::Object(members) = schema {
        let ghost all = members@;
        for member in it: members
            invariant
                it.seq() == all,
                json::object_view(out@) == json::object_view(all.take(it.index() as int)).remove(
                    "title"@,
                ),
                schema matches Json::Object(given) && given@ == all,
        {
            let ghost k = it.index() as int;
            let ghost before = out@;
            assert(all.take(k + 1).drop_last() =~= all.take(k));
            assert(all[k] == member);
            if !same_text(member.0.as_str(), "title") {
                out.push(member);
                assert(out@.drop_last() =~= before);
            }
            assert(json::object_view(out@) =~= json::object_view(all.take(k + 1)).remove(
                "title"@,
            ));
        }
        assert(all.take(all.len() as int) =~= all);
    }
    out
}

} // verus!
