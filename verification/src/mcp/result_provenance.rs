//! What the audit log keeps of a tool's result: where a file was written, and of
//! which messages.
use vstd::prelude::*;

use crate::json;
use crate::json::{get, Json, JsonV};
use crate::text;
use crate::tool::ToolName;

verus! {

/// What the audit log keeps of a tool's result.
#[derive(Debug, Clone, PartialEq, Eq, Default)]
pub struct ResultSummary {
    pub artifact_path: Option<String>,
    pub artifact_sha256: Option<String>,
    pub artifact_bytes: Option<u64>,
    pub uids_exported: Vec<u32>,
    pub uids_failed: Vec<u32>,
}

/// What the audit log keeps of a tool's result, by value.
#[verifier::ext_equal]
pub struct SummaryV {
    pub artifact_path: Option<Seq<char>>,
    pub artifact_sha256: Option<Seq<char>>,
    pub artifact_bytes: Option<int>,
    pub uids_exported: Seq<u32>,
    pub uids_failed: Seq<u32>,
}

/// A number that may be missing, by value.
pub open spec fn number_view(n: Option<u64>) -> Option<int> {
    match n {
        Some(n) => Some(n as int),
        None => None,
    }
}

impl View for ResultSummary {
    type V = SummaryV;

    open spec fn view(&self) -> SummaryV {
        SummaryV {
            artifact_path: text::text_view(self.artifact_path),
            artifact_sha256: text::text_view(self.artifact_sha256),
            artifact_bytes: number_view(self.artifact_bytes),
            uids_exported: self.uids_exported@,
            uids_failed: self.uids_failed@,
        }
    }
}

/// A summary with nothing in it.
pub open spec fn nothing() -> SummaryV {
    SummaryV {
        artifact_path: None,
        artifact_sha256: None,
        artifact_bytes: None,
        uids_exported: Seq::empty(),
        uids_failed: Seq::empty(),
    }
}

/// The text under a key: `None` where there is none.
pub open spec fn text_at(v: JsonV, key: Seq<char>) -> Option<Seq<char>> {
    match json::field(v, key) {
        Some(JsonV::Str(t)) => Some(t),
        _ => None,
    }
}

/// The count under a key: `None` where there is none that fits 64 bits.
pub open spec fn count_at(v: JsonV, key: Seq<char>) -> Option<int> {
    match json::field(v, key) {
        Some(JsonV::Int(n)) => if 0 <= n <= u64::MAX {
            Some(n)
        } else {
            None
        },
        _ => None,
    }
}

/// The message number of an entry: `None` where it has none that fits 32 bits.
pub open spec fn uid_of(entry: JsonV) -> Option<u32> {
    match count_at(entry, "uid"@) {
        Some(n) => if n <= u32::MAX {
            Some(n as u32)
        } else {
            None
        },
        None => None,
    }
}

/// The message numbers of a list of entries; entries without one are passed over.
pub open spec fn uids_of(entries: Seq<JsonV>) -> Seq<u32>
    decreases entries.len(),
{
    if entries.len() == 0 {
        Seq::empty()
    } else {
        match uid_of(entries.last()) {
            Some(uid) => uids_of(entries.drop_last()).push(uid),
            None => uids_of(entries.drop_last()),
        }
    }
}

/// The message numbers of the entries under a key.
pub open spec fn uids_at(v: JsonV, key: Seq<char>) -> Seq<u32> {
    match json::field(v, key) {
        Some(JsonV::Array(entries)) => uids_of(entries),
        _ => Seq::empty(),
    }
}

/// What is kept of a result: for an export its file, complete or partial, and
/// which messages went in and which did not; for a download its file; for any
/// other tool nothing.
pub open spec fn provenance(tool: ToolName, value: JsonV) -> SummaryV {
    match json::field(value, "meta"@) {
        None => nothing(),
        Some(meta) => match tool {
            ToolName::ExportMessages => SummaryV {
                artifact_path: match text_at(meta, "path"@) {
                    Some(path) => Some(path),
                    None => text_at(meta, "partial_path"@),
                },
                artifact_sha256: text_at(meta, "sha256"@),
                artifact_bytes: count_at(meta, "total_bytes"@),
                uids_exported: uids_at(meta, "succeeded"@),
                uids_failed: uids_at(meta, "failed"@),
            },
            ToolName::DownloadAttachment => SummaryV {
                artifact_path: text_at(meta, "path"@),
                artifact_sha256: text_at(meta, "sha256"@),
                artifact_bytes: count_at(meta, "size_bytes"@),
                uids_exported: Seq::empty(),
                uids_failed: Seq::empty(),
            },
            _ => nothing(),
        },
    }
}

/// A summary with nothing in it.
pub(crate) fn empty_summary() -> (r: ResultSummary)
    ensures
        r@ == nothing(),
{
    ResultSummary {
        artifact_path: None,
        artifact_sha256: None,
        artifact_bytes: None,
        uids_exported: Vec::new(),
        uids_failed: Vec::new(),
    }
}

/// The text under a key: `None` where there is none.
pub fn string_field(meta: &Json, key: &str) -> (r: Option<String>)
    ensures
        text::text_view(r) == text_at(meta@, key@),
{
    match get(meta, key) {
        Some(Json::Str(t)) => Some(t.clone()),
        _ => None,
    }
}

/// The count under a key: `None` where there is none that fits 64 bits.
pub fn count_field(meta: &Json, key: &str) -> (r: Option<u64>)
    ensures
        number_view(r) == count_at(meta@, key@),
{
    match get(meta, key) {
        Some(Json::UInt(n)) => Some(*n),
        Some(Json::Int(n)) => if *n >= 0 {
            Some(*n as u64)
        } else {
            None
        },
        _ => None,
    }
}

/// The message numbers of the entries under a key.
pub fn uid_list(meta: &Json, key: &str) -> (r: Vec<u32>)
    ensures
        r@ == uids_at(meta@, key@),
{
    let mut out: Vec<u32> = Vec::new();
    if let Some(Json::Array(entries)) = get(meta, key) {
        let ghost all = json::array_view(entries@);
        proof {
            json::lemma_array_view(entries@);
        }
        for i in 0..entries.len()
            invariant
                all == json::array_view(entries@),
                all.len() == entries@.len(),
                out@ == uids_of(all.take(i as int)),
        {
            proof {
                json::lemma_array_view(entries@);
                assert(all.take(i + 1).drop_last() =~= all.take(i as int));
                assert(all.take(i + 1).last() == json::json_view(entries@[i as int]));
            }
            match count_field(&entries[i], "uid") {
                Some(n) => {
                    if n <= 0xffff_ffff {
                        out.push(n as u32);
                    }
                },
                None => {},
            }
        }
        assert(all.take(entries@.len() as int) =~= all);
    }
    out
}

/// What is kept of a result of `export_messages`.
pub fn export_provenance(value: &Json) -> (r: ResultSummary)
    ensures
        r@ == provenance(ToolName::ExportMessages, value@),
{
    let meta = match get(value, "meta") {
        Some(meta) => meta,
        None => {
            return empty_summary();
        },
    };
    let path = match string_field(meta, "path") {
        Some(path) => Some(path),
        None => string_field(meta, "partial_path"),
    };
    ResultSummary {
        artifact_path: path,
        artifact_sha256: string_field(meta, "sha256"),
        artifact_bytes: count_field(meta, "total_bytes"),
        uids_exported: uid_list(meta, "succeeded"),
        uids_failed: uid_list(meta, "failed"),
    }
}

/// What is kept of a result of `download_attachment`.
pub fn download_provenance(value: &Json) -> (r: ResultSummary)
    ensures
        r@ == provenance(ToolName::DownloadAttachment, value@),
{
    let meta = match get(value, "meta") {
        Some(meta) => meta,
        None => {
            return empty_summary();
        },
    };
    ResultSummary {
        artifact_path: string_field(meta, "path"),
        artifact_sha256: string_field(meta, "sha256"),
        artifact_bytes: count_field(meta, "size_bytes"),
        uids_exported: Vec::new(),
        uids_failed: Vec::new(),
    }
}

/// What the audit log keeps of a tool's result.
pub fn result_provenance(tool: ToolName, value: &Json) -> (r: ResultSummary)
    ensures
        r@ == provenance(tool, value@),
{
    match tool {
        ToolName::ExportMessages => export_provenance(value),
        ToolName::DownloadAttachment => download_provenance(value),
        _ => empty_summary(),
    }
}

/// Only the two tools that write a file leave anything behind in the log.
pub proof fn law_only_file_tools_leave_provenance(tool: ToolName, value: JsonV)
    requires
        !(tool is ExportMessages),
        !(tool is DownloadAttachment),
    ensures
        provenance(tool, value) == nothing(),
{
}

/// Message numbers are read entry by entry: those of one list before those of
/// another are those of both in a row.
pub proof fn law_message_numbers_keep_their_order(first: Seq<JsonV>, second: Seq<JsonV>)
    ensures
        uids_of(first + second) == uids_of(first) + uids_of(second),
    decreases second.len(),
{
    if second.len() == 0 {
        assert(first + second =~= first);
    } else {
        assert((first + second).drop_last() =~= first + second.drop_last());
        law_message_numbers_keep_their_order(first, second.drop_last());
    }
}

/// An entry with a message number of 32 bits is read as that number, and nothing else
/// is read from it. An entry with another number, a negative one, or none is passed
/// over.
pub proof fn law_entry_is_read_by_its_message_number(entry: JsonV)
    ensures
        uids_of(seq![entry]) == match json::field(entry, "uid"@) {
            Some(JsonV::Int(n)) => if 0 <= n <= 0xffff_ffff {
                seq![n as u32]
            } else {
                Seq::empty()
            },
            _ => Seq::empty(),
        },
{
    assert(seq![entry].drop_last() =~= Seq::empty());
    assert(seq![entry].last() == entry);
    assert(uids_of(Seq::empty()) =~= Seq::empty());
}

proof fn lemma_uids_hold(entries: Seq<JsonV>, i: int)
    requires
        0 <= i < entries.len(),
        uid_of(entries[i]) is Some,
    ensures
        uids_of(entries).contains(uid_of(entries[i])->0),
    decreases entries.len(),
{
    let rest = entries.drop_last();
    if i < rest.len() {
        lemma_uids_hold(rest, i);
        let k = choose|k: int|
            0 <= k < uids_of(rest).len() && uids_of(rest)[k] == uid_of(entries[i])->0;
        assert(uids_of(entries)[k] == uids_of(rest)[k]);
    } else {
        assert(uids_of(entries).last() == uid_of(entries[i])->0);
    }
}

/// A message that an export gives as one that went in, or as one that did not, is
/// logged as such.
pub proof fn law_exported_message_is_logged(
    value: JsonV,
    meta: JsonV,
    entries: Seq<JsonV>,
    i: int,
    uid: u32,
)
    requires
        json::field(value, "meta"@) == Some(meta),
        0 <= i < entries.len(),
        json::field(entries[i], "uid"@) == Some(JsonV::Int(uid as int)),
    ensures
        json::field(meta, "succeeded"@) == Some(JsonV::Array(entries)) ==> provenance(
            ToolName::ExportMessages,
            value,
        ).uids_exported.contains(uid),
        json::field(meta, "failed"@) == Some(JsonV::Array(entries)) ==> provenance(
            ToolName::ExportMessages,
            value,
        ).uids_failed.contains(uid),
{
    lemma_uids_hold(entries, i);
}

/// The file that an export wrote is logged where it lies: the whole one where there is
/// one, the partial one otherwise. Its digest and its size are logged with it.
pub proof fn law_exported_file_is_logged(value: JsonV, meta: JsonV, text: Seq<char>, size: u64)
    requires
        json::field(value, "meta"@) == Some(meta),
    ensures
        json::field(meta, "path"@) == Some(JsonV::Str(text)) ==> provenance(
            ToolName::ExportMessages,
            value,
        ).artifact_path == Some(text),
        !(json::field(meta, "path"@) matches Some(JsonV::Str(_))) && json::field(
            meta,
            "partial_path"@,
        ) == Some(JsonV::Str(text)) ==> provenance(ToolName::ExportMessages, value).artifact_path
            == Some(text),
        json::field(meta, "sha256"@) == Some(JsonV::Str(text)) ==> provenance(
            ToolName::ExportMessages,
            value,
        ).artifact_sha256 == Some(text),
        json::field(meta, "total_bytes"@) == Some(JsonV::Int(size as int)) ==> provenance(
            ToolName::ExportMessages,
            value,
        ).artifact_bytes == Some(size as int),
{
}

/// The file that a download wrote is logged where it lies, with its digest and its
/// size, and with no messages.
pub proof fn law_downloaded_file_is_logged(value: JsonV, meta: JsonV, text: Seq<char>, size: u64)
    requires
        json::field(value, "meta"@) == Some(meta),
    ensures
        json::field(meta, "path"@) == Some(JsonV::Str(text)) ==> provenance(
            ToolName::DownloadAttachment,
            value,
        ).artifact_path == Some(text),
        json::field(meta, "sha256"@) == Some(JsonV::Str(text)) ==> provenance(
            ToolName::DownloadAttachment,
            value,
        ).artifact_sha256 == Some(text),
        json::field(meta, "size_bytes"@) == Some(JsonV::Int(size as int)) ==> provenance(
            ToolName::DownloadAttachment,
            value,
        ).artifact_bytes == Some(size as int),
        provenance(ToolName::DownloadAttachment, value).uids_exported.len() == 0,
        provenance(ToolName::DownloadAttachment, value).uids_failed.len() == 0,
{
}

/// Nothing is logged that the result does not say: no path, digest or size where it
/// gives none of its kind, and no size below zero or beyond 64 bits.
pub proof fn law_nothing_is_made_up(tool: ToolName, value: JsonV, meta: JsonV)
    requires
        json::field(value, "meta"@) == Some(meta),
    ensures
        provenance(tool, value).artifact_sha256 matches Some(digest) ==> json::field(
            meta,
            "sha256"@,
        ) == Some(JsonV::Str(digest)),
        provenance(tool, value).artifact_path matches Some(path) ==> json::field(meta, "path"@)
            == Some(JsonV::Str(path)) || (tool is ExportMessages && json::field(
            meta,
            "partial_path"@,
        ) == Some(JsonV::Str(path))),
        provenance(tool, value).artifact_bytes matches Some(n) ==> 0 <= n
            <= 0xffff_ffff_ffff_ffff && json::field(
            meta,
            if tool is ExportMessages {
                "total_bytes"@
            } else {
                "size_bytes"@
            },
        ) == Some(JsonV::Int(n)),
{
}

/// What is nothing has no file and no messages.
pub proof fn law_nothing_is_empty()
    ensures
        nothing().artifact_path is None && nothing().artifact_sha256 is None
            && nothing().artifact_bytes is None,
        nothing().uids_exported.len() == 0 && nothing().uids_failed.len() == 0,
{
}

/// What is kept of a result is told field by field as it is held.
pub proof fn law_summary_is_told_as_it_is_held(summary: ResultSummary)
    ensures
        summary.artifact_path matches Some(t) ==> summary@.artifact_path == Some(t@),
        summary.artifact_path is None ==> summary@.artifact_path is None,
        summary.artifact_sha256 matches Some(t) ==> summary@.artifact_sha256 == Some(t@),
        summary.artifact_sha256 is None ==> summary@.artifact_sha256 is None,
        summary.artifact_bytes matches Some(n) ==> summary@.artifact_bytes == Some(n as int),
        summary.artifact_bytes is None ==> summary@.artifact_bytes is None,
        summary@.uids_exported == summary.uids_exported@,
        summary@.uids_failed == summary.uids_failed@,
{
}

} // verus!
