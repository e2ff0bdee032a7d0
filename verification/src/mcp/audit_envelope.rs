//! The audit records around a tool call: one when it starts, one when it ends.
use vstd::prelude::*;
use vstd::string::*;

use crate::error;
use crate::error::{ErrorCode, RimapError};
use crate::json::Json;
use crate::mcp::dispatch::DispatchTicket;
use crate::mcp::error::{
    is_tool_execution_error, to_error_call_result, to_mcp_error, CallToolResult, Content,
    ErrorData, ErrorDataV, INTERNAL_ERROR,
};
use crate::mcp::result_provenance;
use crate::mcp::result_provenance::{empty_summary, ResultSummary};
use crate::text::copy_text;
use crate::tool::ToolName;

verus! {

/// How a tool call ended.
#[derive(Debug, Clone, Copy, PartialEq, Eq, Structural)]
pub enum ToolStatus {
    Succeeded,
    Error,
    Cancelled,
}

/// How a tool call ended, and what is kept of it.
pub struct ToolOutcome {
    pub status: ToolStatus,
    pub error_code: Option<ErrorCode>,
    pub result_summary: ResultSummary,
}

/// The record of a tool call's end.
pub struct ToolEnd {
    pub start_seq: u64,
    pub tool: ToolName,
    pub account: Option<String>,
    pub duration_ms: u64,
    pub outcome: ToolOutcome,
}

/// How a call that came to `result` is recorded. A failed call wrote nothing that
/// would be kept.
pub fn tool_outcome(tool: ToolName, result: Result<&Json, &RimapError>) -> (r: ToolOutcome)
    ensures
        match result {
            Ok(value) => r.status is Succeeded && r.error_code is None && r.result_summary@
                == result_provenance::provenance(tool, value@),
            Err(e) => r.status is Error && r.error_code == Some(error::error_code(*e))
                && r.result_summary@ == result_provenance::nothing(),
        },
{
    match result {
        Ok(value) => ToolOutcome {
            status: ToolStatus::Succeeded,
            error_code: None,
            result_summary: result_provenance::result_provenance(tool, value),
        },
        Err(e) => ToolOutcome {
            status: ToolStatus::Error,
            error_code: Some(e.code()),
            result_summary: empty_summary(),
        },
    }
}

/// What the client gets for a call.
pub enum Reply {
    /// The tool's value.
    Value(Json),
    /// The tool's result, which says that it failed.
    Failed(CallToolResult),
    /// A protocol error.
    Protocol(ErrorData),
}

/// What the client gets for a call that came to `result`. `shown` is the text that
/// an error is shown with.
pub fn reply(result: Result<Json, RimapError>, shown: &str) -> (r: Reply)
    ensures
        match result {
            Ok(value) => r == Reply::Value(value),
            Err(e) => if crate::mcp::error::tool_execution_code(error::error_code(e)) {
                r matches Reply::Failed(failed) && {
                    &&& failed.is_error == Some(true)
                    &&& failed.content@.len() == 1
                    &&& failed.content@[0] matches Content::Text(t) && t@
                        == crate::mcp::error::wire_text(error::error_code(e), shown@)
                    &&& failed.structured_content matches Some(data) && data@
                        == crate::mcp::error::result_details(e)
                }
            } else {
                r matches Reply::Protocol(data) && data@ == crate::mcp::error::mcp_error_v(
                    e,
                    shown@,
                )
            },
        },
{
    match result {
        Ok(value) => Reply::Value(value),
        Err(e) => if is_tool_execution_error(&e) {
            Reply::Failed(to_error_call_result(&e, shown))
        } else {
            Reply::Protocol(to_mcp_error(&e, shown))
        },
    }
}

/// What became of the write of a start record.
pub enum StartWrite {
    /// It was written under this number.
    Written(u64),
    /// The log refused it, for this reason.
    Refused(String),
    /// The task that wrote it panicked; this is the text of the resulting error.
    Panicked(String),
}

/// The error of a task that panicked.
pub fn spawn_blocking_panic_error() -> (r: RimapError)
    ensures
        r matches RimapError::Internal(message) && message@ == "spawn_blocking panicked"@,
{
    RimapError::Internal("spawn_blocking panicked".to_owned())
}

/// The protocol error of a call whose start record was lost to a panic.
pub open spec fn start_panicked(shown: Seq<char>) -> ErrorDataV {
    ErrorDataV { code: INTERNAL_ERROR as int, message: shown, data: None }
}

/// The protocol error of a call whose start record was refused.
pub open spec fn start_refused(reason: Seq<char>) -> ErrorDataV {
    ErrorDataV {
        code: INTERNAL_ERROR as int,
        message: "audit write failed: "@ + reason,
        data: None,
    }
}

/// Watches over a call between its two records: while it is armed, a call that is
/// dropped still gets its end record.
pub struct AuditEnvelopeGuard {
    armed: bool,
    start_seq: u64,
    tool: ToolName,
    account: Option<String>,
}

impl AuditEnvelopeGuard {
    /// Whether a drop would write the end record.
    pub closed spec fn is_armed(self) -> bool {
        self.armed
    }

    /// The number of the start record.
    pub closed spec fn seq(self) -> u64 {
        self.start_seq
    }

    /// The tool that is called.
    pub closed spec fn called(self) -> ToolName {
        self.tool
    }

    /// The account that the call is logged under.
    pub closed spec fn logged_under(self) -> Option<Seq<char>> {
        crate::text::text_view(self.account)
    }

    /// A guard over a call whose start record is written.
    pub fn new(start_seq: u64, tool: ToolName, account: Option<String>) -> (r: AuditEnvelopeGuard)
        ensures
            r.is_armed(),
            r.seq() == start_seq,
            r.called() == tool,
            r.logged_under() == crate::text::text_view(account),
    {
        AuditEnvelopeGuard { armed: true, start_seq, tool, account }
    }

    /// Tells the guard that the call came to its end: a drop does nothing more.
    pub fn disarm(&mut self)
        ensures
            !final(self).is_armed(),
            final(self).seq() == old(self).seq(),
            final(self).called() == old(self).called(),
            final(self).logged_under() == old(self).logged_under(),
    {
        self.armed = false;
    }

    /// The end record of a call that is dropped after `duration_ms`: `None` where
    /// the guard is disarmed. It disarms the guard.
    pub fn on_drop(&mut self, duration_ms: u64) -> (r: Option<ToolEnd>)
        ensures
            !final(self).is_armed(),
            final(self).seq() == old(self).seq(),
            final(self).called() == old(self).called(),
            final(self).logged_under() == old(self).logged_under(),
            r is Some == old(self).is_armed(),
            r matches Some(end) ==> {
                &&& end.start_seq == old(self).seq()
                &&& end.tool == old(self).called()
                &&& crate::text::text_view(end.account) == old(self).logged_under()
                &&& end.duration_ms == duration_ms
                &&& end.outcome.status is Cancelled
                &&& end.outcome.error_code == Some(ErrorCode::Cancelled)
                &&& end.outcome.result_summary@ == result_provenance::nothing()
            },
    {
        if !self.armed {
            return None;
        }
        self.armed = false;
        let account = copy_text(&self.account);
        Some(
            ToolEnd {
                start_seq: self.start_seq,
                tool: self.tool,
                account,
                duration_ms,
                outcome: ToolOutcome {
                    status: ToolStatus::Cancelled,
                    error_code: Some(ErrorCode::Cancelled),
                    result_summary: empty_summary(),
                },
            },
        )
    }

    /// The end record of a call that came to `result` after `duration_ms`. It
    /// disarms the guard first.
    pub fn finish(&mut self, duration_ms: u64, result: Result<&Json, &RimapError>) -> (r: ToolEnd)
        ensures
            !final(self).is_armed(),
            final(self).seq() == old(self).seq(),
            final(self).called() == old(self).called(),
            final(self).logged_under() == old(self).logged_under(),
            r.start_seq == old(self).seq(),
            r.tool == old(self).called(),
            crate::text::text_view(r.account) == old(self).logged_under(),
            r.duration_ms == duration_ms,
            match result {
                Ok(value) => r.outcome.status is Succeeded && r.outcome.error_code is None
                    && r.outcome.result_summary@ == result_provenance::provenance(
                    old(self).called(),
                    value@,
                ),
                Err(e) => r.outcome.status is Error && r.outcome.error_code == Some(
                    error::error_code(*e),
                ) && r.outcome.result_summary@ == result_provenance::nothing(),
            },
    {
        self.disarm();
        let account = copy_text(&self.account);
        ToolEnd {
            start_seq: self.start_seq,
            tool: self.tool,
            account,
            duration_ms,
            outcome: tool_outcome(self.tool, result),
        }
    }
}

/// Opens the envelope of a call once its start record is written: the guard over
/// it, and the ticket to run it. A call whose start cannot be recorded is not run.
pub fn open_envelope(
    written: StartWrite,
    tool: ToolName,
    account: Option<String>,
) -> (r: Result<(AuditEnvelopeGuard, DispatchTicket), ErrorData>)
    ensures
        match written {
            StartWrite::Written(seq) => r matches Ok((guard, _)) && guard.is_armed() && guard.seq()
                == seq && guard.called() == tool && guard.logged_under() == crate::text::text_view(
                account,
            ),
            StartWrite::Refused(reason) => r matches Err(e) && e@ == start_refused(reason@),
            StartWrite::Panicked(shown) => r matches Err(e) && e@ == start_panicked(shown@),
        },
{
    match written {
        StartWrite::Written(seq) => Ok(
            (AuditEnvelopeGuard::new(seq, tool, account), DispatchTicket::new()),
        ),
        StartWrite::Refused(reason) => {
            let mut message = "audit write failed: ".to_owned();
            message.append(reason.as_str());
            Err(ErrorData { code: INTERNAL_ERROR, message, data: None })
        },
        StartWrite::Panicked(shown) => Err(
            to_mcp_error(&spawn_blocking_panic_error(), shown.as_str()),
        ),
    }
}

/// A span of time in milliseconds, as far as 64 bits go.
pub fn duration_ms(millis: u128) -> (r: u64)
    ensures
        r == if millis <= u64::MAX {
            millis as u64
        } else {
            u64::MAX
        },
{
    if millis <= 0xffff_ffff_ffff_ffff {
        millis as u64
    } else {
        u64::MAX
    }
}

/// A call whose start cannot be recorded is answered as a fault of the server, with the
/// reason: that of the log behind words of its own, that of a panic as it is shown.
pub proof fn law_unrecorded_start_is_told(reason: Seq<char>)
    ensures
        start_refused(reason).code == -32603,
        start_refused(reason).message == "audit write failed: "@ + reason,
        start_refused(reason).data is None,
        start_panicked(reason).code == -32603,
        start_panicked(reason).message == reason,
        start_panicked(reason).data is None,
{
}

} // verus!
