//! One line on its way from the client to the protocol stack.
use vstd::prelude::*;
use vstd::slice::slice_subrange;
use vstd::string::*;

use super::envelope;
use super::envelope::{
    as_request_id, parse_error, synthesize_error_line, validate, ErrorEnvelope, OutcomeV,
    RequestId, ValidationOutcome,
};
use super::message;
use super::message::{read_client_message, ClientMessage, ClientMessageV};
use crate::json;
use crate::json::{get, parse_json, Json, JsonV};
use crate::mcp::error::NOT_INITIALIZED;
use crate::text::same_text;

verus! {

/// What the bridge does with a line that it read.
#[derive(Debug, Clone, PartialEq, Eq)]
pub enum InboundAction {
    /// Hand the bytes on unchanged.
    Forward,
    /// Do nothing.
    Drop,
    /// Write this line to the client and go on.
    Answer(String),
    /// A request other than `initialize` and `ping` came before the session was
    /// opened: answer it with [`pre_init_answer`], raise the interception flag,
    /// close the way to the protocol stack and stop.
    Intercept(RequestId),
}

/// What an [`InboundAction`] stands for.
#[verifier::ext_equal]
pub enum ActionV {
    Forward,
    Drop,
    Answer(Seq<char>),
    Intercept(JsonV),
}

/// An action by value.
pub open spec fn action_view(a: InboundAction) -> ActionV {
    match a {
        InboundAction::Forward => ActionV::Forward,
        InboundAction::Drop => ActionV::Drop,
        InboundAction::Answer(line) => ActionV::Answer(line@),
        InboundAction::Intercept(id) => ActionV::Intercept(envelope::id_model(Some(id))),
    }
}

/// `s` without a last item `b`.
pub open spec fn without_last(s: Seq<u8>, b: u8) -> Seq<u8> {
    if s.len() > 0 && s.last() == b {
        s.drop_last()
    } else {
        s
    }
}

/// The bytes of a line without its line break: a line feed, and then a carriage
/// return.
pub open spec fn line_content(bytes: Seq<u8>) -> Seq<u8> {
    without_last(without_last(bytes, 0x0a), 0x0d)
}

/// The action that a decision on a line calls for.
pub open spec fn action_for(v: OutcomeV) -> ActionV {
    match v {
        OutcomeV::Forward => ActionV::Forward,
        OutcomeV::Skip => ActionV::Drop,
        OutcomeV::Reject { code, message, id } => ActionV::Answer(
            envelope::error_line(code, message, id),
        ),
    }
}

/// The id of a message that is a request for another method than `initialize` and
/// `ping`: `None` where it is none.
pub open spec fn session_request(v: JsonV) -> Option<JsonV> {
    match (json::field(v, "id"@), json::field(v, "method"@)) {
        (Some(id), Some(JsonV::Str(method))) => if method == "initialize"@ || method == "ping"@ {
            None
        } else {
            Some(id)
        },
        _ => None,
    }
}

/// The id of a line that is a message by the rules and a request for another
/// method than `initialize` and `ping`, whether or not the protocol stack reads
/// it.
pub open spec fn early_request(line: Seq<char>) -> Option<JsonV> {
    match (envelope::line_verdict(line), json::json_read(line)) {
        (OutcomeV::Forward, Some(v)) => session_request(v),
        _ => None,
    }
}

/// The id of a line that must not come before the session is opened: of a request
/// for another method than `initialize` and `ping`, by the rules or as the
/// protocol stack reads it.
pub open spec fn too_early(line: Seq<char>) -> Option<JsonV> {
    match (early_request(line), message::rmcp_reading(line)) {
        (Some(id), _) => Some(id),
        (None, Ok(ClientMessageV::Request(id))) => Some(id),
        _ => None,
    }
}

/// What becomes of a line that is no UTF-8, or of its text.
pub open spec fn inbound_action(initialized: bool, bytes: Seq<u8>) -> ActionV {
    let content = line_content(bytes);
    if !vstd::utf8::valid_utf8(content) {
        action_for(envelope::parse_error_v())
    } else {
        let line = vstd::utf8::decode_utf8(content);
        match too_early(line) {
            Some(id) => if initialized {
                action_for(envelope::line_verdict(line))
            } else {
                ActionV::Intercept(id)
            },
            None => action_for(envelope::line_verdict(line)),
        }
    }
}

/// Whether the session counts as opened once a line has passed.
pub open spec fn opened_by(initialized: bool, bytes: Seq<u8>) -> bool {
    let content = line_content(bytes);
    let line = vstd::utf8::decode_utf8(content);
    initialized || (vstd::utf8::valid_utf8(content) && too_early(line) is None
        && message::rmcp_reading(line) == Ok::<ClientMessageV, Seq<char>>(
        ClientMessageV::Initialize,
    ))
}

/// What a request that came before the session is told.
pub const NOT_INITIALIZED_MESSAGE: &'static str = "Server not initialized";

/// The line that answers a request that came before the session.
pub open spec fn pre_init_line(id: JsonV) -> Seq<char> {
    envelope::error_line(NOT_INITIALIZED as int, NOT_INITIALIZED_MESSAGE@, id)
}

/// The line that answers a request that came before the session, under the
/// request's own id.
pub fn pre_init_answer(id: RequestId) -> (line: String)
    ensures
        line@ == pre_init_line(envelope::id_model(Some(id))),
        envelope::one_line(line@),
{
    let env = ErrorEnvelope {
        code: NOT_INITIALIZED,
        message: NOT_INITIALIZED_MESSAGE.to_owned(),
        id: Some(id),
    };
    synthesize_error_line(&env)
}

/// What the bridge comes to once it has tried to answer a request that came
/// before the session.
pub struct Interception {
    /// Whether the interception flag is raised before the way to the protocol
    /// stack is closed.
    pub raised: bool,
    pub result: Result<(), String>,
}

/// The end of the bridge after an interception: a clean one where the answer was
/// written. An answer that could not be written, with this error, is a failure of
/// the bridge, and no interception.
pub fn after_interception(write: Result<(), String>) -> (r: Interception)
    ensures
        r.raised == (write is Ok),
        match write {
            Ok(()) => r.result is Ok,
            Err(e) => r.result matches Err(text) && text@
                == "writing pre-init error envelope to stdout: "@ + e@,
        },
{
    match write {
        Ok(()) => Interception { raised: true, result: Ok(()) },
        Err(e) => {
            let mut text = "writing pre-init error envelope to stdout: ".to_owned();
            text.append(e.as_str());
            Interception { raised: false, result: Err(text) }
        },
    }
}

/// Calls `std::str::from_utf8`: the text, if and only if the bytes are UTF-8.
#[verifier::external_body]
fn utf8_text(bytes: &[u8]) -> (r: Option<&str>)
    ensures
        match r {
            Some(text) => vstd::utf8::valid_utf8(bytes@) && text@ == vstd::utf8::decode_utf8(
                bytes@,
            ),
            None => !vstd::utf8::valid_utf8(bytes@),
        },
{
    std::str::from_utf8(bytes).ok()
}

fn strip_last(bytes: &[u8], b: u8) -> (r: &[u8])
    ensures
        r@ == without_last(bytes@, b),
{
    let n: usize = bytes.len();
    if n > 0 && bytes[n - 1] == b {
        slice_subrange(bytes, 0, n - 1)
    } else {
        bytes
    }
}

/// Turns the decision on a line into what the bridge does.
pub fn act_on(outcome: &ValidationOutcome) -> (r: InboundAction)
    ensures
        action_view(r) == action_for(envelope::outcome_view(*outcome)),
{
    match outcome {
        ValidationOutcome::Forward => InboundAction::Forward,
        ValidationOutcome::Skip => InboundAction::Drop,
        ValidationOutcome::Reject(env) => InboundAction::Answer(synthesize_error_line(env)),
    }
}

/// The id of a line that is a message by the rules, and a request for another
/// method than `initialize` and `ping`.
fn early_request_id(line: &str, outcome: &ValidationOutcome) -> (r: Option<RequestId>)
    requires
        envelope::outcome_view(*outcome) == envelope::line_verdict(line@),
    ensures
        match r {
            Some(id) => early_request(line@) == Some(envelope::id_model(Some(id))),
            None => early_request(line@) is None,
        },
{
    match outcome {
        ValidationOutcome::Forward => {},
        _ => {
            return None;
        },
    }
    let v = match parse_json(line) {
        Some(v) => v,
        None => {
            return None;
        },
    };
    let id = match get(&v, "id") {
        Some(id) => id,
        None => {
            return None;
        },
    };
    match get(&v, "method") {
        Some(Json::Str(method)) => {
            if same_text(method.as_str(), "initialize") || same_text(method.as_str(), "ping") {
                None
            } else {
                as_request_id(id)
            }
        },
        _ => None,
    }
}

/// What the bridge does with a line, and whether the session counts as opened from
/// then on. `early` is the id of a line that is a request for another method than
/// `initialize` and `ping`, `reading` how the protocol stack reads the line, and
/// `outcome` what its check gave.
pub fn act_on_reading(
    initialized: bool,
    early: Option<RequestId>,
    reading: Result<ClientMessage, String>,
    outcome: &ValidationOutcome,
) -> (r: (InboundAction, bool))
    ensures
        r.1 == (initialized || (early is None && (reading matches Ok(m) && m is Initialize))),
        if initialized {
            action_view(r.0) == action_for(envelope::outcome_view(*outcome))
        } else {
            match (early, reading) {
                (Some(id), _) => r.0 == InboundAction::Intercept(id),
                (None, Ok(ClientMessage::Request(id))) => r.0 == InboundAction::Intercept(id),
                _ => action_view(r.0) == action_for(envelope::outcome_view(*outcome)),
            }
        },
{
    if initialized {
        return (act_on(outcome), true);
    }
    match (early, reading) {
        (Some(id), _) => (InboundAction::Intercept(id), false),
        (None, Ok(ClientMessage::Request(id))) => (InboundAction::Intercept(id), false),
        (None, Ok(ClientMessage::Initialize)) => (act_on(outcome), true),
        _ => (act_on(outcome), false),
    }
}

/// Decides on the bytes of one line, line break included, and tells whether the
/// session counts as opened from then on.
pub fn inbound_step(initialized: bool, bytes: &[u8]) -> (r: (InboundAction, bool))
    ensures
        action_view(r.0) == inbound_action(initialized, bytes@),
        r.1 == opened_by(initialized, bytes@),
{
    let content = strip_last(strip_last(bytes, 0x0a), 0x0d);
    match utf8_text(content) {
        None => (InboundAction::Answer(synthesize_error_line(&parse_error())), initialized),
        Some(line) => {
            let outcome = validate(line);
            if initialized {
                return (act_on(&outcome), true);
            }
            let early = early_request_id(line, &outcome);
            act_on_reading(initialized, early, read_client_message(line), &outcome)
        },
    }
}

/// Once a session is opened no line closes it again.
pub proof fn law_opened_stays_opened(bytes: Seq<u8>)
    ensures
        opened_by(true, bytes),
{
}

/// Before a session is opened no request but `initialize` and `ping` reaches the
/// protocol stack, whether or not the stack could read it: it is intercepted with
/// its own id, and the session stays closed.
pub proof fn law_request_before_session_is_intercepted(bytes: Seq<u8>, v: JsonV)
    requires
        vstd::utf8::valid_utf8(line_content(bytes)),
        ({
            let line = vstd::utf8::decode_utf8(line_content(bytes));
            &&& envelope::line_verdict(line) is Forward
            &&& json::json_read(line) == Some(v)
        }),
        session_request(v) is Some,
    ensures
        inbound_action(false, bytes) == ActionV::Intercept(session_request(v)->0),
        json::field(v, "id"@) == session_request(v),
        !opened_by(false, bytes),
        inbound_action(true, bytes) == ActionV::Forward,
{
}

/// Before a session is opened nothing that is a request other than `initialize` and
/// `ping`, by the rules or as the protocol stack reads it, reaches the stack, and
/// the session stays closed.
pub proof fn law_call_before_session_is_intercepted(bytes: Seq<u8>)
    requires
        vstd::utf8::valid_utf8(line_content(bytes)),
        is_call(bytes),
    ensures
        inbound_action(false, bytes) is Intercept,
        !opened_by(false, bytes),
        inbound_action(true, bytes) == action_for(
            envelope::line_verdict(vstd::utf8::decode_utf8(line_content(bytes))),
        ),
{
}

/// Bytes that are no UTF-8 never reach the protocol stack: they are answered as a
/// parse error, opened session or not.
pub proof fn law_invalid_bytes_are_answered(initialized: bool, bytes: Seq<u8>)
    requires
        !vstd::utf8::valid_utf8(line_content(bytes)),
    ensures
        inbound_action(initialized, bytes) == ActionV::Answer(
            envelope::error_line(-32700, "Parse error"@, JsonV::Null),
        ),
{
}

/// What the bridge has done with the lines so far.
#[verifier::ext_equal]
pub struct BridgeV {
    /// The session counts as opened.
    pub open: bool,
    /// A request was intercepted, and the bridge has stopped.
    pub stopped: bool,
    /// What went on to the protocol stack.
    pub forwarded: Seq<Seq<u8>>,
    /// What was written to the client.
    pub written: Seq<Seq<char>>,
}

/// What the bridge does with the lines of a client, one after another.
pub open spec fn bridged(lines: Seq<Seq<u8>>) -> BridgeV
    decreases lines.len(),
{
    if lines.len() == 0 {
        BridgeV { open: false, stopped: false, forwarded: Seq::empty(), written: Seq::empty() }
    } else {
        let before = bridged(lines.drop_last());
        let line = lines.last();
        if before.stopped {
            before
        } else {
            let open = opened_by(before.open, line);
            match inbound_action(before.open, line) {
                ActionV::Forward => BridgeV { open, forwarded: before.forwarded.push(line), ..before },
                ActionV::Drop => BridgeV { open, ..before },
                ActionV::Answer(answer) => BridgeV {
                    open,
                    written: before.written.push(answer),
                    ..before
                },
                ActionV::Intercept(id) => BridgeV {
                    open,
                    stopped: true,
                    written: before.written.push(pre_init_line(id)),
                    ..before
                },
            }
        }
    }
}

/// A line that comes first and is a request for another method than `initialize`
/// and `ping` is all that the bridge handles: the client is answered with the one
/// not-initialized error, and nothing reaches the protocol stack.
pub proof fn law_early_request_ends_the_bridge(lines: Seq<Seq<u8>>)
    requires
        lines.len() > 0,
        vstd::utf8::valid_utf8(line_content(lines[0])),
        early_request(vstd::utf8::decode_utf8(line_content(lines[0]))) is Some,
    ensures
        ({
            let id = early_request(vstd::utf8::decode_utf8(line_content(lines[0])))->0;
            let after = bridged(lines);
            &&& after.stopped
            &&& !after.open
            &&& after.forwarded.len() == 0
            &&& after.written == seq![pre_init_line(id)]
        }),
{
    let first = lines.take(1);
    assert(first.drop_last() =~= Seq::empty());
    assert(bridged(Seq::empty()).written =~= Seq::empty());
    reveal_with_fuel(bridged, 2);
    law_interception_is_final(first, lines.skip(1));
    assert(first + lines.skip(1) =~= lines);
}

/// A line that is a request for another method than `initialize` and `ping`, by the
/// rules or as the protocol stack reads it.
pub open spec fn is_call(line: Seq<u8>) -> bool {
    too_early(vstd::utf8::decode_utf8(line_content(line))) is Some
}

/// A line that the protocol stack reads as `initialize`.
pub open spec fn is_opening(line: Seq<u8>) -> bool {
    message::rmcp_reading(vstd::utf8::decode_utf8(line_content(line))) matches Ok(
        ClientMessageV::Initialize,
    )
}

/// All that reaches the protocol stack is text, and a message by the rules.
pub proof fn law_only_messages_are_forwarded(lines: Seq<Seq<u8>>, i: int)
    requires
        0 <= i < bridged(lines).forwarded.len(),
    ensures
        vstd::utf8::valid_utf8(line_content(bridged(lines).forwarded[i])),
        envelope::line_verdict(
            vstd::utf8::decode_utf8(line_content(bridged(lines).forwarded[i])),
        ) is Forward,
    decreases lines.len(),
{
    if lines.len() > 0 {
        let before = bridged(lines.drop_last());
        if i < before.forwarded.len() {
            law_only_messages_are_forwarded(lines.drop_last(), i);
        }
    }
}

/// No request reaches the protocol stack before the client has sent `initialize`.
pub proof fn law_no_call_before_initialize(lines: Seq<Seq<u8>>, i: int)
    requires
        0 <= i < bridged(lines).forwarded.len(),
        is_call(bridged(lines).forwarded[i]),
    ensures
        exists|k: int| 0 <= k < lines.len() && is_opening(#[trigger] lines[k]),
    decreases lines.len(),
{
    if lines.len() > 0 {
        let rest = lines.drop_last();
        let before = bridged(rest);
        if i < before.forwarded.len() {
            law_no_call_before_initialize(rest, i);
            let k = choose|k: int| 0 <= k < rest.len() && is_opening(#[trigger] rest[k]);
            assert(lines[k] == rest[k]);
        } else {
            lemma_opened(rest);
            let k = choose|k: int| 0 <= k < rest.len() && is_opening(#[trigger] rest[k]);
            assert(lines[k] == rest[k]);
        }
    }
}

/// A session is open only after `initialize`.
proof fn lemma_opened(lines: Seq<Seq<u8>>)
    requires
        bridged(lines).open,
    ensures
        exists|k: int| 0 <= k < lines.len() && is_opening(#[trigger] lines[k]),
    decreases lines.len(),
{
    if lines.len() > 0 {
        let rest = lines.drop_last();
        if bridged(rest).open {
            lemma_opened(rest);
            let k = choose|k: int| 0 <= k < rest.len() && is_opening(#[trigger] rest[k]);
            assert(lines[k] == rest[k]);
        } else {
            assert(is_opening(lines[lines.len() - 1]));
        }
    }
}

/// After an interception nothing more is forwarded or written.
pub proof fn law_interception_is_final(lines: Seq<Seq<u8>>, more: Seq<Seq<u8>>)
    requires
        bridged(lines).stopped,
    ensures
        bridged(lines + more) == bridged(lines),
    decreases more.len(),
{
    if more.len() == 0 {
        assert(lines + more =~= lines);
    } else {
        assert((lines + more).drop_last() =~= lines + more.drop_last());
        law_interception_is_final(lines, more.drop_last());
    }
}

/// One line break comes off a line, with or without a carriage return, and nothing else
/// does: what stands before it stays as it is.
pub proof fn law_one_line_break_comes_off(content: Seq<u8>)
    requires
        content.len() > 0 ==> content.last() != 10 && content.last() != 13,
    ensures
        line_content(content) == content,
        line_content(content.push(10)) == content,
        line_content(content.push(13).push(10)) == content,
        line_content(content.push(10).push(10)) == content.push(10),
        line_content(content.push(13).push(13).push(10)) == content.push(13),
        line_content(content.push(10).push(13)) == content.push(10),
{
    assert(content.push(10).drop_last() =~= content);
    assert(content.push(13).drop_last() =~= content);
    assert(content.push(13).push(10).drop_last() =~= content.push(13));
    assert(content.push(10).push(10).drop_last() =~= content.push(10));
    assert(content.push(13).push(13).push(10).drop_last() =~= content.push(13).push(13));
    assert(content.push(13).push(13).drop_last() =~= content.push(13));
    assert(content.push(10).push(13).drop_last() =~= content.push(10));
}

/// In an open session a message goes on, a blank line is dropped, and every other line
/// is answered with the error that its check gave.
pub proof fn law_open_session_follows_the_check(bytes: Seq<u8>)
    requires
        vstd::utf8::valid_utf8(line_content(bytes)),
    ensures
        ({
            let line = vstd::utf8::decode_utf8(line_content(bytes));
            match envelope::line_verdict(line) {
                OutcomeV::Forward => inbound_action(true, bytes) is Forward,
                OutcomeV::Skip => inbound_action(true, bytes) is Drop,
                OutcomeV::Reject { code, message, id } => inbound_action(true, bytes)
                    == ActionV::Answer(
                    json::json_text(envelope::error_model(code, message, id)).push('\n'),
                ),
            }
        }),
{
}

/// A request is held back from a session that is not open by its method alone: any but
/// `initialize` and `ping`, under the request's own id. A notification, and a reply, is
/// never held back by the rules.
pub proof fn law_method_decides_what_is_held_back(v: JsonV, id: JsonV, method: Seq<char>)
    ensures
        json::field(v, "id"@) == Some(id) && json::field(v, "method"@) == Some(JsonV::Str(method))
            ==> session_request(v) == if method == "initialize"@ || method == "ping"@ {
            None::<JsonV>
        } else {
            Some(id)
        },
        json::field(v, "id"@) is None ==> session_request(v) is None,
        json::field(v, "method"@) is None ==> session_request(v) is None,
{
}

/// What opens a session, and a ping before it, goes on as it is. Only what opens it
/// leaves it open.
pub proof fn law_opening_goes_on(bytes: Seq<u8>)
    requires
        vstd::utf8::valid_utf8(line_content(bytes)),
        ({
            let line = vstd::utf8::decode_utf8(line_content(bytes));
            &&& envelope::line_verdict(line) is Forward
            &&& early_request(line) is None
            &&& message::rmcp_reading(line) matches Ok(m) && !(m is Request)
        }),
    ensures
        inbound_action(false, bytes) is Forward,
        opened_by(false, bytes) <==> (message::rmcp_reading(
            vstd::utf8::decode_utf8(line_content(bytes)),
        ) matches Ok(m) && m is Initialize),
{
}

/// A request that came too early is answered with the code for a session that is not
/// open, under its own id.
pub proof fn law_early_request_is_told_why(id: JsonV)
    requires
        !(id is Null),
    ensures
        pre_init_line(id) == json::json_text(
            envelope::error_model(-32002, "Server not initialized"@, id),
        ).push('\n'),
        json::field(envelope::error_model(-32002, "Server not initialized"@, id), "id"@) == Some(
            id,
        ),
{
    envelope::law_error_response_by_field(-32002, "Server not initialized"@, id);
}

/// What goes on goes on byte for byte, behind all that went on before, and leaves what
/// was written as it is. What is answered leaves what went on as it is.
pub proof fn law_lines_go_on_in_order(lines: Seq<Seq<u8>>, line: Seq<u8>)
    requires
        !bridged(lines).stopped,
    ensures
        inbound_action(bridged(lines).open, line) is Forward ==> bridged(lines.push(line)).forwarded
            == bridged(lines).forwarded.push(line) && bridged(lines.push(line)).written
            == bridged(lines).written,
        inbound_action(bridged(lines).open, line) matches ActionV::Answer(answer) ==> bridged(
            lines.push(line),
        ).forwarded == bridged(lines).forwarded && bridged(lines.push(line)).written == bridged(
            lines,
        ).written.push(answer),
        inbound_action(bridged(lines).open, line) is Drop ==> bridged(lines.push(line)).forwarded
            == bridged(lines).forwarded && bridged(lines.push(line)).written == bridged(
            lines,
        ).written,
        bridged(lines.push(line)).stopped <==> inbound_action(bridged(lines).open, line)
            is Intercept,
        bridged(lines).open ==> bridged(lines.push(line)).open,
{
    assert(lines.push(line).drop_last() =~= lines);
}

/// What the bridge does is told as it is held.
pub proof fn law_action_is_told_as_it_is_held(line: String, id: RequestId)
    ensures
        action_view(InboundAction::Forward) is Forward,
        action_view(InboundAction::Drop) is Drop,
        action_view(InboundAction::Answer(line)) == ActionV::Answer(line@),
        action_view(InboundAction::Intercept(id)) == ActionV::Intercept(
            envelope::id_model(Some(id)),
        ),
{
}

} // verus!
