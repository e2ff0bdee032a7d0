//! The decision on one line from the client, and the error line that answers a
//! refused one.
use vstd::prelude::*;
use vstd::string::*;

use super::duplicates;
use super::duplicates::has_duplicate_keys_in_rmcp_strict_positions;
use crate::json;
use crate::json::{get, parse_json, render_json, set_member, Json, JsonV};
use crate::text;
use crate::text::{is_blank, same_text};

verus! {

/// A message id that can be answered: a string, or an integer of 64 bits.
#[derive(Debug, Clone, PartialEq, Eq)]
pub enum RequestId {
    Number(i64),
    Text(String),
}

/// A JSON-RPC error response.
#[derive(Debug, Clone, PartialEq, Eq)]
pub struct ErrorEnvelope {
    pub code: i32,
    pub message: String,
    /// The id of the refused message; `None` where it had none to echo.
    pub id: Option<RequestId>,
}

/// What becomes of a line.
#[derive(Debug, Clone, PartialEq, Eq)]
pub enum ValidationOutcome {
    /// It goes on byte for byte.
    Forward,
    /// It is blank and dropped.
    Skip,
    /// It is answered with an error.
    Reject(ErrorEnvelope),
}

/// An id as a JSON value; `Null` where there is none.
pub open spec fn id_model(id: Option<RequestId>) -> JsonV {
    match id {
        None => JsonV::Null,
        Some(RequestId::Number(n)) => JsonV::Int(n as int),
        Some(RequestId::Text(t)) => JsonV::Str(t@),
    }
}

/// An error response as a JSON value. A null id is left out.
pub open spec fn error_model(code: int, message: Seq<char>, id: JsonV) -> JsonV {
    let error = JsonV::Object(
        map!["code"@ => JsonV::Int(code), "message"@ => JsonV::Str(message)],
    );
    let base = map!["jsonrpc"@ => JsonV::Str("2.0"@), "error"@ => error];
    JsonV::Object(
        if id is Null {
            base
        } else {
            base.insert("id"@, id)
        },
    )
}

/// The error response that an envelope stands for.
pub open spec fn envelope_model(env: ErrorEnvelope) -> JsonV {
    error_model(env.code as int, env.message@, id_model(env.id))
}

/// The line that an error response is written as.
pub open spec fn error_line(code: int, message: Seq<char>, id: JsonV) -> Seq<char> {
    json::json_text(error_model(code, message, id)).push('\n')
}

/// An id that the protocol stack reads: a string, or an integer of 64 bits.
pub open spec fn forwardable_id(v: JsonV) -> bool {
    match v {
        JsonV::Str(_) => true,
        JsonV::Int(n) => i64::MIN <= n <= i64::MAX,
        _ => false,
    }
}

/// The id to echo in an answer; `Null` where there is none that may be echoed.
pub open spec fn echoed_id(v: JsonV) -> JsonV {
    match json::field(v, "id"@) {
        Some(id) => if forwardable_id(id) {
            id
        } else {
            JsonV::Null
        },
        None => JsonV::Null,
    }
}

/// The parameters that the protocol stack reads: an object, or null for none.
pub open spec fn valid_params(v: JsonV) -> bool {
    v is Object || v is Null
}

/// An error body: an object with an integer code of 32 bits and a message.
pub open spec fn well_formed_error(v: JsonV) -> bool {
    &&& json::field(v, "code"@) matches Some(JsonV::Int(n)) && i32::MIN <= n <= i32::MAX
    &&& json::field(v, "message"@) matches Some(JsonV::Str(_))
}

/// A method call: a request where it has an id, a notification where not.
pub open spec fn is_call(v: JsonV) -> bool {
    &&& json::field(v, "method"@) matches Some(JsonV::Str(_))
    &&& json::field(v, "result"@) is None
    &&& json::field(v, "error"@) is None
    &&& json::field(v, "params"@) matches Some(p) ==> valid_params(p)
}

/// A reply to a request of the server: a result, or a well-formed error.
pub open spec fn is_reply(v: JsonV) -> bool {
    &&& json::field(v, "id"@) is Some
    &&& json::field(v, "method"@) is None
    &&& match (json::field(v, "result"@), json::field(v, "error"@)) {
        (Some(_), None) => true,
        (None, Some(e)) => well_formed_error(e),
        _ => false,
    }
}

/// A message that goes on to the protocol stack.
pub open spec fn is_message(v: JsonV) -> bool {
    &&& json::field(v, "jsonrpc"@) == Some(JsonV::Str("2.0"@))
    &&& json::field(v, "id"@) matches Some(id) ==> forwardable_id(id)
    &&& is_call(v) || is_reply(v)
}

/// The decision on a line, with the answer's code, text and id.
#[verifier::ext_equal]
pub enum OutcomeV {
    Forward,
    Skip,
    Reject { code: int, message: Seq<char>, id: JsonV },
}

/// The refusal of a line that is no JSON.
pub open spec fn parse_error_v() -> OutcomeV {
    OutcomeV::Reject { code: -32700, message: "Parse error"@, id: JsonV::Null }
}

/// The refusal of a line that is JSON but no message, or that repeats a field.
pub open spec fn invalid_request_v(id: JsonV) -> OutcomeV {
    OutcomeV::Reject { code: -32600, message: "Invalid Request"@, id }
}

/// The decision on a parsed line.
pub open spec fn verdict(v: JsonV) -> OutcomeV {
    if is_message(v) {
        OutcomeV::Forward
    } else {
        invalid_request_v(echoed_id(v))
    }
}

/// The decision on a line. A line that is no JSON is refused as such, whatever
/// it repeats.
pub open spec fn line_verdict(line: Seq<char>) -> OutcomeV {
    if text::blank(line) {
        OutcomeV::Skip
    } else {
        match json::json_read(line) {
            None => parse_error_v(),
            Some(v) => if duplicates::repeats_a_field(line) {
                invalid_request_v(JsonV::Null)
            } else {
                verdict(v)
            },
        }
    }
}

/// An outcome by value.
pub open spec fn outcome_view(outcome: ValidationOutcome) -> OutcomeV {
    match outcome {
        ValidationOutcome::Forward => OutcomeV::Forward,
        ValidationOutcome::Skip => OutcomeV::Skip,
        ValidationOutcome::Reject(env) => OutcomeV::Reject {
            code: env.code as int,
            message: env.message@,
            id: id_model(env.id),
        },
    }
}

/// The id that `v` stands for, where the protocol stack reads it as one.
pub fn as_request_id(v: &Json) -> (r: Option<RequestId>)
    ensures
        r is Some == forwardable_id(v@),
        r is Some ==> id_model(r) == v@,
{
    match v {
        Json::Str(t) => Some(RequestId::Text(t.clone())),
        Json::Int(n) => Some(RequestId::Number(*n)),
        Json::UInt(n) => if *n <= 0x7fff_ffff_ffff_ffff {
            Some(RequestId::Number(*n as i64))
        } else {
            None
        },
        _ => None,
    }
}

/// Whether `v` is an id that the protocol stack reads.
pub fn is_forwardable_id(v: &Json) -> (r: bool)
    ensures
        r == forwardable_id(v@),
{
    as_request_id(v).is_some()
}

/// Whether `v` can stand under `params`.
pub fn is_valid_params(v: &Json) -> (r: bool)
    ensures
        r == valid_params(v@),
{
    match v {
        Json::Object(_) | Json::Null => true,
        _ => false,
    }
}

/// Whether `v` can stand under `error`.
pub fn is_well_formed_error(v: &Json) -> (r: bool)
    ensures
        r == well_formed_error(v@),
{
    let code_ok = match get(v, "code") {
        Some(Json::Int(n)) => -0x8000_0000 <= *n && *n <= 0x7fff_ffff,
        Some(Json::UInt(n)) => *n <= 0x7fff_ffff,
        _ => false,
    };
    let message_ok = match get(v, "message") {
        Some(Json::Str(_)) => true,
        _ => false,
    };
    code_ok && message_ok
}

/// The id to echo in an answer to `v`.
pub fn extract_id(v: &Json) -> (r: Option<RequestId>)
    ensures
        id_model(r) == echoed_id(v@),
{
    match get(v, "id") {
        Some(id) => as_request_id(id),
        None => None,
    }
}

/// The answer to a line that is no JSON.
pub fn parse_error() -> (r: ErrorEnvelope)
    ensures
        outcome_view(ValidationOutcome::Reject(r)) == parse_error_v(),
{
    ErrorEnvelope { code: -32700, message: "Parse error".to_owned(), id: None }
}

/// The answer to a line that is JSON but no message.
pub fn invalid_request(id: Option<RequestId>) -> (r: ErrorEnvelope)
    ensures
        outcome_view(ValidationOutcome::Reject(r)) == invalid_request_v(id_model(id)),
{
    ErrorEnvelope { code: -32600, message: "Invalid Request".to_owned(), id }
}

fn is_text(v: Option<&Json>, expected: &str) -> (r: bool)
    ensures
        r == (v matches Some(j) && j@ == JsonV::Str(expected@)),
{
    match v {
        Some(Json::Str(t)) => same_text(t.as_str(), expected),
        _ => false,
    }
}

fn check_message(v: &Json) -> (r: bool)
    ensures
        r == is_message(v@),
{
    if !is_text(get(v, "jsonrpc"), "2.0") {
        return false;
    }
    let has_id = match get(v, "id") {
        None => false,
        Some(id) => {
            if !is_forwardable_id(id) {
                return false;
            }
            true
        },
    };
    let params_ok = match get(v, "params") {
        None => true,
        Some(p) => is_valid_params(p),
    };
    match (get(v, "method"), get(v, "result"), get(v, "error")) {
        (Some(Json::Str(_)), None, None) => params_ok,
        (None, Some(_), None) => has_id,
        (None, None, Some(e)) => has_id && is_well_formed_error(e),
        _ => false,
    }
}

/// Decides on a parsed line.
pub fn validate_value(v: &Json) -> (r: ValidationOutcome)
    ensures
        outcome_view(r) == verdict(v@),
{
    if check_message(v) {
        ValidationOutcome::Forward
    } else {
        ValidationOutcome::Reject(invalid_request(extract_id(v)))
    }
}

/// Decides on a line.
pub fn validate(line: &str) -> (r: ValidationOutcome)
    ensures
        outcome_view(r) == line_verdict(line@),
{
    if is_blank(line) {
        return ValidationOutcome::Skip;
    }
    if has_duplicate_keys_in_rmcp_strict_positions(line) {
        return ValidationOutcome::Reject(invalid_request(None));
    }
    match parse_json(line) {
        None => ValidationOutcome::Reject(parse_error()),
        Some(v) => validate_value(&v),
    }
}

/// A text of one line: it ends in a line feed, and holds no other and no carriage
/// return.
pub open spec fn one_line(s: Seq<char>) -> bool {
    &&& s.len() > 0
    &&& s.last() == '\n'
    &&& !s.drop_last().contains('\n')
    &&& !s.drop_last().contains('\r')
}

fn id_json(id: &RequestId) -> (r: Json)
    ensures
        r@ == id_model(Some(*id)),
        json::scalar(r@),
{
    match id {
        RequestId::Number(n) => Json::Int(*n),
        RequestId::Text(t) => Json::Str(t.clone()),
    }
}

fn envelope_json(env: &ErrorEnvelope) -> (r: Json)
    ensures
        r@ == envelope_model(*env),
        json::shallow(r@),
{
    let mut error: Vec<(String, Json)> = Vec::new();
    set_member(&mut error, "code", Json::Int(env.code as i64));
    set_member(&mut error, "message", Json::Str(env.message.clone()));
    let mut members: Vec<(String, Json)> = Vec::new();
    set_member(&mut members, "jsonrpc", Json::Str("2.0".to_owned()));
    set_member(&mut members, "error", Json::Object(error));
    if let Some(id) = &env.id {
        set_member(&mut members, "id", id_json(id));
    }
    let r = Json::Object(members);
    assert(json::shallow(r@)) by {
        let model = r@->Object_0;
        assert forall|k: Seq<char>| #[trigger] model.contains_key(k) implies json::flat(
            model[k],
        ) by {}
    }
    r
}

/// Writes an error response as one line. An absent id is left out, since the
/// protocol knows no null id.
pub fn synthesize_error_line(env: &ErrorEnvelope) -> (line: String)
    ensures
        line@ == error_line(env.code as int, env.message@, id_model(env.id)),
        one_line(line@),
        json::json_read(line@.drop_last()) == Some(envelope_model(*env)),
{
    let body = envelope_json(env);
    let mut line = render_json(&body);
    let ghost text = line@;
    line.push('\n');
    assert(line@.drop_last() =~= text);
    line
}

/// An error response that the protocol stack reads: version, error with a code of
/// 32 bits and a message, and an id that is a string or an integer of 64 bits where
/// it is there at all. It is narrower than the protocol's schema, which bounds
/// neither number.
pub open spec fn readable_error_response(v: JsonV) -> bool {
    &&& json::field(v, "jsonrpc"@) == Some(JsonV::Str("2.0"@))
    &&& json::field(v, "error"@) matches Some(e) && well_formed_error(e)
    &&& json::field(v, "id"@) matches Some(id) ==> forwardable_id(id)
}

/// Every error envelope is an error response that the protocol stack reads.
pub proof fn law_envelope_is_error_response(env: ErrorEnvelope)
    ensures
        readable_error_response(envelope_model(env)),
        env.id is None ==> json::field(envelope_model(env), "id"@) is None,
        env.id is Some ==> json::field(envelope_model(env), "id"@) == Some(id_model(env.id)),
{
    reveal_strlit("jsonrpc");
    reveal_strlit("error");
    reveal_strlit("id");
    reveal_strlit("code");
    reveal_strlit("message");
    assert("jsonrpc"@.len() == 7 && "error"@.len() == 5 && "id"@.len() == 2);
    assert("code"@.len() == 4 && "message"@.len() == 7);
}

/// A forwarded line is no blank, repeats no field, and is a message.
pub proof fn law_forwarded_line_is_message(line: Seq<char>)
    requires
        line_verdict(line) is Forward,
    ensures
        !text::blank(line),
        !duplicates::repeats_a_field(line),
        json::json_read(line) matches Some(v) && is_message(v),
{
}

/// A refused line is answered with the id that it carries where the answer may
/// carry it, and with none otherwise.
pub proof fn law_answer_echoes_id(line: Seq<char>)
    requires
        line_verdict(line) is Reject,
        line_verdict(line)->id != JsonV::Null,
    ensures
        json::json_read(line) matches Some(v) && json::field(v, "id"@) == Some(
            line_verdict(line)->id,
        ) && forwardable_id(line_verdict(line)->id),
{
}

/// A line that is neither blank nor JSON is answered as a parse error.
pub proof fn law_unparsable_line_is_a_parse_error(line: Seq<char>)
    requires
        !text::blank(line),
        json::json_read(line) is None,
    ensures
        line_verdict(line) == parse_error_v(),
{
}

/// Every line that is not blank is either forwarded or answered, and the answer
/// is one of the two errors of the envelope grammar.
pub proof fn law_no_line_is_lost(line: Seq<char>)
    requires
        !text::blank(line),
    ensures
        line_verdict(line) is Forward || (line_verdict(line) is Reject && (line_verdict(line)->code
            == -32700 || line_verdict(line)->code == -32600)),
{
}

/// A line that is read as a JSON value: not blank, and no field repeated.
pub open spec fn reads_as(line: Seq<char>, v: JsonV) -> bool {
    !text::blank(line) && json::json_read(line) == Some(v) && !duplicates::repeats_a_field(line)
}

/// A call whose parameters are an array, a string, a number or a truth value is
/// refused as no valid request. The answer carries the call's id where that is a
/// string or an integer of 64 bits, and none otherwise.
pub proof fn law_call_takes_named_parameters(line: Seq<char>, v: JsonV, params: JsonV)
    requires
        reads_as(line, v),
        json::field(v, "method"@) is Some,
        json::field(v, "params"@) == Some(params),
        params is Array || params is Str || params is Int || params is Float || params is Bool,
    ensures
        line_verdict(line) matches OutcomeV::Reject { code, message, id } && code == -32600
            && message == "Invalid Request"@ && id == match json::field(v, "id"@) {
            Some(JsonV::Str(t)) => JsonV::Str(t),
            Some(JsonV::Int(n)) => if -0x8000_0000_0000_0000 <= n <= 0x7fff_ffff_ffff_ffff {
                JsonV::Int(n)
            } else {
                JsonV::Null
            },
            _ => JsonV::Null,
        },
{
}

/// A call that names a method goes on, whether its parameters are an object, null
/// or left out, and whether it has an id that is a string or an integer of 64 bits
/// or none.
pub proof fn law_well_formed_call_goes_on(line: Seq<char>, v: JsonV)
    requires
        reads_as(line, v),
        json::field(v, "jsonrpc"@) == Some(JsonV::Str("2.0"@)),
        json::field(v, "method"@) matches Some(JsonV::Str(_)),
        json::field(v, "params"@) matches Some(p) ==> p is Object || p is Null,
        json::field(v, "id"@) matches Some(id) ==> id is Str || (id matches JsonV::Int(n)
            && -0x8000_0000_0000_0000 <= n <= 0x7fff_ffff_ffff_ffff),
        json::field(v, "result"@) is None,
        json::field(v, "error"@) is None,
    ensures
        line_verdict(line) is Forward,
{
}

/// A reply goes on where it has an id and either a result, whatever it is, or an
/// error with an integer code of 32 bits and a message.
pub proof fn law_well_formed_reply_goes_on(line: Seq<char>, v: JsonV)
    requires
        reads_as(line, v),
        json::field(v, "jsonrpc"@) == Some(JsonV::Str("2.0"@)),
        json::field(v, "method"@) is None,
        json::field(v, "id"@) matches Some(id) && (id is Str || (id matches JsonV::Int(n)
            && -0x8000_0000_0000_0000 <= n <= 0x7fff_ffff_ffff_ffff)),
    ensures
        json::field(v, "result"@) is Some && json::field(v, "error"@) is None ==> line_verdict(
            line,
        ) is Forward,
        json::field(v, "result"@) is None && (json::field(v, "error"@) matches Some(e)
            && json::field(e, "message"@) matches Some(JsonV::Str(_)) && json::field(e, "code"@)
            matches Some(JsonV::Int(n)) && -0x8000_0000 <= n <= 0x7fff_ffff) ==> line_verdict(
            line,
        ) is Forward,
{
}

/// What is no message is refused, and never dropped or let through: another
/// version or none, an id that is null, a truth value, a fraction, a list, an object
/// or beyond 64 bits, a method that is no string, a call that is a reply too, a
/// reply without an id, with both or neither of result and error, or with an error
/// that lacks a message or an integer code of 32 bits.
pub proof fn law_what_is_no_message_is_refused(line: Seq<char>, v: JsonV)
    requires
        reads_as(line, v),
    ensures
        json::field(v, "jsonrpc"@) != Some(JsonV::Str("2.0"@)) ==> line_verdict(line) is Reject,
        (json::field(v, "id"@) matches Some(id) && (id is Null || id is Bool || id is Float
            || id is Array || id is Object)) ==> line_verdict(line) is Reject,
        (json::field(v, "id"@) matches Some(JsonV::Int(n)) && (n < -0x8000_0000_0000_0000 || n
            > 0x7fff_ffff_ffff_ffff)) ==> line_verdict(line) is Reject,
        (json::field(v, "method"@) matches Some(m) && m !is Str) ==> line_verdict(line) is Reject,
        json::field(v, "method"@) is Some && json::field(v, "result"@) is Some ==> line_verdict(
            line,
        ) is Reject,
        json::field(v, "method"@) is Some && json::field(v, "error"@) is Some ==> line_verdict(
            line,
        ) is Reject,
        json::field(v, "method"@) is None && json::field(v, "id"@) is None ==> line_verdict(line)
            is Reject,
        json::field(v, "result"@) is Some && json::field(v, "error"@) is Some ==> line_verdict(
            line,
        ) is Reject,
        json::field(v, "method"@) is None && json::field(v, "result"@) is None && json::field(
            v,
            "error"@,
        ) is None ==> line_verdict(line) is Reject,
        (json::field(v, "error"@) matches Some(e) && !(json::field(e, "message"@) matches Some(
            JsonV::Str(_),
        ))) ==> line_verdict(line) is Reject,
        (json::field(v, "error"@) matches Some(e) && !(json::field(e, "code"@) matches Some(
            JsonV::Int(_),
        ))) ==> line_verdict(line) is Reject,
        (json::field(v, "error"@) matches Some(e) && json::field(e, "code"@) matches Some(
            JsonV::Int(n),
        ) && (n < -0x8000_0000 || n > 0x7fff_ffff)) ==> line_verdict(line) is Reject,
{
}

/// A refused line that is read as a JSON value is answered as no valid request, with
/// its id where that is a string or an integer of 64 bits, and without one
/// otherwise. One that is no JSON, or that repeats a field, is answered without an
/// id.
pub proof fn law_refusal_names_code_and_id(line: Seq<char>)
    requires
        line_verdict(line) matches OutcomeV::Reject { .. },
    ensures
        line_verdict(line) matches OutcomeV::Reject { code, message, id } && match json::json_read(
            line,
        ) {
            None => code == -32700 && message == "Parse error"@ && id is Null,
            Some(v) => code == -32600 && message == "Invalid Request"@ && (
            duplicates::repeats_a_field(line) ==> id is Null) && (!duplicates::repeats_a_field(line)
                ==> id == match json::field(v, "id"@) {
                Some(JsonV::Str(t)) => JsonV::Str(t),
                Some(JsonV::Int(n)) => if -0x8000_0000_0000_0000 <= n <= 0x7fff_ffff_ffff_ffff {
                    JsonV::Int(n)
                } else {
                    JsonV::Null
                },
                _ => JsonV::Null,
            }),
        },
{
}

/// A line whose JSON repeats a field is never let through.
pub proof fn law_repeated_field_is_refused(line: Seq<char>)
    requires
        !text::blank(line),
        duplicates::repeats_a_field(line),
    ensures
        line_verdict(line) is Reject,
{
}

/// An error response read field by field: the version, the code and the message
/// that it was made with, and the id, which is left out where it is null.
pub proof fn law_error_response_by_field(code: int, message: Seq<char>, id: JsonV)
    ensures
        json::field(error_model(code, message, id), "jsonrpc"@) == Some(JsonV::Str("2.0"@)),
        json::field(error_model(code, message, id), "error"@) matches Some(e) && json::field(
            e,
            "code"@,
        ) == Some(JsonV::Int(code)) && json::field(e, "message"@) == Some(JsonV::Str(message)),
        json::field(error_model(code, message, id), "id"@) == if id is Null {
            None::<JsonV>
        } else {
            Some(id)
        },
{
    reveal_strlit("jsonrpc");
    reveal_strlit("error");
    reveal_strlit("id");
    reveal_strlit("code");
    reveal_strlit("message");
    assert("jsonrpc"@.len() == 7 && "error"@.len() == 5 && "id"@.len() == 2);
    assert("code"@.len() == 4 && "message"@.len() == 7);
}

/// A decision is told as it is held: the code, the message and the id of a refusal, where
/// a number is told as a number, a text as a text, and no id as null.
pub proof fn law_outcome_is_told_as_it_is_held(env: ErrorEnvelope, n: i64, t: String)
    ensures
        outcome_view(ValidationOutcome::Forward) is Forward,
        outcome_view(ValidationOutcome::Skip) is Skip,
        outcome_view(ValidationOutcome::Reject(env)) matches OutcomeV::Reject { code, message, id }
            && code == env.code && message == env.message@ && id == id_model(env.id),
        id_model(None) is Null,
        id_model(Some(RequestId::Number(n))) == JsonV::Int(n as int),
        id_model(Some(RequestId::Text(t))) == JsonV::Str(t@),
{
}

/// A blank line is dropped, and no other is.
pub proof fn law_only_blank_lines_are_dropped(line: Seq<char>)
    ensures
        line_verdict(line) is Skip <==> forall|i: int|
            0 <= i < line.len() ==> text::white_spaces().contains(#[trigger] line[i]),
{
    assert forall|i: int| 0 <= i < line.len() implies text::white_space(#[trigger] line[i])
        == text::white_spaces().contains(line[i]) by {
        text::law_white_space_is_listed(line[i]);
    }
}

} // verus!
