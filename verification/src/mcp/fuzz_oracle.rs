//! Oracles that hold the line check against the protocol stack and against the
//! protocol's schema.
use vstd::prelude::*;
use vstd::string::*;

use crate::json;
use crate::json::{read_value, set_member, text_array, to_value, Json, JsonV};
use crate::mcp::wire_validator::envelope;
use crate::mcp::wire_validator::envelope::{
    synthesize_error_line, validate, ErrorEnvelope, OutcomeV, ValidationOutcome,
};
use crate::mcp::wire_validator::message;
use crate::mcp::wire_validator::message::read_client_message;
use crate::text;
use crate::text::{join, trim_trailing};

verus! {

/// The decision on a line; a refusal with the very line that answers it.
pub enum FuzzOutcome {
    Skip,
    Forward,
    Reject(String),
}

/// Decides on a line as [`validate`] does and writes the answer of a refused one.
pub fn fuzz_validate(line: &str) -> (r: FuzzOutcome)
    ensures
        match envelope::line_verdict(line@) {
            OutcomeV::Skip => r is Skip,
            OutcomeV::Forward => r is Forward,
            OutcomeV::Reject { code, message, id } => r matches FuzzOutcome::Reject(answer)
                && answer@ == envelope::error_line(code, message, id) && envelope::one_line(answer@)
                && json::json_read(answer@.drop_last()) == Some(
                envelope::error_model(code, message, id),
            ),
        },
{
    match validate(line) {
        ValidationOutcome::Skip => FuzzOutcome::Skip,
        ValidationOutcome::Forward => FuzzOutcome::Forward,
        ValidationOutcome::Reject(env) => FuzzOutcome::Reject(synthesize_error_line(&env)),
    }
}

/// `Ok` where `rmcp` reads the line as a message from a client, else the text of
/// its error.
pub fn check_rmcp_accepts(line: &str) -> (r: Result<(), String>)
    ensures
        match r {
            Ok(()) => message::rmcp_reading(line@) is Ok,
            Err(e) => message::rmcp_reading(line@) matches Err(text) && text == e@,
        },
        message::readable(line@) ==> r is Ok,
{
    match read_client_message(line) {
        Ok(_) => Ok(()),
        Err(e) => Err(e),
    }
}

/// A schema that only names a type.
pub open spec fn of_type(name: Seq<char>) -> JsonV {
    JsonV::Object(map!["type"@ => JsonV::Str(name)])
}

/// A schema that only refers to another.
pub open spec fn reference(to: Seq<char>) -> JsonV {
    JsonV::Object(map!["$ref"@ => JsonV::Str(to)])
}

/// The schemas that the one of an error response refers to.
pub open spec fn error_response_defs() -> JsonV {
    let error = JsonV::Object(
        map![
            "properties"@ => JsonV::Object(
                map![
                    "code"@ => of_type("integer"@),
                    "data"@ => JsonV::Object(map![]),
                    "message"@ => of_type("string"@),
                ],
            ),
            "required"@ => JsonV::Array(json::text_items(seq!["code"@, "message"@])),
            "type"@ => JsonV::Str("object"@),
        ],
    );
    let request_id = JsonV::Object(
        map!["type"@ => JsonV::Array(json::text_items(seq!["string"@, "integer"@]))],
    );
    JsonV::Object(map!["Error"@ => error, "RequestId"@ => request_id])
}

/// The protocol's schema of an error response, revision 2025-11-25.
pub open spec fn error_response_schema() -> JsonV {
    let version = JsonV::Object(
        map!["const"@ => JsonV::Str("2.0"@), "type"@ => JsonV::Str("string"@)],
    );
    JsonV::Object(
        map![
            "$schema"@ => JsonV::Str("https://json-schema.org/draft/2020-12/schema"@),
            "$defs"@ => error_response_defs(),
            "properties"@ => JsonV::Object(
                map![
                    "error"@ => reference("#/$defs/Error"@),
                    "id"@ => reference("#/$defs/RequestId"@),
                    "jsonrpc"@ => version,
                ],
            ),
            "required"@ => JsonV::Array(json::text_items(seq!["error"@, "jsonrpc"@])),
            "type"@ => JsonV::Str("object"@),
        ],
    )
}

fn text_member(members: &mut Vec<(String, Json)>, key: &str, value: &str)
    ensures
        json::object_view(final(members)@) == json::object_view(old(members)@).insert(
            key@,
            JsonV::Str(value@),
        ),
{
    set_member(members, key, Json::Str(value.to_owned()));
}

fn single(key: &str, value: &str) -> (r: Json)
    ensures
        r@ == JsonV::Object(map![key@ => JsonV::Str(value@)]),
{
    let mut members: Vec<(String, Json)> = Vec::new();
    text_member(&mut members, key, value);
    Json::Object(members)
}

fn pair(a: &str, b: &str) -> (r: Json)
    ensures
        r@ == JsonV::Array(json::text_items(seq![a@, b@])),
{
    let mut items: Vec<String> = Vec::new();
    items.push(a.to_owned());
    items.push(b.to_owned());
    assert(text::texts(items@) =~= seq![a@, b@]);
    text_array(&items)
}

fn build_error_response_defs() -> (r: Json)
    ensures
        r@ == error_response_defs(),
{
    let mut properties: Vec<(String, Json)> = Vec::new();
    set_member(&mut properties, "code", single("type", "integer"));
    set_member(&mut properties, "data", Json::Object(Vec::new()));
    set_member(&mut properties, "message", single("type", "string"));
    let mut error: Vec<(String, Json)> = Vec::new();
    set_member(&mut error, "properties", Json::Object(properties));
    set_member(&mut error, "required", pair("code", "message"));
    text_member(&mut error, "type", "object");
    let mut request_id: Vec<(String, Json)> = Vec::new();
    set_member(&mut request_id, "type", pair("string", "integer"));
    let mut defs: Vec<(String, Json)> = Vec::new();
    set_member(&mut defs, "Error", Json::Object(error));
    set_member(&mut defs, "RequestId", Json::Object(request_id));
    Json::Object(defs)
}

fn build_error_response_schema() -> (r: Json)
    ensures
        r@ == error_response_schema(),
{
    let mut version: Vec<(String, Json)> = Vec::new();
    text_member(&mut version, "const", "2.0");
    text_member(&mut version, "type", "string");
    let mut properties: Vec<(String, Json)> = Vec::new();
    set_member(&mut properties, "error", single("$ref", "#/$defs/Error"));
    set_member(&mut properties, "id", single("$ref", "#/$defs/RequestId"));
    set_member(&mut properties, "jsonrpc", Json::Object(version));
    let mut schema: Vec<(String, Json)> = Vec::new();
    text_member(&mut schema, "$schema", "https://json-schema.org/draft/2020-12/schema");
    set_member(&mut schema, "$defs", build_error_response_defs());
    set_member(&mut schema, "properties", Json::Object(properties));
    set_member(&mut schema, "required", pair("error", "jsonrpc"));
    text_member(&mut schema, "type", "object");
    Json::Object(schema)
}

/// A value as the schema of an error response asks for it.
pub open spec fn error_response(v: JsonV) -> bool {
    &&& json::field(v, "jsonrpc"@) == Some(JsonV::Str("2.0"@))
    &&& json::field(v, "error"@) matches Some(e) && {
        &&& json::field(e, "code"@) matches Some(JsonV::Int(_))
        &&& json::field(e, "message"@) matches Some(JsonV::Str(_))
    }
    &&& json::field(v, "id"@) matches Some(id) ==> id is Str || id is Int
}

/// The id and the code of a response are no fractions, which a schema may take
/// for integers.
pub open spec fn without_fractions(v: JsonV) -> bool {
    &&& json::field(v, "id"@) matches Some(id) ==> !(id is Float)
    &&& json::field(v, "error"@) matches Some(e) ==> (json::field(e, "code"@) matches Some(c)
        ==> !(c is Float))
}

/// The errors that `jsonschema` reports of a value under the schema of an error
/// response. Nothing is said of another schema.
pub uninterp spec fn schema_errors_of(schema: JsonV, value: JsonV) -> Seq<Seq<char>>;

/// Calls `jsonschema::validator_for` and `Validator::iter_errors` on the schema of
/// an error response. Its keywords are `type`, `const`, `required`, `properties` and
/// references into itself, so that nothing is looked up outside it: the texts of
/// the errors depend on the schema and the value alone, and it is stated on which
/// values there are none.
#[verifier::external_body]
fn schema_errors(schema: &serde_json::Value, value: &serde_json::Value) -> (r: Vec<String>)
    requires
        json::value_model(*schema) == error_response_schema(),
    ensures
        text::texts(r@) == schema_errors_of(json::value_model(*schema), json::value_model(*value)),
        without_fractions(json::value_model(*value)) ==> (r@.len() == 0) == error_response(
            json::value_model(*value),
        ),
{
    match jsonschema::validator_for(schema) {
        Ok(validator) => validator.iter_errors(value).map(|e| e.to_string()).collect(),
        Err(e) => vec![e.to_string()],
    }
}

/// The text of a line without its line break.
pub open spec fn line_body(line: Seq<char>) -> Seq<char> {
    text::without_trailing(text::without_trailing(line, '\n'), '\r')
}

/// Why a line is no error response, `None` where it is one.
pub open spec fn error_response_fault(line: Seq<char>) -> Option<Seq<char>> {
    match json::json_reading(line_body(line)) {
        Err(e) => Some(e),
        Ok(value) => {
            let errors = schema_errors_of(error_response_schema(), value);
            if errors.len() == 0 {
                None
            } else {
                Some(text::joined(errors, "; "@))
            }
        },
    }
}

/// `Ok` where the line is an error response of the protocol's schema, else the
/// texts of what is wrong with it.
pub fn check_error_envelope_valid(line: &str) -> (r: Result<(), String>)
    ensures
        match r {
            Ok(()) => error_response_fault(line@) is None,
            Err(e) => error_response_fault(line@) == Some(e@),
        },
        json::json_read(line_body(line@)) matches Some(v) ==> (without_fractions(v) ==> (r is Ok)
            == error_response(v)),
        json::json_read(line_body(line@)) is None ==> r is Err,
{
    let body = trim_trailing(trim_trailing(line, '\n'), '\r');
    let value = match read_value(body) {
        Ok(value) => value,
        Err(e) => {
            return Err(e);
        },
    };
    let built = build_error_response_schema();
    let schema = to_value(&built);
    let errors = schema_errors(&schema, &value);
    if errors.len() == 0 {
        Ok(())
    } else {
        Err(join(&errors, "; "))
    }
}

/// An answer to a refused line is an error response.
proof fn lemma_answer_is_error_response(code: int, message: Seq<char>, id: JsonV)
    requires
        id is Null || id is Str || id is Int,
    ensures
        error_response(envelope::error_model(code, message, id)),
        without_fractions(envelope::error_model(code, message, id)),
{
    reveal_strlit("jsonrpc");
    reveal_strlit("error");
    reveal_strlit("id");
    reveal_strlit("code");
    reveal_strlit("message");
    assert("jsonrpc"@.len() == 7 && "error"@.len() == 5 && "id"@.len() == 2);
    assert("code"@.len() == 4 && "message"@.len() == 7);
}

/// Every error envelope is an error response as the schema asks for it.
pub proof fn law_envelope_meets_the_schema(env: ErrorEnvelope)
    ensures
        error_response(envelope::envelope_model(env)),
{
    lemma_answer_is_error_response(env.code as int, env.message@, envelope::id_model(env.id));
}

/// Holds the decision on a line against the oracles: what is forwarded is read by
/// `rmcp`, and what answers a refused line is an error response. The second
/// always holds, the first of every line with readable metadata.
pub fn check_line(line: &str) -> (r: Result<(), String>)
    ensures
        match envelope::line_verdict(line@) {
            OutcomeV::Forward => match r {
                Ok(()) => message::rmcp_reading(line@) is Ok,
                Err(e) => message::rmcp_reading(line@) matches Err(text) && text == e@,
            },
            _ => r is Ok,
        },
        json::json_read(line@) matches Some(v) ==> (message::readable_metadata(line@, v) ==> r is Ok),
{
    match fuzz_validate(line) {
        FuzzOutcome::Skip => Ok(()),
        FuzzOutcome::Forward => check_rmcp_accepts(line),
        FuzzOutcome::Reject(answer) => {
            proof {
                let body = answer@.drop_last();
                if body.len() > 0 {
                    assert(body.contains(body.last()));
                }
                reveal_with_fuel(text::without_trailing, 2);
                assert(line_body(answer@) == body);
                if let OutcomeV::Reject { code, message, id } = envelope::line_verdict(line@) {
                    lemma_answer_is_error_response(code, message, id);
                }
            }
            check_error_envelope_valid(answer.as_str())
        },
    }
}

/// The line break of a line comes off, with or without a carriage return, and nothing
/// else.
pub proof fn law_line_break_comes_off(body: Seq<char>)
    requires
        body.len() > 0 ==> body.last() != '\n' && body.last() != '\r',
    ensures
        line_body(body) == body,
        line_body(body.push('\n')) == body,
        line_body(body.push('\r').push('\n')) == body,
{
    reveal_with_fuel(text::without_trailing, 2);
    assert(body.push('\n').drop_last() =~= body);
    assert(body.push('\r').drop_last() =~= body);
    assert(body.push('\r').push('\n').drop_last() =~= body.push('\r'));
}

/// What the schema of an error response asks for: an object with a version and an error,
/// where the version is `2.0` and the id, where there is one, a string or an integer.
pub proof fn law_schema_asks_for_an_error_response()
    ensures
        json::field(error_response_schema(), "type"@) == Some(JsonV::Str("object"@)),
        json::field(error_response_schema(), "required"@) matches Some(JsonV::Array(names))
            && names.len() == 2 && names.contains(JsonV::Str("error"@)) && names.contains(
            JsonV::Str("jsonrpc"@),
        ),
        json::field(error_response_schema(), "properties"@) matches Some(properties) && (
        json::field(properties, "jsonrpc"@) matches Some(version) && json::field(version, "const"@)
            == Some(JsonV::Str("2.0"@))) && (json::field(properties, "error"@) matches Some(e)
            && json::field(e, "$ref"@) == Some(JsonV::Str("#/$defs/Error"@))) && (json::field(
            properties,
            "id"@,
        ) matches Some(id) && json::field(id, "$ref"@) == Some(JsonV::Str("#/$defs/RequestId"@))),
        json::field(error_response_schema(), "$defs"@) == Some(error_response_defs()),
{
    lemma_schema_keys();
    let names = json::field(error_response_schema(), "required"@)->0->Array_0;
    assert(names[0] == JsonV::Str("error"@) && names[1] == JsonV::Str("jsonrpc"@));
}

/// What the schema asks of an error: an object with an integer code and a message, and of
/// an id: to be a string or an integer.
pub proof fn law_schema_asks_for_code_and_message()
    ensures
        json::field(error_response_defs(), "Error"@) matches Some(e) && (json::field(
            e,
            "required"@,
        ) matches Some(JsonV::Array(names)) && names.len() == 2 && names.contains(
            JsonV::Str("code"@),
        ) && names.contains(JsonV::Str("message"@))) && (json::field(e, "properties"@) matches Some(
            properties,
        ) && (json::field(properties, "code"@) matches Some(code) && json::field(code, "type"@)
            == Some(JsonV::Str("integer"@))) && (json::field(properties, "message"@) matches Some(
            message,
        ) && json::field(message, "type"@) == Some(JsonV::Str("string"@)))),
        json::field(error_response_defs(), "RequestId"@) matches Some(id) && (json::field(
            id,
            "type"@,
        ) matches Some(JsonV::Array(kinds)) && kinds.len() == 2 && kinds.contains(
            JsonV::Str("string"@),
        ) && kinds.contains(JsonV::Str("integer"@))),
{
    lemma_schema_keys();
    let error = json::field(error_response_defs(), "Error"@)->0;
    let names = json::field(error, "required"@)->0->Array_0;
    assert(names[0] == JsonV::Str("code"@) && names[1] == JsonV::Str("message"@));
    let id = json::field(error_response_defs(), "RequestId"@)->0;
    let kinds = json::field(id, "type"@)->0->Array_0;
    assert(kinds[0] == JsonV::Str("string"@) && kinds[1] == JsonV::Str("integer"@));
}

proof fn lemma_schema_keys()
    ensures
        "$schema"@ != "$defs"@,
        "$schema"@ != "properties"@,
        "$schema"@ != "required"@,
        "$schema"@ != "type"@,
        "$defs"@ != "properties"@,
        "$defs"@ != "required"@,
        "$defs"@ != "type"@,
        "properties"@ != "required"@,
        "properties"@ != "type"@,
        "required"@ != "type"@,
        "error"@ != "id"@,
        "error"@ != "jsonrpc"@,
        "id"@ != "jsonrpc"@,
        "const"@ != "type"@,
        "code"@ != "data"@,
        "code"@ != "message"@,
        "data"@ != "message"@,
        "Error"@ != "RequestId"@,
{
    reveal_strlit("$schema");
    reveal_strlit("$defs");
    reveal_strlit("properties");
    reveal_strlit("required");
    reveal_strlit("type");
    reveal_strlit("error");
    reveal_strlit("id");
    reveal_strlit("jsonrpc");
    reveal_strlit("const");
    reveal_strlit("code");
    reveal_strlit("data");
    reveal_strlit("message");
    reveal_strlit("Error");
    reveal_strlit("RequestId");
    assert("$schema"@.len() == 7 && "$defs"@.len() == 5 && "properties"@.len() == 10);
    assert("required"@.len() == 8 && "type"@.len() == 4 && "error"@.len() == 5);
    assert("id"@.len() == 2 && "jsonrpc"@.len() == 7 && "const"@.len() == 5);
    assert("code"@[0] == 'c' && "data"@[0] == 'd' && "message"@[0] == 'm');
    assert("Error"@.len() == 5 && "RequestId"@.len() == 9);
}

/// A value is an error response for the oracle by its version, its error and its id: a
/// fraction for a code or an id makes it none, and so does a null id.
pub proof fn law_error_response_by_field(v: JsonV)
    ensures
        json::field(v, "jsonrpc"@) != Some(JsonV::Str("2.0"@)) ==> !error_response(v),
        json::field(v, "error"@) is None ==> !error_response(v),
        (json::field(v, "error"@) matches Some(e) && !(json::field(e, "code"@) matches Some(
            JsonV::Int(_),
        ))) ==> !error_response(v),
        (json::field(v, "error"@) matches Some(e) && !(json::field(e, "message"@) matches Some(
            JsonV::Str(_),
        ))) ==> !error_response(v),
        (json::field(v, "id"@) matches Some(id) && (id is Null || id is Bool || id is Float || id
            is Array || id is Object)) ==> !error_response(v),
        envelope::readable_error_response(v) ==> error_response(v),
{
}

/// A line that is no JSON is at fault by the reader's own words. One that is has all the
/// faults that the schema finds, in their order, and none where it finds none.
pub proof fn law_faults_are_all_told(line: Seq<char>)
    ensures
        json::json_reading(line_body(line)) matches Err(e) ==> error_response_fault(line) == Some(e),
        json::json_reading(line_body(line)) matches Ok(v) ==> (error_response_fault(line) is None
            <==> schema_errors_of(error_response_schema(), v).len() == 0),
        json::json_reading(line_body(line)) matches Ok(v) ==> (error_response_fault(line) matches
            Some(fault) ==> fault == text::joined(
            schema_errors_of(error_response_schema(), v),
            "; "@,
        )),
{
}

} // verus!
