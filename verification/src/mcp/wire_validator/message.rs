//! How the protocol stack reads a line.
use vstd::prelude::*;

use super::duplicates;
use super::envelope;
use super::envelope::RequestId;
use crate::json;
use crate::json::JsonV;

verus! {

/// A line as `rmcp` reads it.
pub enum ClientMessage {
    /// The request that opens a session.
    Initialize,
    /// A ping request.
    Ping,
    /// Any other request, with its id.
    Request(RequestId),
    /// A notification, a response or an error.
    Other,
}

/// What a [`ClientMessage`] stands for.
pub enum ClientMessageV {
    Initialize,
    Ping,
    Request(JsonV),
    Other,
}

/// A message by value.
pub open spec fn client_message_view(m: ClientMessage) -> ClientMessageV {
    match m {
        ClientMessage::Initialize => ClientMessageV::Initialize,
        ClientMessage::Ping => ClientMessageV::Ping,
        ClientMessage::Request(id) => ClientMessageV::Request(envelope::id_model(Some(id))),
        ClientMessage::Other => ClientMessageV::Other,
    }
}

/// What `serde_json::from_str` makes of a line for
/// `rmcp::model::ClientJsonRpcMessage`: the message, or the text of the error.
pub uninterp spec fn rmcp_reading(line: Seq<char>) -> Result<ClientMessageV, Seq<char>>;

/// The metadata of a call is an object or null, and is named once; or there is
/// none.
pub open spec fn readable_metadata(line: Seq<char>, v: JsonV) -> bool {
    match (json::field(v, "method"@), json::field(v, "params"@)) {
        (Some(_), Some(params)) => match json::field(params, "_meta"@) {
            None => true,
            Some(meta) => (meta is Object || meta is Null) && duplicates::params_name_once(
                line,
                "_meta"@,
            ),
        },
        _ => true,
    }
}

/// A line that `rmcp` reads, by the rules of the envelope: a message that repeats
/// no field, with readable metadata.
pub open spec fn readable(line: Seq<char>) -> bool {
    &&& !duplicates::repeats_a_field(line)
    &&& json::json_read(line) matches Some(v)
    &&& envelope::is_message(v)
    &&& readable_metadata(line, v)
}

/// Calls `serde_json::from_str` for `rmcp::model::ClientJsonRpcMessage` and tells
/// the variants of the message, and of a request within it, apart. The message,
/// or the text of the error, depends on the line alone. A readable line is read:
/// `rmcp` has `CustomRequest`, `CustomNotification` and `CustomResult` for what it
/// does not know, and looks into nothing of theirs but `params._meta`.
#[verifier::external_body]
pub(crate) fn read_client_message(line: &str) -> (r: Result<ClientMessage, String>)
    ensures
        match r {
            Ok(m) => rmcp_reading(line@) == Ok::<ClientMessageV, Seq<char>>(client_message_view(m)),
            Err(e) => rmcp_reading(line@) == Err::<ClientMessageV, Seq<char>>(e@),
        },
        readable(line@) ==> r is Ok,
{
    match serde_json::from_str::<rmcp::model::ClientJsonRpcMessage>(line) {
        Ok(rmcp::model::JsonRpcMessage::Request(call)) => Ok(match (call.request, call.id) {
            (rmcp::model::ClientRequest::InitializeRequest(_), _) => ClientMessage::Initialize,
            (rmcp::model::ClientRequest::PingRequest(_), _) => ClientMessage::Ping,
            (_, rmcp::model::NumberOrString::Number(n)) => ClientMessage::Request(RequestId::Number(n)),
            (_, rmcp::model::NumberOrString::String(s)) => ClientMessage::Request(RequestId::Text(s.to_string())),
        }),
        Ok(_) => Ok(ClientMessage::Other),
        Err(e) => Err(e.to_string()),
    }
}

} // verus!
