//! From the backend's reply to the result of the invocation.
//!
//! A reply that is JSON is handed on as it is. One that is not is wrapped
//! in an envelope that carries the status and the body. A download that
//! succeeded is always wrapped, with its bytes in base64.

use crate::encoding::{base64_encode, base64_standard, encodable_len};
use crate::error::{internal, ToolError};
use crate::json::{
    insert_member, json_of, json_of_option, new_members, no_members, null_value, number_value,
    object_value, parse_bytes, parse_text, parsed_bytes, parsed_text, text_value, Json,
    JsonNumber,
};
use crate::text::{join3, text_of};
use serde_json::Value;
use vstd::prelude::*;

verus! {

/// Whether an HTTP status denotes success: the codes from 200 to 299.
pub open spec fn status_is_success(status: u16) -> bool {
    200 <= status < 300
}

/// Tells whether `status` denotes success.
pub fn is_success(status: u16) -> (ok: bool)
    ensures
        ok == status_is_success(status),
{
    200 <= status && status < 300
}

/// A status as a JSON number.
pub open spec fn status_json(status: u16) -> Json {
    Json::Number(JsonNumber::Int(status as int))
}

/// The envelope for a reply whose body is not JSON: `status` and the text
/// as `body`.
pub open spec fn text_envelope(status: u16, text: Seq<char>) -> Json {
    Json::Object(
        no_members().insert("status"@, status_json(status)).insert("body"@, Json::Text(text)),
    )
}

/// The result for a reply read as text: the document that the text holds,
/// or the envelope where it holds none.
pub open spec fn text_reply_of(status: u16, text: Seq<char>, parsed: Option<Json>) -> Json {
    match parsed {
        Some(document) => document,
        None => text_envelope(status, text),
    }
}

/// A content type as JSON: the string, or `null` where the reply named
/// none.
pub open spec fn content_type_json(content_type: Option<Seq<char>>) -> Json {
    match content_type {
        Some(name) => Json::Text(name),
        None => Json::Null,
    }
}

/// The envelope for a download: `status`, `content_type` and the bytes in
/// base64 as `body_base64`.
pub open spec fn file_envelope(
    status: u16,
    content_type: Option<Seq<char>>,
    encoded: Seq<char>,
) -> Json {
    Json::Object(
        no_members().insert("status"@, status_json(status)).insert(
            "content_type"@,
            content_type_json(content_type),
        ).insert("body_base64"@, Json::Text(encoded)),
    )
}

/// The result for a reply read as a download. On success it is the
/// envelope, whatever the bytes are. On failure it is the document that the
/// bytes hold, or the envelope where they hold none.
pub open spec fn file_reply_of(
    status: u16,
    content_type: Option<Seq<char>>,
    encoded: Seq<char>,
    parsed: Option<Json>,
) -> Json {
    if status_is_success(status) {
        file_envelope(status, content_type, encoded)
    } else {
        match parsed {
            Some(document) => document,
            None => file_envelope(status, content_type, encoded),
        }
    }
}

/// A download that succeeded is wrapped, whatever its bytes are and
/// whatever they would read as: the result carries the status, the content
/// type and the base64 text of the bytes under `body_base64`.
pub proof fn lemma_successful_download_is_wrapped(
    status: u16,
    content_type: Option<Seq<char>>,
    encoded: Seq<char>,
    parsed: Option<Json>,
)
    requires
        status_is_success(status),
    ensures
        file_reply_of(status, content_type, encoded, parsed) matches Json::Object(members)
            && members.contains_key("body_base64"@) && members["body_base64"@] == Json::Text(
            encoded,
        ) && members.contains_key("status"@) && members["status"@] == status_json(status),
{
    reveal_strlit("status");
    reveal_strlit("content_type");
    reveal_strlit("body_base64");
    assert("status"@.len() != "content_type"@.len());
    assert("status"@.len() != "body_base64"@.len());
}

/// A download that failed and whose bytes are a JSON document results in
/// that document, unchanged.
pub proof fn lemma_failed_download_passes_json(
    status: u16,
    content_type: Option<Seq<char>>,
    encoded: Seq<char>,
    document: Json,
)
    requires
        !status_is_success(status),
    ensures
        file_reply_of(status, content_type, encoded, Some(document)) == document,
{
}

/// A reply read as text that is a JSON document results in that document,
/// unchanged, whatever the status is.
pub proof fn lemma_json_reply_passes(status: u16, text: Seq<char>, document: Json)
    ensures
        text_reply_of(status, text, Some(document)) == document,
{
}

/// The result for a reply with the given status and text, where `parsed`
/// is the document that the text was found to hold, if any.
pub fn text_reply_from(status: u16, text: String, parsed: Option<Value>) -> (reply: Value)
    ensures
        json_of(reply) == text_reply_of(status, text@, json_of_option(parsed)),
        parsed matches Some(document) ==> reply == document,
{
    match parsed {
        Some(document) => document,
        None => {
            let mut members = new_members();
            insert_member(&mut members, "status".to_owned(), number_value(status));
            insert_member(&mut members, "body".to_owned(), text_value(text));
            object_value(members)
        },
    }
}

/// The result of a call whose reply is read as JSON text.
pub fn text_reply(status: u16, text: String) -> (reply: Value)
    ensures
        json_of(reply) == text_reply_of(status, text@, parsed_text(text@)),
{
    let parsed = parse_text(text.as_str());
    text_reply_from(status, text, parsed)
}

/// The result for a download with the given status and content type,
/// where `encoded` is the base64 text of its bytes and `parsed` the
/// document that the bytes were found to hold, if any.
pub fn file_reply_from(
    status: u16,
    content_type: Option<String>,
    encoded: String,
    parsed: Option<Value>,
) -> (reply: Value)
    ensures
        json_of(reply) == file_reply_of(
            status,
            text_of(content_type),
            encoded@,
            json_of_option(parsed),
        ),
        !status_is_success(status) ==> (parsed matches Some(document) ==> reply == document),
{
    if !is_success(status) {
        if let Some(document) = parsed {
            return document;
        }
    }
    let mut members = new_members();
    insert_member(&mut members, "status".to_owned(), number_value(status));
    let content_type = match content_type {
        Some(name) => text_value(name),
        None => null_value(),
    };
    insert_member(&mut members, "content_type".to_owned(), content_type);
    insert_member(&mut members, "body_base64".to_owned(), text_value(encoded));
    object_value(members)
}

/// The result of a call whose reply is a download. The bytes of a
/// successful reply are never read as JSON.
pub fn file_reply(status: u16, content_type: Option<String>, bytes: &[u8]) -> (reply: Value)
    requires
        encodable_len(bytes@.len()),
    ensures
        json_of(reply) == file_reply_of(
            status,
            text_of(content_type),
            base64_standard(bytes@),
            parsed_bytes(bytes@),
        ),
{
    let parsed = if is_success(status) {
        None
    } else {
        parse_bytes(bytes)
    };
    file_reply_from(status, content_type, base64_encode(bytes), parsed)
}

/// The failure for an HTTP exchange that did not complete; `cause` is what
/// the transport said of it.
pub fn transport_failure(cause: String) -> (e: ToolError)
    ensures
        e@ == internal(cause@),
{
    ToolError::internal_error(cause)
}

/// The failure for a local file that could not be read; `cause` is what
/// the system said of it.
pub fn read_failure(path: &str, cause: &str) -> (e: ToolError)
    ensures
        e@ == internal("read file "@ + path@ + ": "@ + cause@),
{
    let mut message = join3("read file ", path, ": ");
    message.append(cause);
    ToolError::internal_error(message)
}

} // verus!
