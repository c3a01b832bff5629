//! The JSON body of a notification request.
//!
//! The body is an object with two string fields, `channel_id` and `content`,
//! in that order and with nothing else in it. The object is framed here; the
//! JSON text of each string value is `serde_json`'s.

use vstd::prelude::*;
use vstd::string::StringExecFns;

verus! {

/// The error type of `serde_json`, carried through and never looked into.
#[verifier::external_type_specification]
#[verifier::external_body]
pub struct ExJsonError(serde_json::Error);

/// The JSON text that `serde_json::to_string` gives for a string: the string
/// in double quotes, with the characters that JSON does not allow inside a
/// string escaped.
pub uninterp spec fn json_string_text(s: Seq<char>) -> Seq<char>;

/// Calls `serde_json::to_string` on a string slice.
///
/// Trusted, not proved: the call succeeds, and its result is a function of
/// the slice's characters alone. It succeeds because serialising a string
/// only writes to a buffer in memory, which cannot fail; the serialiser has no
/// other source of errors for this type.
#[verifier::external_body]
fn json_string(s: &str) -> (r: Result<String, serde_json::Error>)
    ensures
        r is Ok,
        r->Ok_0@ == json_string_text(s@),
{
    serde_json::to_string(s)
}

/// The body text for two values that are already JSON texts.
pub open spec fn framed_body(channel_json: Seq<char>, content_json: Seq<char>) -> Seq<char> {
    "{\"channel_id\":"@ + channel_json + ",\"content\":"@ + content_json + "}"@
}

/// The body text of the notification that sends `content` to `channel_id`.
pub open spec fn body_of(channel_id: Seq<char>, content: Seq<char>) -> Seq<char> {
    framed_body(json_string_text(channel_id), json_string_text(content))
}

/// Frames the request body round two values that are already JSON texts:
/// `{"channel_id":<channel_json>,"content":<content_json>}`.
pub fn frame_body(channel_json: &str, content_json: &str) -> (body: String)
    ensures
        body@ == framed_body(channel_json@, content_json@),
{
    let mut body = String::from_str("{\"channel_id\":");
    body.append(channel_json);
    body.append(",\"content\":");
    body.append(content_json);
    body.append("}");
    body
}

/// Builds the request body that sends `content` to the channel `channel_id`.
///
/// Neither argument is checked or changed: each becomes the JSON text of
/// exactly that string, under its fixed field name.
pub fn notification_body(channel_id: &str, content: &str) -> (body: String)
    ensures
        body@ == body_of(channel_id@, content@),
{
    let channel_json = json_string(channel_id).unwrap();
    let content_json = json_string(content).unwrap();
    frame_body(channel_json.as_str(), content_json.as_str())
}

} // verus!
