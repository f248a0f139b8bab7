//! The envelope every outbound request carries: a fresh tag as its `id`,
//! the `command` name and, except on unsubscribe payloads, the protocol
//! version in `api_version`, all set on the command's own fields.
use vstd::prelude::*;

use crate::json::{
    json_is_object, json_set_str_member, json_set_u64_member, set_str_member, set_u64_member,
};

verus! {

/// The protocol version that requests carry.
pub const API_VERSION: u32 = 2;

/// Relies on uuid's `Uuid::new_v4`, printed hyphenated: 36 random characters.
#[verifier::external_body]
fn fresh_request_tag() -> (r: String)
    ensures
        r@.len() == 36,
{
    uuid::Uuid::new_v4().to_string()
}

/// `text` is the JSON object `fields` with `id` set to some 36-character tag
/// and then `command` set to `command`.
pub open spec fn is_enveloped(text: Seq<char>, fields: Seq<char>, command: Seq<char>) -> bool {
    exists|tag: Seq<char>, a: Seq<char>|
        tag.len() == 36 && json_set_str_member(fields, "id"@, tag) == Some(a)
            && json_set_str_member(a, "command"@, command) == Some(text)
}

/// `text` is the enveloped `fields` with `api_version` then set to `version`.
pub open spec fn is_command_payload(
    text: Seq<char>,
    fields: Seq<char>,
    command: Seq<char>,
    version: u32,
) -> bool {
    exists|b: Seq<char>|
        is_enveloped(b, fields, command) && json_set_u64_member(b, "api_version"@, version as u64)
            == Some(text)
}

/// Sets a fresh tag as `id` and `command` on the JSON object `fields`;
/// `None` when `fields` is not a JSON object.
pub fn envelope(fields: &str, command: &str) -> (r: Option<String>)
    ensures
        r is Some <==> json_is_object(fields@),
        r matches Some(t) ==> is_enveloped(t@, fields@, command@) && json_is_object(t@),
{
    let tag = fresh_request_tag();
    let tagged = match set_str_member(fields, "id", tag.as_str()) {
        Some(a) => a,
        None => return None,
    };
    let r = set_str_member(tagged.as_str(), "command", command);
    assert(r matches Some(t) ==> is_enveloped(t@, fields@, command@));
    r
}

/// The payload of a command: its fields (a JSON object) enveloped, with the
/// protocol version `version`; `None` when `fields` is not a JSON object.
pub fn command_payload(fields: &str, command: &str, version: u32) -> (r: Option<String>)
    ensures
        r is Some <==> json_is_object(fields@),
        r matches Some(t) ==> is_command_payload(t@, fields@, command@, version),
{
    match envelope(fields, command) {
        Some(b) => set_u64_member(b.as_str(), "api_version", version as u64),
        None => None,
    }
}

} // verus!
