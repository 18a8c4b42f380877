//! The uniform response envelope and the HTTP status that goes with it.
use vstd::prelude::*;

use crate::text::{chars_of, push_str, string_of};

verus! {

pub const OK: u16 = 200;

pub const BAD_REQUEST: u16 = 400;

pub const SERVER_ERROR: u16 = 500;

/// What every endpoint answers: `kind` is `success`, `error` or `base64`,
/// `media_type` says how to read `data`.
pub struct ActionResponse {
    pub kind: String,
    pub media_type: String,
    pub data: String,
}

/// An envelope together with its HTTP status.
pub struct Reply {
    pub status: u16,
    pub response: ActionResponse,
}

pub open spec fn is_text_reply(r: Reply, status: u16, kind: Seq<char>, data: Seq<char>) -> bool {
    &&& r.status == status
    &&& r.response.kind@ == kind
    &&& r.response.media_type@ == "text/plain"@
    &&& r.response.data@ == data
}

/// A 200 plain-text success carrying `data`.
pub open spec fn is_success(r: Reply, data: Seq<char>) -> bool {
    is_text_reply(r, OK, "success"@, data)
}

/// A plain-text error with the given status carrying `data`.
pub open spec fn is_error(r: Reply, status: u16, data: Seq<char>) -> bool {
    is_text_reply(r, status, "error"@, data)
}

fn text_reply(status: u16, kind: &str, data: String) -> (r: Reply)
    ensures
        is_text_reply(r, status, kind@, data@),
{
    let k = chars_of(kind);
    let m = chars_of("text/plain");
    Reply {
        status,
        response: ActionResponse { kind: string_of(&k), media_type: string_of(&m), data },
    }
}

/// A 200 plain-text success.
pub fn success(data: String) -> (r: Reply)
    ensures
        is_success(r, data@),
{
    text_reply(OK, "success", data)
}

/// A plain-text error with the given status.
pub fn failure(status: u16, data: String) -> (r: Reply)
    ensures
        is_error(r, status, data@),
{
    text_reply(status, "error", data)
}

/// A plain-text error whose message is `head` followed by `tail`.
pub fn failure_with(status: u16, head: &str, tail: &str) -> (r: Reply)
    ensures
        is_error(r, status, head@ + tail@),
{
    let mut m = chars_of(head);
    push_str(&mut m, tail);
    failure(status, string_of(&m))
}

/// A 200 success whose message is `head` followed by `tail`.
pub fn success_with(head: &str, tail: &str) -> (r: Reply)
    ensures
        is_success(r, head@ + tail@),
{
    let mut m = chars_of(head);
    push_str(&mut m, tail);
    success(string_of(&m))
}

/// What the readiness probe answers; it has no side effects.
pub fn health_reply() -> (r: Reply)
    ensures
        is_success(r, "Service is running"@),
{
    success(string_of(&chars_of("Service is running")))
}

} // verus!
