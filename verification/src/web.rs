//! The decision path of one webhook request: compare the shared-secret
//! token, read the discriminant, dispatch, and decide the HTTP status, the
//! line to forward, and the error body, all as pure functions of the inputs.

use vstd::prelude::*;

use crate::dispatch::{bad_field_for, dispatch, kind_of_str, known_kind, line_for, wf_for,
    DispatchOutcome};
use crate::event::{kind_label, DecodeError, EventKind};
use crate::json::{str_field, str_field_view, Json};
use crate::text::str_eq;

verus! {

/// What the service answers one webhook request with: a status code, the
/// notification line to forward to chat (if any), and a JSON error body for
/// a malformed payload of a known kind.
#[derive(Debug)]
pub struct WebhookReply {
    pub status: u16,
    pub forward: Option<String>,
    pub error_body: Option<String>,
}

/// Whether the request carries exactly the configured shared-secret token.
pub open spec fn token_ok(token: Option<&str>, expected: Seq<char>) -> bool {
    token matches Some(t) && t@ == expected
}

/// Compares the request's token header with the configured token. Absence is
/// a mismatch; the comparison is byte-for-byte equality.
pub fn check_token(token: Option<&str>, expected: &str) -> (r: bool)
    ensures
        r == token_ok(token, expected@),
{
    match token {
        Some(t) => str_eq(t, expected),
        None => false,
    }
}

/// The payload's discriminant: its `object_kind` string, or a placeholder
/// (which is not a known kind) when the field is absent or not a string.
pub open spec fn discriminant_view(j: Json) -> Seq<char> {
    if str_field(j, "object_kind"@) is Some {
        str_field_view(j, "object_kind"@)
    } else {
        "no object kind"@
    }
}

/// The message of the JSON error body for a malformed payload.
pub open spec fn error_message_text(kind: EventKind, field: Seq<char>) -> Seq<char> {
    "malformed "@ + kind_label(kind) + " payload: bad field "@ + field
}

/// The JSON error body returned for a malformed payload of a known kind.
pub open spec fn error_body_text(kind: EventKind, field: Seq<char>) -> Seq<char> {
    "{\"code\":400,\"error\":{\"message\":\"Failed to parse Gitlab payload: "@
        + error_message_text(kind, field) + "\"}}"@
}

fn error_body(e: &DecodeError) -> (r: String)
    ensures
        r@ == error_body_text(e.kind, e.field@),
{
    let mut s = String::from_str(
        "{\"code\":400,\"error\":{\"message\":\"Failed to parse Gitlab payload: ",
    );
    let msg = e.describe();
    s.append(msg.as_str());
    s.append("\"}}");
    proof {
        assert(s@ =~= error_body_text(e.kind, e.field@));
    }
    s
}

/// Decides one webhook request. A wrong or missing token is rejected before
/// the payload is looked at; an unknown kind is accepted with nothing to
/// forward; a known kind yields either the rendered line under status 200 or
/// the error body under status 400.
pub fn handle_webhook(token: Option<&str>, expected: &str, payload: &Json) -> (r: WebhookReply)
    ensures
        r.status == 200 || r.status == 400,
        !token_ok(token, expected@) ==> r.status == 400 && r.forward is None && r.error_body
            is None,
        token_ok(token, expected@) && !known_kind(discriminant_view(*payload)) ==> r.status == 200
            && r.forward is None && r.error_body is None,
        token_ok(token, expected@) ==> (kind_of_str(discriminant_view(*payload)) matches Some(k)
            ==> (if wf_for(k, *payload) {
            &&& r.status == 200
            &&& r.forward matches Some(m) && m@ == line_for(k, *payload)
            &&& r.error_body is None
        } else {
            &&& r.status == 400
            &&& r.forward is None
            &&& r.error_body matches Some(b) && b@ == error_body_text(
                k,
                bad_field_for(k, *payload),
            )
        })),
{
    if !check_token(token, expected) {
        return WebhookReply { status: 400, forward: None, error_body: None };
    }
    let kind: &str = match payload.get("object_kind") {
        Some(v) => match v.as_str() {
            Some(s) => s.as_str(),
            None => "no object kind",
        },
        None => "no object kind",
    };
    match dispatch(kind, payload) {
        DispatchOutcome::Rendered(line) => WebhookReply {
            status: 200,
            forward: Some(line),
            error_body: None,
        },
        DispatchOutcome::UnknownKind => WebhookReply {
            status: 200,
            forward: None,
            error_body: None,
        },
        DispatchOutcome::Malformed(e) => {
            let body = error_body(&e);
            WebhookReply { status: 400, forward: None, error_body: Some(body) }
        },
    }
}

} // verus!
