//! The envelope that wraps every response of the service: a `result` code
//! and, for the status endpoint, a payload under `obj`.

use crate::error::GrowattError;
use crate::json::{
    integer, json_integer, json_member, json_text, member, parse, parsed_json, render,
};
use vstd::prelude::*;

verus! {

/// The member that holds the result code.
pub const RESULT_KEY: &'static str = "result";

/// The member that holds the status payload.
pub const PAYLOAD_KEY: &'static str = "obj";

/// The result code of an envelope: the `result` member of the document that
/// `body` parses to, read as an integer. `None` where the body is no JSON,
/// has no such member, or the member is no integer.
pub open spec fn result_code(body: Seq<char>) -> Option<i64> {
    match parsed_json(body) {
        Some(document) => match json_member(document, RESULT_KEY@) {
            Some(field) => json_integer(field),
            None => None,
        },
        None => None,
    }
}

/// The success test on a result code: present and not zero.
pub open spec fn signals_success(code: Option<i64>) -> bool {
    code matches Some(n) && n != 0
}

/// The success test on a body.
pub open spec fn is_success(body: Seq<char>) -> bool {
    signals_success(result_code(body))
}

/// The payload of a status response: the `obj` member of the document that
/// `body` parses to.
pub open spec fn status_payload(body: Seq<char>) -> Option<serde_json::Value> {
    match parsed_json(body) {
        Some(document) => json_member(document, PAYLOAD_KEY@),
        None => None,
    }
}

/// The text that a status response is narrowed to: its payload, written out
/// again as JSON.
pub open spec fn status_text(body: Seq<char>) -> Option<Seq<char>> {
    match status_payload(body) {
        Some(object) => Some(json_text(object)),
        None => None,
    }
}

/// The text that a status response is narrowed to depends on its `obj`
/// member alone: two bodies with the same payload give the same text,
/// whatever else they hold.
pub proof fn lemma_status_text_depends_on_payload_alone(first: Seq<char>, second: Seq<char>)
    requires
        status_payload(first) == status_payload(second),
    ensures
        status_text(first) == status_text(second),
{
}

/// A body whose `result` member is the integer zero fails the success test,
/// whatever else the body holds.
pub proof fn lemma_zero_result_fails(body: Seq<char>)
    requires
        result_code(body) == Some(0i64),
    ensures
        !is_success(body),
{
}

/// A body that is no JSON, or that has no `result` member, fails the success
/// test.
pub proof fn lemma_unreadable_body_fails(body: Seq<char>)
    requires
        parsed_json(body) is None || json_member(parsed_json(body)->0, RESULT_KEY@) is None,
    ensures
        !is_success(body),
{
}

/// A body passes the success test exactly when it parses, has a `result`
/// member, and that member is an integer other than zero.
pub proof fn lemma_success_means_nonzero_result(body: Seq<char>)
    ensures
        is_success(body) <==> {
            &&& parsed_json(body) matches Some(document)
            &&& json_member(document, RESULT_KEY@) matches Some(field)
            &&& json_integer(field) matches Some(n)
            &&& n != 0
        },
{
}

/// Reads the result code of an envelope.
pub fn read_result_code(body: &str) -> (code: Option<i64>)
    ensures
        code == result_code(body@),
{
    match parse(body) {
        Ok(document) => match member(&document, RESULT_KEY) {
            Some(field) => integer(field),
            None => None,
        },
        Err(_) => None,
    }
}

/// Applies the success test to a result code: exactly zero fails, and so
/// does a missing code.
pub fn code_is_success(code: Option<i64>) -> (ok: bool)
    ensures
        ok == signals_success(code),
{
    match code {
        Some(n) => n != 0,
        None => false,
    }
}

/// Turns what the JSON writer gave for a payload into the operation's
/// result: the text where it wrote one, a malformed response otherwise.
pub fn payload_from_rendering(rendering: Result<String, serde_json::Error>) -> (payload: Result<
    String,
    GrowattError,
>)
    ensures
        match rendering {
            Ok(text) => payload == Ok::<String, GrowattError>(text),
            Err(_) => payload == Err::<String, GrowattError>(GrowattError::MalformedResponse),
        },
{
    match rendering {
        Ok(text) => Ok(text),
        Err(_) => Err(GrowattError::MalformedResponse),
    }
}

/// Narrows a status response to its payload: the `obj` member alone, written
/// out again as JSON. A body that is no JSON or has no `obj` member is a
/// malformed response; every other body gives its payload.
pub fn extract_status_payload(body: &str) -> (payload: Result<String, GrowattError>)
    ensures
        match status_text(body@) {
            Some(text) => payload matches Ok(written) && written@ == text,
            None => payload == Err::<String, GrowattError>(GrowattError::MalformedResponse),
        },
{
    match parse(body) {
        Ok(document) => match member(&document, PAYLOAD_KEY) {
            Some(object) => payload_from_rendering(render(object)),
            None => Err(GrowattError::MalformedResponse),
        },
        Err(_) => Err(GrowattError::MalformedResponse),
    }
}

} // verus!
