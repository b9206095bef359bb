//! The envelope that wraps every response.
//!
//! A response is judged by its status first. Only a body that came with a
//! success status is read as JSON, and of that document only the `payload`
//! field is handed on.

use vstd::prelude::*;

use crate::error::ClientError;
use crate::json::{field, parsed_json, Json, JsonView};
use crate::wire::Wire;

verus! {

/// Whether `status` reports success.
pub open spec fn is_success(status: u16) -> bool {
    200 <= status <= 299
}

/// The payload of a response document: its `payload` field, or `Null` where
/// it has none.
pub open spec fn payload_of(doc: JsonView) -> JsonView {
    match field(doc, "payload"@) {
        Some(v) => v,
        None => JsonView::Null,
    }
}

/// Whether `e` is the error for a response with this status and body.
pub open spec fn is_api_error(e: ClientError, status: u16, body: Seq<char>) -> bool {
    e matches ClientError::Api { status: s, body: b } && s == status && b@ == body
}

/// Whether `r` is what unwrapping the response gives: the error that
/// carries status and body for a failure status, a mapping error for a body
/// that is no JSON, and the payload otherwise.
pub open spec fn unwraps_to(status: u16, body: Seq<char>, r: Result<Json, ClientError>) -> bool {
    if !is_success(status) {
        r matches Err(e) && is_api_error(e, status, body)
    } else {
        match parsed_json(body) {
            Some(doc) => r matches Ok(payload) && payload@ == payload_of(doc),
            None => r matches Err(ClientError::Mapping),
        }
    }
}

/// The record that a response reads as: what the payload of a successful
/// response with a JSON body decodes to.
pub open spec fn reads_as<T: Wire>(status: u16, body: Seq<char>) -> Option<T::V> {
    if is_success(status) {
        match parsed_json(body) {
            Some(doc) => T::decoded(payload_of(doc)),
            None => None,
        }
    } else {
        None
    }
}

/// Whether `r` is what reading the response as a `T` gives: as for
/// `unwraps_to`, and in place of the payload the record it decodes to, or a
/// mapping error where it decodes to none.
pub open spec fn replies_with<T: Wire>(
    status: u16,
    body: Seq<char>,
    r: Result<T, ClientError>,
) -> bool {
    if !is_success(status) {
        r matches Err(e) && is_api_error(e, status, body)
    } else {
        match parsed_json(body) {
            Some(doc) => match T::decoded(payload_of(doc)) {
                Some(v) => r matches Ok(x) && x@ == v,
                None => r matches Err(ClientError::Mapping),
            },
            None => r matches Err(ClientError::Mapping),
        }
    }
}

/// Checks the status of a response; for a failure status, gives the error
/// that carries status and body.
pub fn check_status(status: u16, body: &str) -> (r: Result<(), ClientError>)
    ensures
        match r {
            Ok(_) => is_success(status),
            Err(e) => !is_success(status) && is_api_error(e, status, body@),
        },
{
    if status < 200 || status > 299 {
        Err(ClientError::Api { status, body: String::from_str(body) })
    } else {
        Ok(())
    }
}

/// Unwraps a response: the payload of a successful one.
pub fn decode(status: u16, body: &str) -> (r: Result<Json, ClientError>)
    ensures
        unwraps_to(status, body@, r),
{
    match check_status(status, body) {
        Err(e) => Err(e),
        Ok(_) => match Json::parse(body) {
            Some(doc) => Ok(doc.take("payload")),
            None => Err(ClientError::Mapping),
        },
    }
}

/// Decodes an unwrapped payload as a `T`.
pub fn decode_payload<T: Wire>(payload: &Json) -> (r: Result<T, ClientError>)
    ensures
        match r {
            Ok(v) => T::decoded(payload@) == Some(v@),
            Err(e) => e is Mapping && T::decoded(payload@).is_none(),
        },
{
    match T::from_json(payload) {
        Some(v) => Ok(v),
        None => Err(ClientError::Mapping),
    }
}

/// Reads a response as a `T`: unwraps it, then decodes the payload.
pub fn reply<T: Wire>(status: u16, body: &str) -> (r: Result<T, ClientError>)
    ensures
        replies_with::<T>(status, body@, r),
{
    match decode(status, body) {
        Ok(payload) => decode_payload::<T>(&payload),
        Err(e) => Err(e),
    }
}

} // verus!
