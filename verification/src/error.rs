//! The ways in which an operation can fail.

use vstd::prelude::*;

use crate::number::{format_u64, nat_text};

verus! {

/// Why an operation produced no result.
#[derive(Debug, PartialEq)]
pub enum ClientError {
    /// The request could not be delivered or no response arrived: a
    /// connection failure or a timeout. Raised by the transport.
    Transport(String),
    /// The server answered with a status outside 200..=299. The body is
    /// carried along untouched.
    Api { status: u16, body: String },
    /// The response body is not a JSON document, or its payload lacks what
    /// the expected record requires.
    Mapping,
    /// The request could not be formed: the address or the body has no valid
    /// rendering.
    Request,
}

impl ClientError {
    /// A one-line description.
    pub fn describe(&self) -> (r: String)
        ensures
            r@ == (match self {
                ClientError::Transport(reason) => "transport error: "@ + reason@,
                ClientError::Api { status, body } => "api error "@ + nat_text(status as nat) + ": "@
                    + body@,
                ClientError::Mapping => "mapping error"@,
                ClientError::Request => "request error"@,
            }),
    {
        match self {
            ClientError::Transport(reason) => String::from_str("transport error: ").concat(
                reason.as_str(),
            ),
            ClientError::Api { status, body } => {
                let code = format_u64(*status as u64);
                String::from_str("api error ").concat(code.as_str()).concat(": ").concat(
                    body.as_str(),
                )
            },
            ClientError::Mapping => String::from_str("mapping error"),
            ClientError::Request => String::from_str("request error"),
        }
    }
}

} // verus!
