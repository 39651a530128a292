//! The rejection as a gRPC status, and as the response that carries it.

use crate::errors::{wait_message, wait_text, GovernorError, Rejection};
use crate::grpc_model::{
    grpc_headers, response_headers, status_into_http, status_new, status_parts,
    status_with_metadata, RpcCode, StatusParts, METADATA_NAMES_MAX,
};
use crate::http_model::{header_entries, header_names_len, HeaderEntry};
use http::{HeaderMap, Response};
use tonic::body::Body;
use tonic::Status;
use vstd::prelude::*;
use vstd::string::*;

verus! {

/// The metadata that a status takes over from the headers of a rejection:
/// all of them, as they are, unless there are none, or more names than a
/// status can be sent with. Then the status goes without.
pub open spec fn forwarded_metadata(headers: Option<Seq<HeaderEntry>>) -> Seq<HeaderEntry> {
    match headers {
        Some(given) => if given.len() <= METADATA_NAMES_MAX {
            given
        } else {
            Seq::empty()
        },
        None => Seq::empty(),
    }
}

impl Rejection {
    /// The code that the rejection is reported under: `Unavailable` for a
    /// used-up quota, `Internal` for everything else. A status that an
    /// extractor chose for HTTP is not taken over.
    pub open spec fn rpc_code(self) -> RpcCode {
        match self {
            Rejection::TooManyRequests { .. } => RpcCode::Unavailable,
            Rejection::UnableToExtractKey => RpcCode::Internal,
            Rejection::Other { .. } => RpcCode::Internal,
        }
    }

    /// The message of the status. An extractor's failure has the message it
    /// gave, and an empty one where it gave none.
    pub open spec fn rpc_message(self) -> Seq<char> {
        match self {
            Rejection::TooManyRequests { wait_time, .. } => wait_text(wait_time),
            Rejection::UnableToExtractKey => "Unable To Extract Key!"@,
            Rejection::Other { msg: Some(text), .. } => text,
            Rejection::Other { msg: None, .. } => Seq::empty(),
        }
    }

    /// The rejection written out as a gRPC status.
    pub open spec fn rpc_status(self) -> StatusParts {
        StatusParts {
            code: self.rpc_code().number(),
            message: self.rpc_message(),
            details: Seq::empty(),
            metadata: forwarded_metadata(self.headers()),
        }
    }
}

/// A status of the given code and message that carries `headers` as
/// metadata as far as it can.
fn status_with_headers(code: RpcCode, message: String, headers: Option<HeaderMap>) -> (status:
    Status)
    ensures
        status_parts(status) == (StatusParts {
            code: code.number(),
            message: message@,
            details: Seq::empty(),
            metadata: forwarded_metadata(
                match headers {
                    Some(given) => Some(header_entries(given)),
                    None => None,
                },
            ),
        }),
{
    match headers {
        Some(given) => {
            if header_names_len(&given) <= METADATA_NAMES_MAX {
                status_with_metadata(code, message, given)
            } else {
                status_new(code, message)
            }
        },
        None => status_new(code, message),
    }
}

impl GovernorError {
    /// Writes the rejection out as a gRPC status, and uses it up in doing
    /// so.
    pub fn render_rpc(self) -> (status: Status)
        ensures
            status_parts(status) == self@.rpc_status(),
    {
        match self {
            GovernorError::TooManyRequests { wait_time, headers } => status_with_headers(
                RpcCode::Unavailable,
                wait_message(wait_time),
                headers,
            ),
            GovernorError::UnableToExtractKey => status_new(
                RpcCode::Internal,
                String::from_str("Unable To Extract Key!"),
            ),
            GovernorError::Other { code: _, msg, headers } => {
                let message = match msg {
                    Some(text) => text,
                    None => String::new(),
                };
                status_with_headers(RpcCode::Internal, message, headers)
            },
        }
    }

    /// Writes the rejection out as the HTTP response that carries its gRPC
    /// status, and uses it up in doing so.
    pub fn as_response(self) -> (response: Response<Body>)
        ensures
            response_headers(response) == grpc_headers(self@.rpc_status()),
    {
        status_into_http(self.render_rpc())
    }
}

/// A failure in an extractor's own terms that has a message is reported
/// under `Internal`, gRPC code 13, with that message, whichever status the
/// extractor chose and whatever headers it gave: the status it chose is for
/// HTTP alone.
pub proof fn lemma_custom_is_internal(code: u16, text: Seq<char>, headers: Option<Seq<HeaderEntry>>)
    ensures
        (Rejection::Other { code, msg: Some(text), headers }).rpc_code() == RpcCode::Internal,
        (Rejection::Other { code, msg: Some(text), headers }).rpc_status().code == 13,
        (Rejection::Other { code, msg: Some(text), headers }).rpc_status().message == text,
{
}

} // verus!
