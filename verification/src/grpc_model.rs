//! What this library takes on trust from the `tonic` crate: its status, how
//! one is made, and the HTTP response that `tonic` lowers it to.

use crate::http_model::{header_entries, HeaderEntry};
use http::{HeaderMap, Response};
use tonic::body::Body;
use tonic::Status;
use vstd::prelude::*;

verus! {

/// `tonic::Status`, a gRPC status. Held as an opaque value; what it holds is
/// spoken of through [`status_parts`].
#[verifier::external_type_specification]
#[verifier::external_body]
pub struct ExStatus(tonic::Status);

/// `tonic::body::Body`, the body type of the responses that `tonic` sends.
/// Never looked into.
#[verifier::external_type_specification]
#[verifier::external_body]
pub struct ExBody(tonic::body::Body);

/// `http::Response`, an HTTP response with a body of type `T`. Held as an
/// opaque value; its headers are spoken of through [`response_headers`].
#[verifier::external_type_specification]
#[verifier::external_body]
#[verifier::reject_recursive_types(T)]
pub struct ExResponse<T>(http::Response<T>);

/// The status codes that a rejection is reported under.
#[derive(Debug, Clone, Copy, PartialEq, Eq)]
pub enum RpcCode {
    /// The service cannot take the call now: gRPC code 14.
    Unavailable,
    /// Something is broken on the serving side: gRPC code 13.
    Internal,
}

impl RpcCode {
    /// The number that gRPC gives the code, which is the discriminant of the
    /// variant of `tonic::Code` of the same name.
    pub open spec fn number(self) -> int {
        match self {
            RpcCode::Unavailable => 14,
            RpcCode::Internal => 13,
        }
    }
}

/// The parts of a gRPC status: the number of its code, its message, its
/// binary details, and its metadata as header entries.
pub struct StatusParts {
    pub code: int,
    pub message: Seq<char>,
    pub details: Seq<u8>,
    pub metadata: Seq<HeaderEntry>,
}

/// What a `tonic::Status` holds: the number of the code that
/// `Status::code` gives back, and what `Status::message`, `Status::details`
/// and `Status::metadata` give back.
pub uninterp spec fn status_parts(status: Status) -> StatusParts;

/// The headers of an `http::Response` with a `tonic` body: the entries of
/// the map that `Response::headers` gives back.
pub uninterp spec fn response_headers(response: Response<Body>) -> Seq<HeaderEntry>;

/// The headers under which `tonic::Status::into_http` sends a status with
/// the given parts: the content type of gRPC, the metadata without the names
/// that gRPC reserves, the code, the message in percent-encoding where there
/// is one, and the details in base64 where there are any.
pub uninterp spec fn grpc_headers(status: StatusParts) -> Seq<HeaderEntry>;

/// The most header names that a status may carry as metadata for
/// [`status_into_http`] to send it. `tonic` writes the metadata and up to
/// four names of its own into a fresh `http::HeaderMap`, and panics where
/// the map refuses one. The map refuses a name only when its table would
/// have to grow past 32768 slots, and a table of that size grows only once
/// a fifth of its slots are taken, that is from 6554 names on. The limit
/// stays well below that.
pub const METADATA_NAMES_MAX: usize = 4096;

/// `tonic::Status::new`: a status of the given code and message, with no
/// details and no metadata.
#[verifier::external_body]
pub(crate) fn status_new(code: RpcCode, message: String) -> (status: Status)
    ensures
        status_parts(status) == (StatusParts {
            code: code.number(),
            message: message@,
            details: Seq::empty(),
            metadata: Seq::empty(),
        }),
{
    let code = match code {
        RpcCode::Unavailable => tonic::Code::Unavailable,
        RpcCode::Internal => tonic::Code::Internal,
    };
    Status::new(code, message)
}

/// `tonic::Status::with_metadata`, on the metadata that
/// `tonic::metadata::MetadataMap::from_headers` makes of a header map: a
/// status of the given code and message, with no details, whose metadata are
/// the headers as they were given.
#[verifier::external_body]
pub(crate) fn status_with_metadata(code: RpcCode, message: String, headers: HeaderMap) -> (status:
    Status)
    ensures
        status_parts(status) == (StatusParts {
            code: code.number(),
            message: message@,
            details: Seq::empty(),
            metadata: header_entries(headers),
        }),
{
    let code = match code {
        RpcCode::Unavailable => tonic::Code::Unavailable,
        RpcCode::Internal => tonic::Code::Internal,
    };
    Status::with_metadata(code, message, tonic::metadata::MetadataMap::from_headers(headers))
}

/// `tonic::Status::into_http`, with `tonic`'s own body type: the response
/// carries the headers that stand for the status. The metadata must be few
/// enough for the response's header map to take them.
#[verifier::external_body]
pub(crate) fn status_into_http(status: Status) -> (response: Response<Body>)
    requires
        status_parts(status).metadata.len() <= METADATA_NAMES_MAX,
    ensures
        response_headers(response) == grpc_headers(status_parts(status)),
{
    status.into_http()
}

} // verus!
