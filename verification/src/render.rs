//! One way to write a rejection out, for each transport that a service may
//! speak. A service picks its renderer once, where it is built.

use crate::errors::GovernorError;
use crate::grpc_model::status_parts;
use crate::http_response::HttpResponse;
use tonic::Status;
use vstd::prelude::*;

verus! {

/// Writes rejections out for one transport.
pub trait Renderer {
    /// What the transport sends back.
    type Response;

    /// Whether `response` is what this transport makes of `error`.
    spec fn renders(error: GovernorError, response: Self::Response) -> bool;

    /// Writes `error` out, and uses it up in doing so.
    fn render(error: GovernorError) -> (response: Self::Response)
        ensures
            Self::renders(error, response),
    ;
}

/// Rejections as plain HTTP responses.
pub struct HttpRenderer;

/// Rejections as gRPC statuses.
pub struct GrpcRenderer;

impl Renderer for HttpRenderer {
    type Response = HttpResponse;

    open spec fn renders(error: GovernorError, response: HttpResponse) -> bool {
        &&& response@ == error@.http_response()
        &&& error matches GovernorError::Other { code, .. } ==> response.status == code
        &&& error.headers() matches Some(given) ==> response.headers == given
    }

    fn render(error: GovernorError) -> (response: HttpResponse) {
        error.render_http()
    }
}

impl Renderer for GrpcRenderer {
    type Response = Status;

    open spec fn renders(error: GovernorError, response: Status) -> bool {
        status_parts(response) == error@.rpc_status()
    }

    fn render(error: GovernorError) -> (response: Status) {
        error.render_rpc()
    }
}

} // verus!
