//! Rejections of a rate limiter, and how each one is written out for the
//! transport that carries it: as a plain HTTP response or as a gRPC status.
//!
//! A [`GovernorError`] says why a request was turned away. Rendering takes
//! it by value, so one rejection is written out once:
//! [`GovernorError::render_http`] gives a status, a body and headers,
//! [`GovernorError::render_rpc`] gives a `tonic::Status`, and
//! [`GovernorError::as_response`] gives the response that carries that
//! status. What each of them returns is stated over [`Rejection`], the
//! rejection as plain data.
//!
//! The modules `http_model` and `grpc_model` hold all that is taken on trust
//! from the `http` and `tonic` crates.

pub mod decimal;
pub mod errors;
pub mod grpc_model;
pub mod grpc_status;
pub mod http_model;
pub mod http_response;
pub mod render;

pub use errors::{GovernorError, Rejection};
pub use grpc_model::{RpcCode, METADATA_NAMES_MAX};
pub use http_response::{HttpResponse, HttpResponseView};
pub use render::{GrpcRenderer, HttpRenderer, Renderer};
