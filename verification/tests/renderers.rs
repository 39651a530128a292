use governor_error::{GovernorError, GrpcRenderer, HttpRenderer, Renderer};
use http::header::HeaderValue;
use http::{HeaderMap, StatusCode};
use tonic::Code;

fn blocked() -> GovernorError {
    GovernorError::Other {
        code: StatusCode::FORBIDDEN,
        msg: Some("blocked".to_string()),
        headers: None,
    }
}

#[test]
fn http_renderer_keeps_the_custom_status() {
    let response = HttpRenderer::render(blocked());
    assert_eq!(response.status.as_u16(), 403);
    assert_eq!(response.body, "blocked");
}

#[test]
fn grpc_renderer_reports_internal() {
    let status = GrpcRenderer::render(blocked());
    assert_eq!(status.code(), Code::Internal);
    assert_eq!(status.message(), "blocked");
}

#[test]
fn renderers_agree_on_the_wait_text() {
    let mut headers = HeaderMap::new();
    headers.insert("retry-after", HeaderValue::from_static("7"));
    let error = GovernorError::TooManyRequests { wait_time: 7, headers: Some(headers.clone()) };
    let response = HttpRenderer::render(error.clone());
    let status = GrpcRenderer::render(error);
    assert_eq!(response.status.as_u16(), 429);
    assert_eq!(status.code(), Code::Unavailable);
    assert_eq!(response.body, "Too Many Requests! Wait for 7s");
    assert_eq!(status.message(), response.body);
    assert_eq!(response.headers, headers);
    assert_eq!(status.metadata().clone().into_headers(), headers);
}

#[test]
fn renderers_agree_with_the_methods() {
    let by_method = GovernorError::UnableToExtractKey.render_http();
    let by_renderer = HttpRenderer::render(GovernorError::UnableToExtractKey);
    assert_eq!(by_method.status, by_renderer.status);
    assert_eq!(by_method.body, by_renderer.body);
    assert_eq!(by_method.headers, by_renderer.headers);
    let by_method = GovernorError::UnableToExtractKey.render_rpc();
    let by_renderer = GrpcRenderer::render(GovernorError::UnableToExtractKey);
    assert_eq!(by_method.code(), by_renderer.code());
    assert_eq!(by_method.message(), by_renderer.message());
}

fn reject_with<R: Renderer>(error: GovernorError) -> R::Response {
    R::render(error)
}

#[test]
fn a_service_picks_its_renderer_by_type() {
    let response = reject_with::<HttpRenderer>(GovernorError::UnableToExtractKey);
    assert_eq!(response.status.as_u16(), 500);
    assert_eq!(response.body, "Unable To Extract Key!");
    let status = reject_with::<GrpcRenderer>(GovernorError::UnableToExtractKey);
    assert_eq!(status.code(), Code::Internal);
    assert_eq!(status.message(), "Unable To Extract Key!");
}
