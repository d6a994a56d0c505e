use ragkit_desktop::json::{JsonObject, JsonValue};
use ragkit_desktop::launch::LaunchStrategy;
use ragkit_desktop::probe::HealthReply;
use ragkit_desktop::proxy::{
    backend_error_message, backend_request, settle, HttpRequest, Method, ProxyError,
    ProxyRequest, Reply, RequestBody,
};
use ragkit_desktop::status::HttpStatus;
use ragkit_desktop::supervisor::{BackendSupervisor, StartEvent};

fn status(code: u16) -> HttpStatus {
    HttpStatus::new(code).unwrap()
}

fn ready_on_8100() -> BackendSupervisor {
    let mut sup = BackendSupervisor::new();
    sup.begin_start(LaunchStrategy::Production);
    sup.on_start_event(StartEvent::BindResult(true));
    sup.on_start_event(StartEvent::Spawned);
    sup.on_start_event(StartEvent::Health(HealthReply::Answered(status(200))));
    assert_eq!(sup.port(), 8100);
    sup
}

#[test]
fn status_accepts_three_digit_codes_only() {
    assert!(HttpStatus::new(99).is_none());
    assert!(HttpStatus::new(0).is_none());
    assert!(HttpStatus::new(1000).is_none());
    assert!(HttpStatus::new(u16::MAX).is_none());
    assert_eq!(HttpStatus::new(100).unwrap().code(), 100);
    assert_eq!(HttpStatus::new(999).unwrap().code(), 999);
    assert_eq!(HttpStatus::new(404).unwrap().code(), 404);
}

#[test]
fn status_success_is_200_to_299() {
    for code in 100u16..1000 {
        assert_eq!(status(code).is_success(), (200..300).contains(&code), "code {}", code);
    }
}

#[test]
fn status_display_is_code_and_reason() {
    assert_eq!(status(200).display(), "200 OK");
    assert_eq!(status(404).display(), "404 Not Found");
    assert_eq!(status(500).display(), "500 Internal Server Error");
    assert_eq!(status(999).display(), "999 <unknown status code>");
}

#[test]
fn status_display_opens_with_code_and_space() {
    for code in 100u16..1000 {
        let shown = status(code).display();
        assert!(shown.starts_with(&format!("{} ", code)), "code {}", code);
    }
}

#[test]
fn request_resolves_path_against_stored_port() {
    let sup = ready_on_8100();
    let wire = backend_request(
        &sup,
        ProxyRequest {
            method: Method::Get,
            path: "/api/settings".to_string(),
            body: RequestBody::Empty,
        },
    );
    assert_eq!(
        wire,
        HttpRequest {
            method: Method::Get,
            url: "http://127.0.0.1:8100/api/settings".to_string(),
            body: RequestBody::Empty,
        }
    );
}

#[test]
fn request_keeps_method_and_body() {
    let sup = ready_on_8100();
    let body = JsonObject::new().with("model_name", JsonValue::text("llama3"));
    let wire = backend_request(
        &sup,
        ProxyRequest {
            method: Method::Delete,
            path: "/api/ollama/models".to_string(),
            body: RequestBody::Object(body),
        },
    );
    assert_eq!(wire.method, Method::Delete);
    assert_eq!(wire.url, "http://127.0.0.1:8100/api/ollama/models");
    assert_eq!(
        wire.body,
        RequestBody::Object(JsonObject::new().with("model_name", JsonValue::text("llama3")))
    );
}

#[test]
fn request_before_start_goes_to_port_zero() {
    let sup = BackendSupervisor::new();
    let wire = backend_request(
        &sup,
        ProxyRequest { method: Method::Get, path: "/health".to_string(), body: RequestBody::Empty },
    );
    assert_eq!(wire.url, "http://127.0.0.1:0/health");
}

#[test]
fn success_reply_settles_to_its_body() {
    let outcome = settle(Reply::Answered { status: status(200), body: "[1,2]".to_string() });
    assert_eq!(outcome, Ok("[1,2]".to_string()));
    let outcome = settle(Reply::Answered { status: status(299), body: String::new() });
    assert_eq!(outcome, Ok(String::new()));
}

#[test]
fn failure_status_settles_to_backend_error() {
    let outcome = settle(Reply::Answered { status: status(500), body: "kb not found".to_string() });
    assert_eq!(
        outcome,
        Err(ProxyError::BackendError { status: status(500), body: "kb not found".to_string() })
    );
    for code in [100u16, 199, 300, 301, 404, 999] {
        let outcome = settle(Reply::Answered { status: status(code), body: "x".to_string() });
        assert_eq!(
            outcome,
            Err(ProxyError::BackendError { status: status(code), body: "x".to_string() })
        );
    }
}

#[test]
fn missing_reply_settles_to_request_failed() {
    let outcome = settle(Reply::Unreachable("connection refused".to_string()));
    assert_eq!(outcome, Err(ProxyError::RequestFailed("connection refused".to_string())));
}

#[test]
fn backend_error_message_holds_status_and_body() {
    let error = ProxyError::BackendError { status: status(500), body: "kb not found".to_string() };
    let message = error.message();
    assert_eq!(message, "Backend error (500 Internal Server Error): kb not found");
    assert!(message.contains("500"));
    assert!(message.contains("kb not found"));
}

#[test]
fn backend_error_message_with_empty_body() {
    let error = ProxyError::BackendError { status: status(404), body: String::new() };
    assert_eq!(error.message(), "Backend error (404 Not Found): ");
}

#[test]
fn backend_error_message_from_parts() {
    assert_eq!(backend_error_message("418 I'm a teapot", "no"), "Backend error (418 I'm a teapot): no");
    assert_eq!(backend_error_message("", ""), "Backend error (): ");
}

#[test]
fn request_failed_message() {
    let error = ProxyError::RequestFailed("error sending request".to_string());
    assert_eq!(error.message(), "Request failed: error sending request");
}

#[test]
fn decode_failed_message() {
    let error = ProxyError::DecodeFailed("missing field `ok`".to_string());
    assert_eq!(error.message(), "Failed to parse response: missing field `ok`");
}

#[test]
fn messages_are_never_empty() {
    assert!(!ProxyError::RequestFailed(String::new()).message().is_empty());
    assert!(!ProxyError::DecodeFailed(String::new()).message().is_empty());
    assert!(!ProxyError::BackendError { status: status(100), body: String::new() }
        .message()
        .is_empty());
}
