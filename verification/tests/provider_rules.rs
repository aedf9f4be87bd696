use ai_gateway::error::AppError;
use ai_gateway::fireworks::{lookup_provider, FireworksProvider};
use ai_gateway::headers::Header;

fn header(name: &str, value: &str) -> Header {
    Header { name: name.to_string(), value: value.to_string() }
}

#[test]
fn transform_path_strips_version_prefix() {
    let p = FireworksProvider::new();
    assert_eq!(p.transform_path("/v1/chat/completions"), "/chat/completions");
}

#[test]
fn transform_path_leaves_other_paths() {
    let p = FireworksProvider::new();
    assert_eq!(p.transform_path("/health"), "/health");
    assert_eq!(p.transform_path("/v1"), "/v1");
    assert_eq!(p.transform_path("v1/x"), "v1/x");
}

#[test]
fn transform_path_strips_repeated_prefix() {
    let p = FireworksProvider::new();
    assert_eq!(p.transform_path("/v1/v1/models"), "/models");
    assert_eq!(p.transform_path("/v1/v1"), "");
}

#[test]
fn outbound_url_composes_base_and_path() {
    let p = FireworksProvider::new();
    assert_eq!(
        p.outbound_url("/v1/chat/completions"),
        "https://api.fireworks.ai/inference/v1/chat/completions"
    );
    assert_eq!(p.base_url(), "https://api.fireworks.ai/inference/v1");
    assert_eq!(p.name(), "fireworks");
}

#[test]
fn process_headers_requires_credential() {
    let p = FireworksProvider::new();
    let r = p.process_headers(&vec![header("content-type", "application/json")]);
    let e = r.err().expect("must fail without authorization");
    assert!(matches!(e, AppError::MissingApiKey));
    assert_eq!(e.status_code(), 401);
    let body = e.body_json();
    assert!(body.contains("\"type\":\"MissingApiKey\""));
}

#[test]
fn process_headers_builds_full_set() {
    let p = FireworksProvider::new();
    let original = vec![
        header("host", "gateway.local"),
        header("authorization", "Bearer sk-123"),
        header("x-extra", "dropped"),
    ];
    let out = p.process_headers(&original).expect("must succeed");
    assert_eq!(out.len(), 3);
    assert_eq!(out[0].name, "content-type");
    assert_eq!(out[0].value, "application/json");
    assert_eq!(out[1].name, "accept");
    assert_eq!(out[1].value, "application/json");
    assert_eq!(out[2].name, "authorization");
    assert_eq!(out[2].value, "Bearer sk-123");
}

#[test]
fn process_headers_rejects_unusable_value() {
    let p = FireworksProvider::new();
    let r = p.process_headers(&vec![header("authorization", "Bearer bad\nkey")]);
    let e = r.err().expect("must fail on a value with a control character");
    assert!(matches!(e, AppError::InvalidHeader));
    assert_eq!(e.status_code(), 400);
}

#[test]
fn lookup_provider_known_name() {
    let p = lookup_provider("fireworks").expect("fireworks is registered");
    assert_eq!(p.base_url(), "https://api.fireworks.ai/inference/v1");
}

#[test]
fn lookup_provider_unknown_name() {
    let e = lookup_provider("openai").err().expect("not registered");
    assert!(matches!(e, AppError::UnsupportedProvider));
    assert_eq!(e.status_code(), 400);
    assert!(e.body_json().contains("\"type\":\"UnsupportedProvider\""));
}
