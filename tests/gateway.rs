use ccv::config::{OpenAICompatible, ProxyConfig};
use ccv::error::ProxyError;
use ccv::gateway::{upstream_result, Gateway, Intake};
use ccv::limiter::RateLimiter;
use ccv::models::{AnthropicContent, AnthropicMessage, AnthropicRequest};
use ccv::proxy::ProxyHandler;

fn limits(max: Option<u64>, rate: Option<u32>) -> ProxyConfig {
    ProxyConfig { timeout_seconds: Some(30), max_request_size: max, rate_limit: rate }
}

fn gateway(max: Option<u64>, rate: Option<u32>) -> Gateway {
    let providers = vec![OpenAICompatible {
        base_url: "http://backend".to_string(),
        models: vec!["m".to_string()],
    }];
    Gateway::new(ProxyHandler::new(providers, limits(max, rate)), 60, 1000)
}

fn request(model: &str) -> AnthropicRequest {
    AnthropicRequest {
        model: model.to_string(),
        max_tokens: 16,
        messages: vec![AnthropicMessage {
            role: "user".to_string(),
            content: AnthropicContent::String("hi".to_string()),
        }],
        system: None,
        temperature: None,
        top_p: None,
        top_k: None,
        stop_sequences: None,
        stream: None,
    }
}

#[test]
fn oversized_body_is_not_parsed() {
    let mut g = gateway(Some(100), None);
    assert!(g.intake(100) == Intake::Parse);
    assert!(g.intake(101) == Intake::Reject(ProxyError::PayloadTooLarge));
    assert!(g.intake(5000) == Intake::Reject(ProxyError::PayloadTooLarge));
    assert_eq!(g.skipped_parses(), 2);
}

#[test]
fn no_ceiling_parses_everything() {
    let mut g = gateway(None, None);
    assert!(g.intake(u64::MAX) == Intake::Parse);
    assert_eq!(g.skipped_parses(), 0);
}

#[test]
fn malformed_body_is_rejected() {
    let mut g = gateway(None, Some(1));
    assert!(matches!(g.prepare(None, 1000), Err(ProxyError::MalformedRequest)));
    // the malformed call took no room from the limiter
    assert!(g.prepare(Some(request("m")), 1000).is_ok());
}

#[test]
fn request_after_limit_is_rate_limited() {
    let mut g = gateway(None, Some(2));
    assert!(g.prepare(Some(request("m")), 1000).is_ok());
    assert!(g.prepare(Some(request("m")), 1010).is_ok());
    assert!(matches!(g.prepare(Some(request("m")), 1020), Err(ProxyError::RateLimited)));
    // the next window has room again
    assert!(g.prepare(Some(request("m")), 1060).is_ok());
}

#[test]
fn prepared_call_goes_to_provider() {
    let mut g = gateway(None, None);
    let p = g.prepare(Some(request("m")), 1000).ok().unwrap();
    assert_eq!(p.base_url, "http://backend");
    assert_eq!(p.model, "m");
    assert_eq!(p.request.model, "m");
    assert_eq!(p.request.max_tokens, Some(16));
}

#[test]
fn unknown_model_is_a_routing_miss() {
    let mut g = gateway(None, None);
    assert!(matches!(g.prepare(Some(request("other")), 1000), Err(ProxyError::NoProviderForModel)));
}

#[test]
fn limiter_refuses_call_after_limit() {
    let mut l = RateLimiter::new(Some(3), 10, 0);
    let got: Vec<bool> = [0u64, 9, 1, 5, 2].iter().map(|t| l.try_acquire(*t)).collect();
    assert_eq!(got, vec![true, true, true, false, false]);
    assert!(l.try_acquire(10));
}

#[test]
fn unlimited_limiter_admits_all() {
    let mut l = RateLimiter::new(None, 10, 0);
    for t in 0..1000u64 {
        assert!(l.try_acquire(t % 7));
    }
}

#[test]
fn upstream_outcomes() {
    assert!(upstream_result(false, Some(200)).is_ok());
    assert!(upstream_result(false, Some(204)).is_ok());
    assert!(matches!(upstream_result(true, Some(200)), Err(ProxyError::UpstreamTimeout)));
    assert!(matches!(
        upstream_result(false, Some(503)),
        Err(ProxyError::UpstreamError { status: Some(503) })
    ));
    assert!(matches!(upstream_result(false, None), Err(ProxyError::UpstreamError { status: None })));
}

#[test]
fn error_envelope() {
    let e = ProxyError::UpstreamError { status: Some(502) };
    assert_eq!(e.status_code(), 502);
    let r = e.to_response("bad gateway".to_string());
    assert_eq!(r.error.message, "bad gateway");
    assert_eq!(r.error.error_type, "upstream_error");
    assert_eq!(r.error.code.as_deref(), Some("502"));
    let r = ProxyError::RateLimited.to_response("slow down".to_string());
    assert_eq!(r.error.error_type, "rate_limited");
    assert!(r.error.code.is_none());
    assert_eq!(ProxyError::RateLimited.status_code(), 429);
    assert_eq!(ProxyError::NoProviderForModel.status_code(), 404);
    assert_eq!(ProxyError::MalformedRequest.status_code(), 400);
    assert_eq!(ProxyError::UnsupportedContent.status_code(), 400);
    assert_eq!(ProxyError::UpstreamTimeout.status_code(), 504);
    assert_eq!(ProxyError::PayloadTooLarge.status_code(), 413);
}
