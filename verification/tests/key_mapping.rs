use ai_gateway::cache::CredentialCache;
use ai_gateway::key_mapper::{
    apply_resolver_response, compute_ttl, extract_bearer_token, make_auth_header, map_decode_error,
    map_fetch_error, plan_key_mapping, KeyMapperStep, ProviderAppKey, CACHE_TTL_SECS,
};

const RESOLVER: &str = "http://127.0.0.1:3000/fetch_key/";

#[test]
fn extract_bearer_token_strips_scheme() {
    assert_eq!(extract_bearer_token(Some("Bearer app-123")), Some("app-123".to_string()));
    assert_eq!(extract_bearer_token(Some("Basic xyz")), None);
    assert_eq!(extract_bearer_token(Some("Bearer ")), None);
    assert_eq!(extract_bearer_token(Some("")), None);
    assert_eq!(extract_bearer_token(None), None);
}

#[test]
fn ttl_defaults_to_fixed_maximum() {
    assert_eq!(CACHE_TTL_SECS, 3600);
    assert_eq!(compute_ttl(None, 1_700_000_000), Ok(3600));
}

#[test]
fn ttl_uses_declared_expiry_when_sooner() {
    let now = 1_700_000_000;
    assert_eq!(compute_ttl(Some(now + 30), now), Ok(30));
}

#[test]
fn ttl_is_capped_at_fixed_maximum() {
    let now = 1_700_000_000;
    assert_eq!(compute_ttl(Some(now + 7200), now), Ok(3600));
}

#[test]
fn ttl_in_the_past_is_unauthorized() {
    let now = 1_700_000_000;
    assert_eq!(compute_ttl(Some(now - 1), now), Err(401));
    assert_eq!(compute_ttl(Some(now), now), Ok(0));
}

#[test]
fn pass_through_without_resolver() {
    let cache = CredentialCache::new();
    let step = plan_key_mapping(None, Some("Bearer app-123"), &cache, 100);
    assert!(matches!(step, KeyMapperStep::PassThrough));
    let step = plan_key_mapping(Some(""), Some("Bearer app-123"), &cache, 100);
    assert!(matches!(step, KeyMapperStep::PassThrough));
}

#[test]
fn pass_through_without_bearer_token() {
    let cache = CredentialCache::new();
    let step = plan_key_mapping(Some(RESOLVER), None, &cache, 100);
    assert!(matches!(step, KeyMapperStep::PassThrough));
    let step = plan_key_mapping(Some(RESOLVER), Some("Basic xyz"), &cache, 100);
    assert!(matches!(step, KeyMapperStep::PassThrough));
    let step = plan_key_mapping(Some(RESOLVER), Some("Bearer "), &cache, 100);
    assert!(matches!(step, KeyMapperStep::PassThrough));
}

#[test]
fn first_request_fetches_second_is_cached() {
    let now = 1_700_000_000;
    let mut cache = CredentialCache::new();

    // A token never seen before must be fetched, exactly once.
    let step = plan_key_mapping(Some(RESOLVER), Some("Bearer app-123"), &cache, now);
    let (token, url) = match step {
        KeyMapperStep::NeedsFetch { token, url } => (token, url),
        other => panic!("expected a fetch, got {:?}", kind_of(&other)),
    };
    assert_eq!(token, "app-123");
    assert_eq!(url, format!("{}app-123", RESOLVER));

    let resolved = ProviderAppKey { key: "upstream-xyz".to_string(), expires: None };
    let key = apply_resolver_response(&mut cache, token, resolved, now).expect("not expired");
    assert_eq!(key, "upstream-xyz");

    // Inside the TTL window the cache answers; no second fetch.
    let step = plan_key_mapping(Some(RESOLVER), Some("Bearer app-123"), &cache, now + 3599);
    match step {
        KeyMapperStep::UseCached { upstream_key } => assert_eq!(upstream_key, "upstream-xyz"),
        other => panic!("expected the cache to answer, got {:?}", kind_of(&other)),
    }
}

#[test]
fn declared_expiry_bounds_the_cache_entry() {
    let now = 1_700_000_000;
    let mut cache = CredentialCache::new();
    let resolved = ProviderAppKey { key: "upstream-xyz".to_string(), expires: Some(now + 30) };
    apply_resolver_response(&mut cache, "app-123".to_string(), resolved, now).expect("not expired");

    assert_eq!(cache.get("app-123", now + 29), Some("upstream-xyz".to_string()));
    assert_eq!(cache.get("app-123", now + 30), None);
    assert_eq!(cache.get("app-123", now + 31), None);

    // A lookup at or past the declared expiry behaves as a miss: the next
    // request fetches again.
    let step = plan_key_mapping(Some(RESOLVER), Some("Bearer app-123"), &cache, now + 30);
    assert!(matches!(step, KeyMapperStep::NeedsFetch { .. }));
}

#[test]
fn missing_expiry_is_not_unbounded() {
    let now = 1_700_000_000;
    let mut cache = CredentialCache::new();
    let resolved = ProviderAppKey { key: "upstream-xyz".to_string(), expires: None };
    apply_resolver_response(&mut cache, "app-123".to_string(), resolved, now).expect("no expiry");

    assert_eq!(cache.get("app-123", now + CACHE_TTL_SECS - 1), Some("upstream-xyz".to_string()));
    assert_eq!(cache.get("app-123", now + CACHE_TTL_SECS), None);
}

#[test]
fn expired_resolver_key_is_unauthorized() {
    let now = 1_700_000_000;
    let mut cache = CredentialCache::new();
    let resolved = ProviderAppKey { key: "upstream-xyz".to_string(), expires: Some(now - 5) };
    let r = apply_resolver_response(&mut cache, "app-123".to_string(), resolved, now);
    assert_eq!(r, Err(401));
    assert_eq!(cache.get("app-123", now), None);
}

#[test]
fn replacement_never_merges() {
    let now = 1_700_000_000;
    let mut cache = CredentialCache::new();
    let first = ProviderAppKey { key: "key-one".to_string(), expires: Some(now + 10) };
    apply_resolver_response(&mut cache, "app-123".to_string(), first, now).expect("ok");
    let second = ProviderAppKey { key: "key-two".to_string(), expires: None };
    apply_resolver_response(&mut cache, "app-123".to_string(), second, now).expect("ok");

    assert_eq!(cache.get("app-123", now + 20), Some("key-two".to_string()));
}

#[test]
fn end_to_end_header_rewrite() {
    let now = 1_700_000_000;
    let mut cache = CredentialCache::new();

    let step = plan_key_mapping(Some(RESOLVER), Some("Bearer app-123"), &cache, now);
    let (token, _url) = match step {
        KeyMapperStep::NeedsFetch { token, url } => (token, url),
        _ => panic!("expected a fetch"),
    };
    let resolved = ProviderAppKey { key: "sk-real".to_string(), expires: Some(now + 10) };
    let key = apply_resolver_response(&mut cache, token, resolved, now).expect("not expired");
    let rewritten = make_auth_header(&key).expect("valid header value");
    assert_eq!(rewritten, "Bearer sk-real");

    // Once the entry expires, a repeat request re-invokes the resolver.
    let step = plan_key_mapping(Some(RESOLVER), Some("Bearer app-123"), &cache, now + 10);
    assert!(matches!(step, KeyMapperStep::NeedsFetch { .. }));
}

#[test]
fn fetch_failures_map_to_fixed_statuses() {
    assert_eq!(map_fetch_error(true), 502);
    assert_eq!(map_fetch_error(false), 500);
    assert_eq!(map_decode_error(Some(404)), 404);
    assert_eq!(map_decode_error(None), 502);
}

#[test]
fn unusable_upstream_key_fails_internal() {
    assert_eq!(make_auth_header("sk\nbad"), Err(500));
    assert_eq!(make_auth_header("sk-ok"), Ok("Bearer sk-ok".to_string()));
}

fn kind_of(step: &KeyMapperStep) -> &'static str {
    match step {
        KeyMapperStep::PassThrough => "PassThrough",
        KeyMapperStep::UseCached { .. } => "UseCached",
        KeyMapperStep::NeedsFetch { .. } => "NeedsFetch",
    }
}
