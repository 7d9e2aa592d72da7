use qa_rs::cache::{
    cache_step, cache_ttl, generate_cache_key, request_target_path, CacheAction, CacheEvent,
    CachePhase,
};

fn request(method: &str, uri: &str, auth: Option<&str>) -> CacheEvent {
    CacheEvent::Request {
        method: method.to_string(),
        uri: uri.to_string(),
        authorization: auth.map(String::from),
    }
}

#[test]
fn cache_key_format() {
    assert_eq!(
        generate_cache_key("GET", "/questions/5", Some("abc")),
        "qa:cache:GET:/questions/5:user:abc"
    );
    assert_eq!(generate_cache_key("GET", "/questions/5", None), "qa:cache:GET:/questions/5:anon");
}

#[test]
fn cache_keys_differ_between_users() {
    let a = generate_cache_key("GET", "/questions/unsolved", Some("k1"));
    let b = generate_cache_key("GET", "/questions/unsolved", Some("k2"));
    let c = generate_cache_key("GET", "/questions/unsolved", None);
    assert_ne!(a, b);
    assert_ne!(a, c);
    assert_ne!(b, c);
}

#[test]
fn ttl_per_endpoint() {
    assert_eq!(cache_ttl("/questions/unsolved?page=0&limit=20"), 60);
    assert_eq!(cache_ttl("/questions/unsolved"), 60);
    assert_eq!(cache_ttl("/questions/starred?page=1"), 60);
    assert_eq!(cache_ttl("/questions/12"), 300);
}

#[test]
fn non_get_passes_through() {
    let (phase, action) = cache_step(CachePhase::Start, request("POST", "/questions", Some("k")));
    assert_eq!(phase, CachePhase::Done);
    assert_eq!(action, CacheAction::PassThrough);
}

#[test]
fn hit_is_served_from_cache() {
    let (phase, action) = cache_step(CachePhase::Start, request("GET", "/questions/3", Some("k")));
    assert_eq!(action, CacheAction::Lookup { key: "qa:cache:GET:/questions/3:user:k".to_string() });
    let (phase, action) =
        cache_step(phase, CacheEvent::Looked { cached: Some("{\"id\":3}".to_string()) });
    assert_eq!(phase, CachePhase::Done);
    assert_eq!(action, CacheAction::ServeHit { body: "{\"id\":3}".to_string() });
}

#[test]
fn miss_runs_handler_and_stores_ok_body() {
    let (phase, _) = cache_step(CachePhase::Start, request("GET", "/questions/unsolved?page=0", None));
    let (phase, action) = cache_step(phase, CacheEvent::Looked { cached: None });
    assert_eq!(action, CacheAction::RunHandler);
    let (phase, action) = cache_step(phase, CacheEvent::Handled { status: 200 });
    assert_eq!(action, CacheAction::ReadBody);
    let (phase, action) = cache_step(phase, CacheEvent::BodyRead { body: Some("[]".to_string()) });
    assert_eq!(phase, CachePhase::Done);
    assert_eq!(
        action,
        CacheAction::StoreAndServeMiss {
            key: "qa:cache:GET:/questions/unsolved?page=0:anon".to_string(),
            value: "[]".to_string(),
            ttl: 60,
        }
    );
}

#[test]
fn error_responses_are_not_stored() {
    let (phase, _) = cache_step(CachePhase::Start, request("GET", "/questions/9", Some("k")));
    let (phase, _) = cache_step(phase, CacheEvent::Looked { cached: None });
    let (phase, action) = cache_step(phase, CacheEvent::Handled { status: 404 });
    assert_eq!(phase, CachePhase::Done);
    assert_eq!(action, CacheAction::ReturnResponse);
}

#[test]
fn unreadable_body_gives_empty_response() {
    let phase = CachePhase::AwaitingBody { key: "k".to_string(), ttl: 300 };
    let (phase, action) = cache_step(phase, CacheEvent::BodyRead { body: None });
    assert_eq!(phase, CachePhase::Done);
    assert_eq!(action, CacheAction::ServeEmpty);
}

#[test]
fn out_of_order_events_are_ignored() {
    let (phase, action) = cache_step(CachePhase::Start, CacheEvent::Handled { status: 200 });
    assert_eq!(phase, CachePhase::Start);
    assert_eq!(action, CacheAction::Ignore);
    let (phase, action) = cache_step(CachePhase::Done, request("GET", "/x", None));
    assert_eq!(phase, CachePhase::Done);
    assert_eq!(action, CacheAction::Ignore);
}

#[test]
fn cache_without_connection_holds_none() {
    let cache = qa_rs::cache::CacheState::new(None);
    assert!(cache.connection().is_none());
    assert!(cache.clone().connection().is_none());
}

#[test]
fn absolute_form_targets() {
    assert_eq!(request_target_path("http://h/questions/unsolved?page=0"), "/questions/unsolved");
    assert_eq!(request_target_path("https://h:8080/questions/7"), "/questions/7");
    assert_eq!(request_target_path("/questions/starred?x=1"), "/questions/starred");
    assert_eq!(cache_ttl("http://h/questions/unsolved?page=0"), 60);
    assert_eq!(cache_ttl("https://example.org/questions/starred"), 60);
    assert_eq!(cache_ttl("http://h/questions/3"), 300);
}

#[test]
fn repeated_request_looks_up_stored_key() {
    let (phase, _) = cache_step(CachePhase::Start, request("GET", "/questions/3", Some("k")));
    let (phase, _) = cache_step(phase, CacheEvent::Looked { cached: None });
    let (phase, _) = cache_step(phase, CacheEvent::Handled { status: 200 });
    let (_, stored) = cache_step(phase, CacheEvent::BodyRead { body: Some("b".to_string()) });
    let stored_key = match stored {
        CacheAction::StoreAndServeMiss { key, .. } => key,
        other => panic!("unexpected {:?}", other),
    };
    let (phase, lookup) = cache_step(CachePhase::Start, request("GET", "/questions/3", Some("k")));
    assert_eq!(lookup, CacheAction::Lookup { key: stored_key });
    let (_, hit) = cache_step(phase, CacheEvent::Looked { cached: Some("b".to_string()) });
    assert_eq!(hit, CacheAction::ServeHit { body: "b".to_string() });
}

#[test]
fn redis_urls_are_parsed_without_connecting() {
    assert!(qa_rs::cache::redis_client("redis://127.0.0.1:6379").is_ok());
    assert!(qa_rs::cache::redis_client("redis://user:pw@localhost:1/0").is_ok());
    assert!(qa_rs::cache::redis_client("not a url").is_err());
    assert!(qa_rs::cache::redis_client("http://127.0.0.1:6379").is_err());
}
