use rand::SeedableRng;
use qa_rs::app_error::AppError;
use qa_rs::auth::{
    check_current_api_key, generate_api_key, question_found, get_api_key_from_headers, rate_limit_key,
    registration_error, require_api_key, require_question_exists, resolve_user, star_error,
    unsolved_requested, verify_answer_ownership, verify_question_ownership, RequestHeaders, User,
};
use qa_rs::pagination::Pagination;
use qa_rs::server_config::{sqlite_file_path, EnvOverrides, ServerConfig};

fn headers(a: Option<&str>, x: Option<&str>) -> RequestHeaders {
    RequestHeaders { authorization: a.map(String::from), x_api_key: x.map(String::from) }
}

fn user(id: i64, key: &str) -> User {
    User { id, username: "alice".to_string(), api_key: key.to_string() }
}

#[test]
fn error_status_codes() {
    assert_eq!(AppError::Unauthorized("x").status_code(), 401);
    assert_eq!(AppError::Forbidden("x").status_code(), 403);
    assert_eq!(AppError::NotFound("x").status_code(), 404);
    assert_eq!(AppError::Conflict("x").status_code(), 409);
    assert_eq!(AppError::Internal("boom".to_string()).status_code(), 500);
    assert_eq!(AppError::Conflict("username already exists").message(), "username already exists");
    assert_eq!(AppError::internal("db down".to_string()).message(), "db down");
}

#[test]
fn authorization_header_wins() {
    assert_eq!(get_api_key_from_headers(&headers(Some("a"), Some("b"))), Some("a"));
    assert_eq!(get_api_key_from_headers(&headers(None, Some("b"))), Some("b"));
    assert_eq!(get_api_key_from_headers(&headers(None, None)), None);
}

#[test]
fn authentication_steps() {
    assert_eq!(require_api_key(&headers(None, None)), Err(AppError::Unauthorized("missing api key")));
    assert_eq!(require_api_key(&headers(None, Some("k"))), Ok("k"));
    assert_eq!(resolve_user(None), Err(AppError::Unauthorized("invalid api key")));
    assert_eq!(resolve_user(Some(user(3, "k"))), Ok(user(3, "k")));
}

#[test]
fn ownership_rules() {
    assert_eq!(verify_question_ownership(Some(1), 1, "no"), Ok(()));
    assert_eq!(verify_question_ownership(Some(2), 1, "no"), Err(AppError::Forbidden("no")));
    assert_eq!(verify_question_ownership(None, 1, "no"), Err(AppError::NotFound("question not found")));
    assert_eq!(verify_answer_ownership(Some(5), 5), Ok(()));
    assert_eq!(
        verify_answer_ownership(Some(6), 5),
        Err(AppError::Forbidden("can only delete your own answers"))
    );
    assert_eq!(verify_answer_ownership(None, 5), Err(AppError::NotFound("answer not found")));
}

#[test]
fn current_key_must_match() {
    assert_eq!(check_current_api_key(&user(1, "abc"), "abc"), Ok(()));
    assert_eq!(
        check_current_api_key(&user(1, "abc"), "abd"),
        Err(AppError::Unauthorized("invalid current api key"))
    );
}

#[test]
fn answer_needs_question() {
    assert_eq!(require_question_exists(true), Ok(()));
    assert_eq!(require_question_exists(false), Err(AppError::NotFound("question not found")));
}

#[test]
fn insert_failures_are_classified() {
    assert_eq!(
        registration_error("UNIQUE constraint failed: users.username".to_string()),
        AppError::Conflict("username already exists")
    );
    assert_eq!(
        registration_error("disk I/O error".to_string()),
        AppError::Internal("disk I/O error".to_string())
    );
    assert_eq!(
        star_error("FOREIGN KEY constraint failed".to_string()),
        AppError::NotFound("question not found")
    );
    assert_eq!(star_error("busy".to_string()), AppError::Internal("busy".to_string()));
}

#[test]
fn unsolved_parameter() {
    assert!(unsolved_requested(Some("true")));
    assert!(!unsolved_requested(Some("false")));
    assert!(!unsolved_requested(Some("TRUE")));
    assert!(!unsolved_requested(None));
}

#[test]
fn rate_limit_buckets() {
    assert_eq!(rate_limit_key(Some("key1"), Some("1.2.3.4")), "key1");
    assert_eq!(rate_limit_key(None, Some("1.2.3.4")), "ip:1.2.3.4");
    assert_eq!(rate_limit_key(None, None), "anonymous");
}

#[test]
fn api_keys_are_32_alphanumerics() {
    let a = generate_api_key().unwrap();
    let b = generate_api_key().unwrap();
    assert_eq!(a.chars().count(), 32);
    assert!(a.chars().all(|c| c.is_ascii_alphanumeric()));
    assert!(b.chars().all(|c| c.is_ascii_alphanumeric()));
    assert_ne!(a, b);
}

#[test]
fn pagination_limits_and_offsets() {
    let p = Pagination { page: 0, limit: 0 };
    assert_eq!(p.effective_limit(20), 20);
    assert_eq!(p.offset(20), 0);
    let p = Pagination { page: 2, limit: 50 };
    assert_eq!(p.effective_limit(20), 50);
    assert_eq!(p.offset(20), 100);
    let p = Pagination { page: 3, limit: 101 };
    assert_eq!(p.effective_limit(20), 20);
    assert_eq!(p.offset(20), 60);
    let p = Pagination { page: -4, limit: 100 };
    assert_eq!(p.effective_limit(20), 100);
    assert_eq!(p.offset(20), 0);
    let p = Pagination { page: 1, limit: -5 };
    assert_eq!(p.effective_limit(20), 20);
    assert_eq!(p.offset(20), 20);
}

#[test]
fn pages_are_adjacent() {
    for page in 0..5i64 {
        let a = Pagination { page, limit: 30 };
        let b = Pagination { page: page + 1, limit: 30 };
        assert_eq!(b.offset(20), a.offset(20) + a.effective_limit(20));
    }
}

#[test]
fn offset_overflow_detected() {
    assert!(Pagination { page: 5, limit: 10 }.offset_fits(20));
    assert!(!Pagination { page: i64::MAX, limit: 10 }.offset_fits(20));
    assert!(Pagination { page: i64::MAX / 100, limit: 100 }.offset_fits(20));
    assert!(!Pagination { page: i64::MAX / 100 + 1, limit: 100 }.offset_fits(20));
}

fn cfg(bind: Option<&str>) -> ServerConfig {
    ServerConfig {
        bind: bind.map(String::from),
        database_url: "sqlite://qa.db".to_string(),
        redis_url: None,
        db_pool_size: None,
    }
}

fn env(ip: Option<&str>, port: Option<&str>, db: Option<&str>, redis: Option<&str>) -> EnvOverrides {
    EnvOverrides {
        server_ip: ip.map(String::from),
        server_port: port.map(String::from),
        database_url: db.map(String::from),
        redis_url: redis.map(String::from),
    }
}

#[test]
fn env_overrides_without_variables_keep_file() {
    let c = cfg(Some("1.2.3.4:99")).apply_env_overrides(env(None, None, None, None));
    assert_eq!(c, cfg(Some("1.2.3.4:99")));
}

#[test]
fn env_overrides_ip_and_port() {
    let c = cfg(Some("1.2.3.4:99")).apply_env_overrides(env(Some("127.0.0.1"), None, None, None));
    assert_eq!(c.bind.as_deref(), Some("127.0.0.1:7879"));
    let c = cfg(None).apply_env_overrides(env(Some("127.0.0.1"), Some("8080"), None, None));
    assert_eq!(c.bind.as_deref(), Some("127.0.0.1:8080"));
    let c = cfg(Some("1.2.3.4:99")).apply_env_overrides(env(None, Some("8080"), None, None));
    assert_eq!(c.bind.as_deref(), Some("1.2.3.4:8080"));
    let c = cfg(None).apply_env_overrides(env(None, Some("8080"), None, None));
    assert_eq!(c.bind.as_deref(), Some("0.0.0.0:8080"));
}

#[test]
fn env_overrides_urls() {
    let c = cfg(None).apply_env_overrides(env(None, None, Some("sqlite://other.db"), Some("redis://r:6379")));
    assert_eq!(c.database_url, "sqlite://other.db");
    assert_eq!(c.redis_url.as_deref(), Some("redis://r:6379"));
    assert_eq!(c.bind, None);
}

#[test]
fn server_defaults() {
    assert_eq!(cfg(None).bind_address(), "0.0.0.0:7879");
    assert_eq!(cfg(Some("10.0.0.1:1")).bind_address(), "10.0.0.1:1");
    assert_eq!(cfg(None).pool_size(), 10);
    let mut c = cfg(None);
    c.db_pool_size = Some(4);
    assert_eq!(c.pool_size(), 4);
}

#[test]
fn sqlite_paths() {
    assert_eq!(sqlite_file_path("sqlite://qa.db"), "qa.db");
    assert_eq!(sqlite_file_path("sqlite:data/qa.db"), "data/qa.db");
    assert_eq!(sqlite_file_path("qa.db"), "qa.db");
}

#[test]
fn single_question_must_exist() {
    assert_eq!(question_found(Some(7)), Ok(7));
    assert_eq!(question_found::<i64>(None), Err(AppError::NotFound("question not found")));
}

#[test]
fn api_key_from_seeded_generator() {
    let mut rng = rand::rngs::StdRng::seed_from_u64(7);
    let a = qa_rs::auth::api_key_from_rng(&mut rng);
    let b = qa_rs::auth::api_key_from_rng(&mut rng);
    assert_eq!(a.chars().count(), 32);
    assert!(a.chars().all(|c| c.is_ascii_alphanumeric()));
    assert_ne!(a, b);
    let mut again = rand::rngs::StdRng::seed_from_u64(7);
    assert_eq!(qa_rs::auth::api_key_from_rng(&mut again), a);
}
