use cage::admission::{check_admission, effective_timeout, validate_request, AdmissionError};
use cage::analysis::CodeAnalyzer;
use cage::api::{admission_error, ApiError};
use cage::config::AppConfig;
use cage::models::{ExecuteRequest, Language};
use cage::ratelimit::{RateLimiter, TOKEN};

fn request(language: Language, code: String, timeout_seconds: u64) -> ExecuteRequest {
    ExecuteRequest { language, code, timeout_seconds, working_dir: None, env: Vec::new(), persistent: false }
}

#[test]
fn test_rate_limiter() {
    let mut limiter = RateLimiter::new(10);

    for _ in 0..10 {
        assert!(limiter.check_limit("user1"));
    }

    assert!(!limiter.check_limit("user1"));

    assert!(limiter.check_limit("user2"));
}

#[test]
fn test_refill() {
    let mut limiter = RateLimiter::new(60);
    let start: u64 = 1_000_000;

    for _ in 0..60 {
        assert!(limiter.check_limit_at("user1", start));
    }
    assert!(!limiter.check_limit_at("user1", start));

    // two seconds later, two tokens have come back
    let later = start + 2_000;
    assert!(limiter.check_limit_at("user1", later));
    assert!(limiter.check_limit_at("user1", later));
}

#[test]
fn burst_equals_capacity() {
    let mut limiter = RateLimiter::new(7);
    for _ in 0..7 {
        assert!(limiter.check_limit_at("u", 500));
    }
    assert!(!limiter.check_limit_at("u", 500));
    assert_eq!(limiter.remaining_at("u", 500), 0);
}

#[test]
fn tokens_never_exceed_capacity() {
    let mut limiter = RateLimiter::new(10);
    assert!(limiter.check_limit_at("u", 0));
    assert_eq!(limiter.remaining_at("u", 0), 9 * TOKEN);
    assert_eq!(limiter.remaining_at("u", 10_000_000), 10 * TOKEN);
    assert!(limiter.check_limit_n_at("u", 10, 10_000_000));
    assert!(!limiter.check_limit_n_at("u", 1, 10_000_000));
}

#[test]
fn idle_buckets_are_dropped() {
    let mut limiter = RateLimiter::new(10);
    assert!(limiter.check_limit_at("old", 0));
    assert!(limiter.check_limit_at("new", 4_000_000));
    limiter.cleanup_old_buckets_at(4_000_000);
    // the dropped bucket comes back full
    assert_eq!(limiter.remaining_at("old", 4_000_000), 10 * TOKEN);
    assert_eq!(limiter.remaining_at("new", 4_000_000), 9 * TOKEN);
}

#[test]
fn payload_boundaries() {
    let exact = request(Language::Python, "a".repeat(1_000_000), 30);
    assert!(validate_request(&exact).is_ok());
    let over = request(Language::Python, "a".repeat(1_000_001), 30);
    assert!(matches!(validate_request(&over), Err(AdmissionError::PayloadTooLarge)));
    let empty = request(Language::Python, String::new(), 30);
    assert!(matches!(validate_request(&empty), Err(AdmissionError::EmptyCode)));
}

#[test]
fn timeout_boundaries() {
    let zero = request(Language::Python, "print(1)".to_string(), 0);
    assert!(matches!(validate_request(&zero), Err(AdmissionError::InvalidTimeout)));
    assert_eq!(effective_timeout(100, 30), 30);
    assert_eq!(effective_timeout(5, 30), 5);
}

#[test]
fn admission_caps_timeout() {
    let config = AppConfig::new("0123456789abcdef0123".to_string());
    let mut limiter = RateLimiter::new(10);
    let analyzer = CodeAnalyzer::default();
    let req = request(Language::Python, "print('hello')".to_string(), 3600);
    let admitted = check_admission(&config, &mut limiter, &analyzer, "alice", &req, "a1".to_string(), 0);
    match admitted {
        Ok(a) => {
            assert_eq!(a.timeout_seconds, 30);
            assert!(a.analysis.warnings.is_empty());
        },
        Err(_) => panic!("request should be admitted"),
    }
}

#[test]
fn admission_blocks_fork_bomb() {
    let config = AppConfig::new("0123456789abcdef0123".to_string());
    let mut limiter = RateLimiter::new(10);
    let analyzer = CodeAnalyzer::new(true);
    let req = request(Language::Bash, ":(){ :|:& };:".to_string(), 30);
    match check_admission(&config, &mut limiter, &analyzer, "eve", &req, "a2".to_string(), 0) {
        Err(d) => {
            let event = d.audit.expect("a denial is audited");
            assert_eq!(event.action, "blocked");
            let api = admission_error(&d.error);
            assert_eq!(api.status_code(), 400);
            assert_eq!(api.error_code(), "BAD_REQUEST");
            assert_eq!(api.message(), "Code blocked due to security analysis: FORK_BOMB");
        },
        Ok(_) => panic!("fork bomb must be blocked"),
    }
}

#[test]
fn admission_rate_limits() {
    let config = AppConfig::new("0123456789abcdef0123".to_string());
    let mut limiter = RateLimiter::new(10);
    let analyzer = CodeAnalyzer::default();
    let req = request(Language::Python, "print(1)".to_string(), 30);
    for _ in 0..10 {
        assert!(check_admission(&config, &mut limiter, &analyzer, "bob", &req, "x".to_string(), 1000).is_ok());
    }
    match check_admission(&config, &mut limiter, &analyzer, "bob", &req, "x".to_string(), 1000) {
        Err(d) => {
            assert!(matches!(d.error, AdmissionError::TooManyRequests));
            let event = d.audit.expect("a denial is audited");
            assert_eq!(event.action, "rate-limited");
            assert_eq!(admission_error(&d.error).status_code(), 429);
        },
        Ok(_) => panic!("the eleventh request must be refused"),
    }
}

#[test]
fn disabled_users_are_forbidden() {
    let mut config = AppConfig::new("0123456789abcdef0123".to_string());
    config.users.push(cage::config::UserConfig {
        user_id: "off".to_string(),
        api_key_hash: None,
        enabled: false,
        resource_limits: None,
        network_policy: None,
        allowed_languages: Vec::new(),
        gpu_enabled: false,
    });
    let mut limiter = RateLimiter::new(10);
    let analyzer = CodeAnalyzer::default();
    let req = request(Language::Python, "print(1)".to_string(), 30);
    match check_admission(&config, &mut limiter, &analyzer, "off", &req, "x".to_string(), 0) {
        Err(d) => {
            assert!(matches!(d.error, AdmissionError::Forbidden));
            assert_eq!(d.audit.expect("a denial is audited").action, "user-disabled");
            assert!(matches!(admission_error(&d.error), ApiError::Forbidden));
        },
        Ok(_) => panic!("disabled user admitted"),
    }
}

#[test]
fn api_error_bodies() {
    assert_eq!(ApiError::Timeout.error_code(), "EXECUTION_TIMEOUT");
    assert_eq!(ApiError::Timeout.status_code(), 408);
    assert_eq!(ApiError::NotFound("x".to_string()).message(), "x");
    assert_eq!(ApiError::Unauthorized.message(), "Authentication required");
    assert_eq!(admission_error(&AdmissionError::PayloadTooLarge).status_code(), 413);
    assert_eq!(admission_error(&AdmissionError::EmptyCode).message(), "Code cannot be empty");
}

#[test]
fn invalid_requests_are_audited() {
    let config = AppConfig::new("0123456789abcdef0123".to_string());
    let mut limiter = RateLimiter::new(10);
    let analyzer = CodeAnalyzer::default();
    let empty = request(Language::Python, String::new(), 30);
    match check_admission(&config, &mut limiter, &analyzer, "u", &empty, "x".to_string(), 0) {
        Err(d) => assert_eq!(d.audit.expect("audited").action, "payload-empty"),
        Ok(_) => panic!("empty code admitted"),
    }
    let zero = request(Language::Python, "1".to_string(), 0);
    match check_admission(&config, &mut limiter, &analyzer, "u", &zero, "x".to_string(), 0) {
        Err(d) => assert_eq!(d.audit.expect("audited").action, "invalid-timeout"),
        Ok(_) => panic!("zero timeout admitted"),
    }
}

#[test]
fn other_users_keep_their_buckets() {
    let mut limiter = RateLimiter::new(10);
    for _ in 0..10 {
        assert!(limiter.check_limit_at("user1", 5));
    }
    assert!(!limiter.check_limit_at("user1", 5));
    assert!(limiter.check_limit_at("user2", 5));
    assert_eq!(limiter.remaining_at("user1", 5), 0);
}
