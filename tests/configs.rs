use cage::alerts::{AlertConfig, AlertManager, AlertSeverity};
use cage::config::{AppConfig, ConfigError, ResourceLimits, UserConfig};
use cage::distributed::DistributedConfig;
use cage::gvisor::{GVisorConfig, GVisorPlatform, GVisorRuntime};
use cage::jaeger::JaegerSpan;
use cage::opa::{execution_allowed, policy_url, OpaConfig, OpaDecision};
use cage::packages::PackageConfig;
use cage::proxy::{EgressProxy, ProxyConfig};
use cage::signing::{signature_verdict, SignatureVerifier, SignedCode, SigningConfig, VerificationResult};
use cage::vault::VaultConfig;

fn secret() -> String {
    "0123456789abcdef0123".to_string()
}

#[test]
fn test_alert_config_default() {
    let config = AlertConfig::default();
    assert!(!config.enabled);
    assert!(config.alert_on_errors);
}

#[test]
fn test_create_alerts() {
    let alert = AlertManager::execution_error(
        "user1".to_string(),
        "exec-123".to_string(),
        "Timeout".to_string(),
    );
    assert_eq!(alert.severity, AlertSeverity::Error);
    assert!(alert.title.contains("Failed"));

    let sec_alert = AlertManager::security_event(
        "user2".to_string(),
        "NETWORK_BLOCKED".to_string(),
        "Attempted network access".to_string(),
    );
    assert_eq!(sec_alert.severity, AlertSeverity::Warning);
}

#[test]
fn alert_texts() {
    let alert = AlertManager::execution_error("u".to_string(), "e".to_string(), "Timeout".to_string());
    assert_eq!(alert.message, "Execution failed: Timeout");
    let sec = AlertManager::security_event("u".to_string(), "X".to_string(), "d".to_string());
    assert_eq!(sec.title, "Security Event: X");
    let manager = AlertManager::new(AlertConfig::default());
    assert!(!manager.sends_to_slack());
}

#[test]
fn test_default_config() {
    let config = AppConfig::new(secret());
    assert_eq!(config.port, 8080);
    assert_eq!(config.default_limits.max_memory_mb, 1024);
    assert!(!config.default_network.enabled);
}

#[test]
fn test_validation() {
    let config = AppConfig { port: 0, ..AppConfig::new(secret()) };
    assert!(config.validate().is_err());
}

#[test]
fn validation_errors_in_order() {
    let ok = AppConfig::new(secret());
    assert_eq!(ok.validate(), Ok(()));
    let mut low = AppConfig::new(secret());
    low.default_limits.max_memory_mb = 63;
    assert_eq!(low.validate(), Err(ConfigError::MemoryBelowMinimum));
    let mut zero = AppConfig::new(secret());
    zero.default_limits.max_execution_seconds = 0;
    assert_eq!(zero.validate(), Err(ConfigError::ZeroTimeout));
    let short = AppConfig::new("short".to_string());
    assert_eq!(short.validate(), Err(ConfigError::ShortJwtSecret));
}

#[test]
fn user_overrides_apply() {
    let mut config = AppConfig::new(secret());
    config.users.push(UserConfig {
        user_id: "carol".to_string(),
        api_key_hash: None,
        enabled: false,
        resource_limits: Some(ResourceLimits { max_memory_mb: 256, ..ResourceLimits::default() }),
        network_policy: None,
        allowed_languages: vec!["python".to_string()],
        gpu_enabled: true,
    });
    assert_eq!(config.get_user_limits("carol").max_memory_mb, 256);
    assert_eq!(config.get_user_limits("dave").max_memory_mb, 1024);
    assert!(!config.is_user_enabled("carol"));
    assert!(config.is_user_enabled("dave"));
    assert!(config.gpu_enabled("carol"));
    config.admin.admin_users.push("root".to_string());
    assert!(config.is_admin("root"));
    assert!(!config.is_admin("carol"));
}

#[test]
fn test_gvisor_config_default() {
    let config = GVisorConfig::default();
    assert!(!config.enabled);
    assert_eq!(config.platform, GVisorPlatform::Systrap);
}

#[test]
fn test_install_script_generation() {
    let script = GVisorRuntime::generate_install_script();
    assert!(script.contains("runsc"));
    assert!(script.contains("gvisor"));
}

#[test]
fn gvisor_runtime_args() {
    let inactive = GVisorRuntime::new(GVisorConfig::default(), true);
    assert!(inactive.get_runtime_args().is_empty());
    let config = GVisorConfig { enabled: true, platform: GVisorPlatform::Kvm, ..GVisorConfig::default() };
    let runtime = GVisorRuntime::new(config, true);
    assert!(runtime.is_active());
    assert_eq!(
        runtime.get_runtime_args(),
        vec![
            "--runtime",
            "/usr/local/bin/runsc",
            "--runtime-flag",
            "--platform=kvm",
            "--runtime-flag",
            "--network=none"
        ]
    );
    assert_eq!(runtime.performance_overhead(), "10-15% overhead (requires /dev/kvm)");
    assert_eq!(GVisorRuntime::security_benefits().len(), 6);
}

#[test]
fn test_jaeger_span() {
    let span = JaegerSpan { active: true };
    span.set_attribute("key", "value");
    span.add_event("test_event");
    span.end();
}

#[test]
fn test_opa_config_default() {
    let config = OpaConfig::default();
    assert!(!config.enabled);
    assert_eq!(config.server_url, "http://127.0.0.1:8181");
}

#[test]
fn test_opa_disabled() {
    let config = OpaConfig::default();
    assert!(execution_allowed(&config, None));
}

#[test]
fn opa_decisions() {
    let config = OpaConfig { enabled: true, ..OpaConfig::default() };
    assert_eq!(policy_url(&config), "http://127.0.0.1:8181/v1/data/cage.authz/allow");
    assert!(!execution_allowed(&config, None));
    assert!(!execution_allowed(&config, Some(&OpaDecision { result: None })));
    assert!(execution_allowed(&config, Some(&OpaDecision { result: Some(true) })));
}

#[test]
fn test_proxy_config_default() {
    let config = ProxyConfig::default();
    assert!(!config.enabled);
    assert!(config.block_by_default);
}

#[test]
fn test_url_filtering() {
    let config = ProxyConfig {
        enabled: true,
        block_by_default: true,
        allowed_urls: vec![r"^https://api\.safe\.com/.*".to_string()],
        blocked_urls: vec![],
        ..Default::default()
    };

    let proxy = EgressProxy::new(config);

    assert!(proxy.is_url_allowed("https://api.safe.com/data"));
    assert!(!proxy.is_url_allowed("https://evil.com/malware"));
}

#[test]
fn blocklist_mode_and_bad_patterns() {
    let config = ProxyConfig {
        block_by_default: false,
        blocked_urls: vec!["evil".to_string(), "(".to_string()],
        ..Default::default()
    };
    let proxy = EgressProxy::new(config);
    assert!(!proxy.is_url_allowed("https://evil.com/x"));
    assert!(proxy.is_url_allowed("https://good.com/x"));
}

#[test]
fn test_signing_config_default() {
    let config = SigningConfig::default();
    assert!(!config.enabled);
    assert!(!config.require_signature);
}

#[test]
fn test_signature_verification_disabled() {
    let config = SigningConfig::default();
    let verifier = SignatureVerifier::new(config);

    let signed = SignedCode {
        code: "print('test')".to_string(),
        signature: "dGVzdA==".to_string(),
        key_fingerprint: "ABC123".to_string(),
    };

    let result = verifier.verify(&signed);
    assert!(matches!(result, VerificationResult::NoSignature));
}

#[test]
fn test_untrusted_key() {
    let config = SigningConfig {
        enabled: true,
        require_signature: true,
        trusted_keys: vec!["TRUSTED_KEY".to_string()],
    };

    let verifier = SignatureVerifier::new(config);

    let signed = SignedCode {
        code: "print('test')".to_string(),
        signature: base64::Engine::encode(&base64::engine::general_purpose::STANDARD, b"signature"),
        key_fingerprint: "UNTRUSTED_KEY".to_string(),
    };

    let result = verifier.verify(&signed);
    assert!(matches!(result, VerificationResult::Invalid(_)));
}

#[test]
fn trusted_key_needs_base64() {
    let config = SigningConfig {
        enabled: true,
        require_signature: true,
        trusted_keys: vec!["K".to_string()],
    };
    let verifier = SignatureVerifier::new(config);
    let good = SignedCode { code: "x".to_string(), signature: "dGVzdA==".to_string(), key_fingerprint: "K".to_string() };
    assert!(matches!(verifier.verify(&good), VerificationResult::Valid));
    let bad = SignedCode { code: "x".to_string(), signature: "not base64!".to_string(), key_fingerprint: "K".to_string() };
    match verifier.verify(&bad) {
        VerificationResult::Invalid(m) => assert_eq!(m, "Invalid signature format"),
        _ => panic!("expected an invalid signature"),
    }
    assert!(!verifier.allow_unsigned());
}

#[test]
fn test_vault_config_default() {
    let config = VaultConfig::default();
    assert!(!config.enabled);
    assert_eq!(config.address, "http://127.0.0.1:8200");
}

#[test]
fn other_defaults() {
    assert_eq!(PackageConfig::default().max_packages_per_session, 50);
    assert_eq!(DistributedConfig::default().node_timeout, 30);
}

#[test]
fn verdicts_from_checks() {
    assert!(matches!(signature_verdict(false, false, false), VerificationResult::NoSignature));
    assert!(matches!(signature_verdict(true, true, true), VerificationResult::Valid));
    assert!(matches!(signature_verdict(true, false, true), VerificationResult::Invalid(_)));
}
