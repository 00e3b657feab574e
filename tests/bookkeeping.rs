use cage::config::{NetworkPolicy, ResourceLimits, UserConfig};
use cage::jobs::JobQueue;
use cage::models::{ExecuteRequest, ExecuteResponse, ExecutionStatus, JobStatus, Language};
use cage::stats::ExecutionStats;
use cage::users::{is_valid_user_id, UserError, UserManager};

fn request() -> ExecuteRequest {
    ExecuteRequest {
        language: Language::Python,
        code: "print(1)".to_string(),
        timeout_seconds: 30,
        working_dir: None,
        env: Vec::new(),
        persistent: false,
    }
}

fn response(status: ExecutionStatus) -> ExecuteResponse {
    ExecuteResponse {
        execution_id: "e".to_string(),
        status,
        stdout: String::new(),
        stderr: String::new(),
        exit_code: None,
        duration_ms: 1,
        files_created: vec![],
    }
}

#[test]
fn test_user_management() {
    let mut manager = UserManager::new();

    let user = UserConfig {
        user_id: "test_user".to_string(),
        api_key_hash: Some("hash123".to_string()),
        enabled: true,
        resource_limits: Some(ResourceLimits::default()),
        network_policy: Some(NetworkPolicy::default()),
        allowed_languages: vec!["python".to_string()],
        gpu_enabled: false,
    };

    let is_new = manager.upsert_user(user.clone()).unwrap();
    assert!(is_new);

    let retrieved = manager.get_user("test_user");
    assert!(retrieved.is_some());
    assert_eq!(retrieved.unwrap().user_id, "test_user");

    let mut updated_user = user;
    updated_user.enabled = false;
    let is_new = manager.upsert_user(updated_user).unwrap();
    assert!(!is_new);

    let deleted = manager.delete_user("test_user");
    assert!(deleted);

    assert!(!manager.user_exists("test_user"));
}

#[test]
fn user_ids_are_validated() {
    assert!(is_valid_user_id("alice_01-x"));
    assert!(!is_valid_user_id(""));
    assert!(!is_valid_user_id("a/b"));
    assert!(!is_valid_user_id("a\\b"));
    assert!(!is_valid_user_id("a.b"));
    assert!(!is_valid_user_id("a b"));
    assert!(!is_valid_user_id("a@b"));
    assert!(!is_valid_user_id("é"));
    let mut manager = UserManager::new();
    let bad = UserConfig {
        user_id: "../x".to_string(),
        api_key_hash: None,
        enabled: true,
        resource_limits: None,
        network_policy: None,
        allowed_languages: vec![],
        gpu_enabled: false,
    };
    assert_eq!(manager.upsert_user(bad), Err(UserError::InvalidUserId));
    assert!(manager.list_users().is_empty());
    assert!(!manager.delete_user("nobody"));
}

#[test]
fn window_keeps_the_last_hour() {
    let mut stats = ExecutionStats::new();
    stats.record(true, 1_000);
    stats.record(false, 2_000);
    assert_eq!(stats.total_executions(), 2);
    assert_eq!(stats.total_errors(), 1);
    assert_eq!(stats.executions_last_hour(), 2);
    stats.record(true, 3_601_500);
    assert_eq!(stats.executions_last_hour(), 2);
    assert_eq!(stats.errors_last_hour(), 1);
    stats.record(true, 3_602_000);
    assert_eq!(stats.executions_last_hour(), 2);
    assert_eq!(stats.errors_last_hour(), 0);
    assert_eq!(stats.total_executions(), 4);
}

#[test]
fn job_lifecycle() {
    let mut queue = JobQueue::new();
    assert!(queue.submit("j1".to_string(), "amy".to_string(), request(), 10));
    assert!(!queue.submit("j1".to_string(), "amy".to_string(), request(), 11));
    assert!(queue.submit("j2".to_string(), "amy".to_string(), request(), 12));
    assert_eq!(queue.get_status("j1").unwrap().status, JobStatus::Queued);
    assert_eq!(queue.get_next_queued(20), Some("j1".to_string()));
    let running = queue.get_status("j1").unwrap();
    assert_eq!(running.status, JobStatus::Running);
    assert_eq!(running.started_at_ms, Some(20));
    queue.complete("j1", response(ExecutionStatus::Timeout), 30);
    assert_eq!(queue.get_status("j1").unwrap().status, JobStatus::Timeout);
    assert_eq!(queue.get_next_queued(40), Some("j2".to_string()));
    assert_eq!(queue.get_next_queued(41), None);
    queue.complete("j2", response(ExecutionStatus::Success), 50);
    assert_eq!(queue.get_status("j2").unwrap().status, JobStatus::Completed);
    queue.update_status("j2", JobStatus::Failed, 60);
    assert_eq!(queue.get_status("j2").unwrap().status, JobStatus::Failed);
    queue.cleanup_old_jobs(3_600_040);
    assert!(queue.get_status("j1").is_none());
    assert!(queue.get_status("j2").is_some());
}
