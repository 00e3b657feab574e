use cage::config::{AppConfig, NetworkPolicy, ResourceLimits};
use cage::executor::{
    build_exec_args, code_filename, detect_new_files, hash_code, one_shot_response,
    persistent_response, status_for_exit, summarize, uses_persistent, KernelOutcome, RunOutcome,
};
use cage::manager::{cpu_string, RegistryError, SessionManager};
use cage::models::{ExecuteRequest, ExecutionStatus, Language};
use cage::session::{ExecutionSummary, Session, SessionState};

fn secret() -> String {
    "0123456789abcdef0123".to_string()
}

fn request(language: Language, code: &str, persistent: bool) -> ExecuteRequest {
    ExecuteRequest {
        language,
        code: code.to_string(),
        timeout_seconds: 30,
        working_dir: None,
        env: Vec::new(),
        persistent,
    }
}

fn summary(ts: u64) -> ExecutionSummary {
    ExecutionSummary {
        execution_id: format!("id-{}", ts),
        timestamp_ms: ts,
        language: Language::Python,
        code_hash: String::new(),
        status: ExecutionStatus::Success,
        duration_ms: 1,
        exit_code: Some(0),
    }
}

#[test]
fn exit_codes_map_to_statuses() {
    assert_eq!(status_for_exit(0), ExecutionStatus::Success);
    assert_eq!(status_for_exit(137), ExecutionStatus::Killed);
    assert_eq!(status_for_exit(1), ExecutionStatus::Error);
    assert_eq!(status_for_exit(-1), ExecutionStatus::Error);
}

#[test]
fn finished_run_response() {
    let entries = vec!["out.csv".to_string(), "exec_abc.py".to_string(), ".cache".to_string()];
    let outcome = RunOutcome::Finished { stdout: "hello".to_string(), stderr: String::new(), exit_code: 0 };
    let r = one_shot_response("e1".to_string(), outcome, 30, 12, &entries);
    assert_eq!(r.status, ExecutionStatus::Success);
    assert_eq!(r.stdout, "hello");
    assert_eq!(r.exit_code, Some(0));
    assert_eq!(r.files_created, vec!["out.csv".to_string()]);
    assert_eq!(r.duration_ms, 12);
}

#[test]
fn oom_kill_response() {
    let outcome = RunOutcome::Finished { stdout: String::new(), stderr: String::new(), exit_code: 137 };
    let r = one_shot_response("e2".to_string(), outcome, 30, 5, &Vec::new());
    assert_eq!(r.status, ExecutionStatus::Killed);
    assert_eq!(r.exit_code, Some(137));
}

#[test]
fn timeout_response_has_no_exit_code() {
    let r = one_shot_response("e3".to_string(), RunOutcome::TimedOut, 2, 2000, &vec!["a".to_string()]);
    assert_eq!(r.status, ExecutionStatus::Timeout);
    assert_eq!(r.exit_code, None);
    assert!(r.stderr.contains("Execution timed out after 2 seconds"));
    assert!(r.files_created.is_empty());
}

#[test]
fn spawn_failure_response() {
    let r = one_shot_response("e4".to_string(), RunOutcome::Failed { message: "no podman".to_string() }, 2, 0, &Vec::new());
    assert_eq!(r.status, ExecutionStatus::Error);
    assert_eq!(r.stderr, "Execution error: no podman");
    assert_eq!(r.exit_code, None);
}

#[test]
fn persistent_status_follows_stderr() {
    let ok = persistent_response(
        "p1".to_string(),
        KernelOutcome::Finished { stdout: "42".to_string(), stderr: String::new() },
        30,
        3,
        &Vec::new(),
    );
    assert_eq!(ok.status, ExecutionStatus::Success);
    assert_eq!(ok.stdout, "42");
    assert_eq!(ok.exit_code, Some(0));
    let err = persistent_response(
        "p2".to_string(),
        KernelOutcome::Finished { stdout: String::new(), stderr: "NameError".to_string() },
        30,
        3,
        &Vec::new(),
    );
    assert_eq!(err.status, ExecutionStatus::Error);
    assert_eq!(err.exit_code, None);
}

#[test]
fn persistent_only_for_python() {
    assert!(uses_persistent(&request(Language::Python, "x = 41", true)));
    assert!(!uses_persistent(&request(Language::Bash, "echo", true)));
    assert!(!uses_persistent(&request(Language::Python, "x", false)));
}

#[test]
fn scratch_file_and_exec_args() {
    assert_eq!(code_filename("abc", Language::Python), "exec_abc.py");
    assert_eq!(code_filename("abc", Language::Bash), "exec_abc.sh");
    let env = vec![("A".to_string(), "1".to_string())];
    let args = build_exec_args("cid", Language::Python, "exec_abc.py", &env);
    assert_eq!(
        args,
        vec!["exec", "--user", "sandbox", "--workdir", "/mnt/data", "-e", "A=1", "cid", "python", "-u", "/mnt/data/exec_abc.py"]
    );
    let go = build_exec_args("cid", Language::Go, "exec_abc.go", &Vec::new());
    assert_eq!(go[go.len() - 1], "cd /mnt/data && GOTMPDIR=/mnt/data GOCACHE=/mnt/data/.gocache go run exec_abc.go");
    let ts = build_exec_args("cid", Language::Typescript, "exec_abc.ts", &Vec::new());
    assert_eq!(ts[6..].to_vec(), vec!["deno", "run", "--allow-read=/mnt/data", "--allow-write=/mnt/data", "/mnt/data/exec_abc.ts"]);
}

#[test]
fn new_files_exclude_scratch_and_hidden() {
    let names = vec!["a.txt".to_string(), "exec_1.py".to_string(), ".x".to_string(), "b".to_string()];
    assert_eq!(detect_new_files(&names), vec!["a.txt".to_string(), "b".to_string()]);
}

#[test]
fn code_hash_is_sha256_hex() {
    assert_eq!(hash_code("abc"), "ba7816bf8f01cfea414140de5dae2223b00361a396177a9cb410ff61f20015ad");
    assert_eq!(hash_code("print('hello')"), hash_code("print('hello')"));
    assert_ne!(hash_code("a"), hash_code("b"));
}

#[test]
fn summary_records_hash() {
    let req = request(Language::Python, "abc", false);
    let resp = one_shot_response("e5".to_string(), RunOutcome::TimedOut, 1, 1, &Vec::new());
    let s = summarize(&req, &resp, 77);
    assert_eq!(s.code_hash, "ba7816bf8f01cfea414140de5dae2223b00361a396177a9cb410ff61f20015ad");
    assert_eq!(s.timestamp_ms, 77);
    assert_eq!(s.status, ExecutionStatus::Timeout);
}

fn session(user: &str) -> Session {
    Session::new(
        user.to_string(),
        Language::Python,
        "0a1b".to_string(),
        "/data/user_a".to_string(),
        ResourceLimits::default(),
        NetworkPolicy::default(),
        10,
    )
}

#[test]
fn session_name_and_states() {
    let mut s = session("alice");
    assert_eq!(s.container_name, "cage_alice_0a1b");
    assert_eq!(s.state(), SessionState::Creating);
    assert!(s.set_state(SessionState::Running));
    assert!(!s.set_state(SessionState::Creating));
    assert!(s.set_state(SessionState::Stopped));
    assert!(!s.set_state(SessionState::Running));
    assert!(s.set_container_id("c1".to_string()));
    assert!(!s.set_container_id("c2".to_string()));
    assert_eq!(s.container_id(), Some("c1".to_string()));
}

#[test]
fn one_execution_at_a_time() {
    let mut s = session("alice");
    assert!(s.begin_execution(20));
    assert!(!s.begin_execution(21));
    assert_eq!(s.execution_count(), 1);
    s.end_execution(summary(30));
    assert!(s.begin_execution(40));
    assert_eq!(s.execution_count(), 2);
    assert_eq!(s.last_activity(), 40);
}

#[test]
fn history_is_bounded_and_ordered() {
    let mut s = session("alice");
    for i in 0..150u64 {
        let ts = if i == 120 { 5 } else { 1000 + i };
        s.add_execution(summary(ts));
    }
    let h = s.get_execution_history();
    assert_eq!(h.len(), 100);
    assert_eq!(h[0].timestamp_ms, 1050);
    for w in h.windows(2) {
        assert!(w[0].timestamp_ms <= w[1].timestamp_ms);
    }
}

#[test]
fn cpu_share_rendering() {
    assert_eq!(cpu_string(1000), "1");
    assert_eq!(cpu_string(1500), "1.5");
    assert_eq!(cpu_string(250), "0.25");
    assert_eq!(cpu_string(125), "0.125");
}

#[test]
fn run_args_mount_modes() {
    let manager = SessionManager::new(AppConfig::new(secret()));
    let go = manager.prepare_session("bob", Language::Go, "s1".to_string(), 0);
    let args = manager.container_run_args(&go, &Vec::new());
    assert!(args.contains(&"/var/lib/cage/user_bob:/mnt/data:rw,exec,nosuid,nodev,U".to_string()));
    assert_eq!(args[args.len() - 3], "cage-sandbox-go:latest");
    let py = manager.prepare_session("bob", Language::Python, "s2".to_string(), 0);
    let args = manager.container_run_args(&py, &vec!["--runtime".to_string(), "runsc".to_string()]);
    assert!(args.contains(&"/var/lib/cage/user_bob:/mnt/data:rw,noexec,nosuid,nodev,U".to_string()));
    assert_eq!(
        args[..10].to_vec(),
        vec!["run", "--detach", "--name", "cage_bob_s2", "--memory", "1024m", "--cpus", "1", "--pids-limit", "100"]
    );
    assert!(args.contains(&"none".to_string()));
    assert!(args.contains(&"runsc".to_string()));
    assert_eq!(args[args.len() - 2..].to_vec(), vec!["sleep", "infinity"]);
}

#[test]
fn registry_keys_and_uniqueness() {
    let mut manager = SessionManager::new(AppConfig::new(secret()));
    let a = manager.prepare_session("amy", Language::Python, "s1".to_string(), 0);
    assert_eq!(manager.register(a, "c1".to_string()), Ok((0, false)));
    let again = manager.prepare_session("amy", Language::Python, "s2".to_string(), 0);
    assert_eq!(manager.register(again, "c2".to_string()), Ok((0, true)));
    let clash = manager.prepare_session("ben", Language::Python, "s3".to_string(), 0);
    assert_eq!(manager.register(clash, "c1".to_string()), Err(RegistryError::ContainerInUse));
    let js = manager.prepare_session("amy", Language::Javascript, "s4".to_string(), 0);
    assert_eq!(manager.register(js, "c4".to_string()), Ok((1, false)));
    assert_eq!(manager.active_session_count(), 2);
    assert_eq!(manager.get("amy", Language::Python).unwrap().state(), SessionState::Running);
}

#[test]
fn terminate_is_idempotent() {
    let mut manager = SessionManager::new(AppConfig::new(secret()));
    let a = manager.prepare_session("amy", Language::Python, "s1".to_string(), 0);
    manager.register(a, "c1".to_string()).unwrap();
    let gone = manager.terminate("amy", Language::Python);
    assert_eq!(gone.unwrap().container_id(), Some("c1".to_string()));
    assert!(manager.terminate("amy", Language::Python).is_none());
    assert_eq!(manager.active_session_count(), 0);
}

#[test]
fn manager_execution_guard() {
    let mut manager = SessionManager::new(AppConfig::new(secret()));
    let a = manager.prepare_session("amy", Language::Python, "s1".to_string(), 0);
    manager.register(a, "c1".to_string()).unwrap();
    assert!(manager.begin_execution("amy", Language::Python, 5));
    assert!(!manager.begin_execution("amy", Language::Python, 6));
    assert!(manager.end_execution("amy", Language::Python, summary(7)));
    assert!(!manager.begin_execution("zed", Language::Python, 8));
    assert_eq!(manager.get("amy", Language::Python).unwrap().get_execution_history().len(), 1);
}

#[test]
fn terminate_user_twice() {
    let mut manager = SessionManager::new(AppConfig::new(secret()));
    let a = manager.prepare_session("amy", Language::Python, "s1".to_string(), 0);
    manager.register(a, "c1".to_string()).unwrap();
    let b = manager.prepare_session("amy", Language::Go, "s2".to_string(), 0);
    manager.register(b, "c2".to_string()).unwrap();
    let c = manager.prepare_session("ben", Language::Go, "s3".to_string(), 0);
    manager.register(c, "c3".to_string()).unwrap();
    assert_eq!(manager.terminate_user("amy").len(), 2);
    assert!(manager.terminate_user("amy").is_empty());
    assert_eq!(manager.active_session_count(), 1);
}

#[test]
fn usage_is_kept_when_unreadable() {
    let mut manager = SessionManager::new(AppConfig::new(secret()));
    let a = manager.prepare_session("amy", Language::Python, "s1".to_string(), 0);
    manager.register(a, "c1".to_string()).unwrap();
    assert!(manager.update_usage("amy", Language::Python, b"1.00%", b"2MiB / 1GiB", b"3", 4));
    assert!(manager.update_usage("amy", Language::Python, b"?", b"?", b"?", 5));
    let s = manager.get("amy", Language::Python).unwrap();
    assert_eq!(s.current_usage.cpu_hundredths, 100);
    assert_eq!(s.current_usage.memory_bytes, 2097152);
    assert_eq!(s.current_usage.pids, 3);
    assert_eq!(s.current_usage.disk_mb, 5);
    assert!(!manager.update_usage("zed", Language::Python, b"1%", b"1B", b"1", 0));
}

#[test]
fn manager_guard_counts_and_records() {
    let mut manager = SessionManager::new(AppConfig::new(secret()));
    let a = manager.prepare_session("amy", Language::Python, "s1".to_string(), 0);
    manager.register(a, "c1".to_string()).unwrap();
    assert!(manager.begin_execution("amy", Language::Python, 50));
    let mut failed = summary(60);
    failed.status = ExecutionStatus::Error;
    assert!(manager.end_execution("amy", Language::Python, failed));
    let s = manager.get("amy", Language::Python).unwrap();
    assert_eq!(s.execution_count(), 1);
    assert_eq!(s.error_count(), 1);
    assert_eq!(s.last_activity(), 50);
    assert_eq!(s.get_execution_history().len(), 1);
    assert!(!manager.end_execution("amy", Language::Python, summary(70)));
    assert_eq!(manager.get("amy", Language::Python).unwrap().get_execution_history().len(), 1);
}
