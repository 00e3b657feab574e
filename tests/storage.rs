use cage::audit::{create_auth_event, create_execution_event, create_file_event, AuditLogger, AuditOutcome, SiemFormat};
use cage::mcp::get_mcp_resources;
use cage::metrics::{record_execution_counts, record_session_created, MetricChange};
use cage::models::{ExecuteRequest, ExecuteResponse, ExecutionStatus, Language};
use cage::network::NetworkManager;
use cage::packages::{mirror_host_of, PackageConfig, PackageError, PackageManager};
use cage::persistent::{namespace_file, wrap_code, KernelInfo, PersistentKernelManager};
use cage::replay::ReplayManager;
use cage::text::decimal_string;
use cage::usage::{parse_count, parse_memory, parse_percent, usage_from_stats, ResourceUsage};
use cage::models::FileType;
use cage::workspace::{check_filename, list_files, resolve_in_workspace, resolve_write_path, DirEntry, PathError};

fn response(id: &str, stdout: &str) -> ExecuteResponse {
    ExecuteResponse {
        execution_id: id.to_string(),
        status: ExecutionStatus::Success,
        stdout: stdout.to_string(),
        stderr: String::new(),
        exit_code: Some(0),
        duration_ms: 100,
        files_created: vec![],
    }
}

fn request(code: &str) -> ExecuteRequest {
    ExecuteRequest {
        language: Language::Python,
        code: code.to_string(),
        timeout_seconds: 30,
        working_dir: None,
        env: Vec::new(),
        persistent: false,
    }
}

#[test]
fn test_replay_manager() {
    let mut manager = ReplayManager::new(100);

    let request = request("print('test')");
    let response = response("5f0c6b1e-8a4f-4a55-9d0e-2a3c1e7b9f10", "test\n");

    let exec_id = manager.store("test_user".to_string(), request.clone(), response, 1_700_000_000_000);

    let stored = manager.get(&exec_id);
    assert!(stored.is_some());
    assert_eq!(stored.unwrap().code, "print('test')");

    let replay_req = manager.replay(&exec_id);
    assert!(replay_req.is_some());
    assert_eq!(replay_req.unwrap().code, "print('test')");
}

#[test]
fn replay_evicts_oldest() {
    let mut manager = ReplayManager::new(2);
    manager.store("u".to_string(), request("a"), response("id-a", "a"), 30);
    manager.store("u".to_string(), request("b"), response("id-b", "b"), 10);
    manager.store("v".to_string(), request("c"), response("id-c", "c"), 20);
    assert!(manager.get("id-b").is_none());
    assert!(manager.get("id-a").is_some());
    let all = manager.list_all();
    assert_eq!(all.len(), 2);
    assert_eq!(all[0].execution_id, "id-a");
    assert_eq!(all[1].execution_id, "id-c");
    let mine = manager.list_user_executions("v");
    assert_eq!(mine.len(), 1);
    assert_eq!(mine[0].response.stdout, "c");
}

#[test]
fn replay_round_trip_keeps_response() {
    let mut manager = ReplayManager::new(10);
    let id = manager.store("alice".to_string(), request("print('hello')"), response("r1", "hello"), 5);
    let got = manager.get(&id).unwrap();
    assert_eq!(got.request.code, "print('hello')");
    assert_eq!(got.response.stdout, "hello");
    assert_eq!(got.user_id, "alice");
}

#[test]
fn test_package_allowlist() {
    let config = PackageConfig::default();
    let manager = PackageManager::new(config);

    assert!(manager.is_allowed("requests", Language::Python));
    assert!(manager.is_allowed("lodash", Language::Javascript));
    assert!(!manager.is_allowed("unknown-package", Language::Python));
}

#[test]
fn test_add_to_allowlist() {
    let config = PackageConfig::default();
    let mut manager = PackageManager::new(config);

    manager.add_to_allowlist("my-package", Language::Python).unwrap();

    assert!(manager.is_allowed("my-package", Language::Python));
}

#[test]
fn package_install_flow() {
    let disabled = PackageManager::new(PackageConfig::default());
    assert!(matches!(disabled.install_command("u", "requests", Language::Python), Err(PackageError::Disabled)));

    let config = PackageConfig { enabled: true, max_packages_per_session: 1, ..PackageConfig::default() };
    let mut manager = PackageManager::new(config);
    assert!(matches!(manager.install_command("u", "evil", Language::Python), Err(PackageError::NotAllowed)));
    assert!(matches!(manager.install_command("u", "requests", Language::Go), Err(PackageError::NotAllowed)));
    let cmd = manager.install_command("u", "requests", Language::Python).unwrap();
    assert_eq!(
        cmd,
        "pip install --no-cache-dir --index-url https://pypi.org/simple --trusted-host pypi.org requests"
    );
    let failed = manager.complete_install("u", "requests", false, String::new(), "boom");
    match failed {
        Err(PackageError::InstallFailed(m)) => assert_eq!(m, "Package installation failed: boom"),
        _ => panic!("expected failure"),
    }
    assert!(manager.list_installed("u").is_empty());
    assert_eq!(manager.complete_install("u", "requests", true, "ok".to_string(), "").ok(), Some("ok".to_string()));
    assert_eq!(manager.list_installed("u"), vec!["requests".to_string()]);
    assert!(matches!(manager.install_command("u", "pytz", Language::Python), Err(PackageError::LimitReached)));
    manager.clear_user_packages("u");
    assert!(manager.list_installed("u").is_empty());
    assert_eq!(
        manager.install_command("u", "lodash", Language::Javascript).unwrap(),
        "npm install --registry https://registry.npmjs.org lodash"
    );
    assert_eq!(
        manager.install_command("u", "glue", Language::R).unwrap(),
        "R -e \"install.packages('glue', repos='https://cran.rstudio.com')\""
    );
    assert!(matches!(manager.add_to_allowlist("x", Language::Go), Err(PackageError::Unsupported)));
    assert_eq!(manager.get_allowlist(Language::R).len(), 8);
}

#[test]
fn mirror_hosts() {
    assert_eq!(mirror_host_of("https://mirror.local:8080/pypi/simple"), "mirror.local:8080");
    assert_eq!(mirror_host_of("https://pypi.org"), "pypi.org");
    assert_eq!(mirror_host_of("no-scheme"), "pypi.org");
}

#[test]
fn test_syslog_format() {
    let logger = AuditLogger::new(SiemFormat::Syslog);
    let event = create_execution_event(
        "test_user".to_string(),
        "exec-123".to_string(),
        "python",
        AuditOutcome::Success,
        150,
        0,
    );
    let line = logger.render(&event).expect("syslog renders a line");
    assert_eq!(
        line,
        "<6>1 1970-01-01T00:00:00+00:00 cage-orchestrator CAGE - - [user=\"test_user\" action=\"CODE_EXECUTION\" outcome=\"Success\" event_type=\"CodeExecution\"] language=python duration_ms=150"
    );
}

#[test]
fn test_cef_format() {
    let logger = AuditLogger::new(SiemFormat::Cef);
    let event = create_auth_event(
        "test_user".to_string(),
        AuditOutcome::Success,
        Some("192.168.1.100".to_string()),
        1234,
    );
    let line = logger.render(&event).expect("cef renders a line");
    assert_eq!(
        line,
        "CEF:0|CAGE|Orchestrator|1.0.0|Authentication|AUTHENTICATION|2|suser=test_user outcome=Success rt=1234 src=192.168.1.100"
    );
}

#[test]
fn json_format_renders_nothing_here() {
    let logger = AuditLogger::default();
    let event = create_file_event("u".to_string(), "upload".to_string(), "a.txt".to_string(), 10, 0);
    assert!(logger.render(&event).is_none());
    assert_eq!(logger.format_details(&event.details), "filename=a.txt size_bytes=10 operation=upload");
}

#[test]
fn workspace_paths_stay_inside() {
    assert_eq!(resolve_in_workspace("/data/user_a", "/sub/f.txt"), Ok("/data/user_a/sub/f.txt".to_string()));
    assert_eq!(resolve_in_workspace("/data/user_a", "f.txt"), Ok("/data/user_a/f.txt".to_string()));
    assert_eq!(resolve_in_workspace("/data/user_a", "../etc/passwd"), Err(PathError::Traversal));
    assert_eq!(resolve_in_workspace("/data/user_a", "/a/../../b"), Err(PathError::Traversal));
    assert_eq!(check_filename("ok.txt"), Ok(()));
    assert_eq!(check_filename("a/b"), Err(PathError::InvalidFilename));
    assert_eq!(check_filename(""), Err(PathError::InvalidFilename));
}

#[test]
fn kernel_script_escapes_code() {
    let kernel = KernelInfo { kernel_id: "k1".to_string(), user_id: "u".to_string(), container_id: "c".to_string() };
    assert_eq!(namespace_file(&kernel), "/tmp/namespace_k1.py");
    let script = wrap_code(&kernel, "print('a\\b')");
    assert!(script.contains("namespace_file = '/tmp/namespace_k1.py'"));
    assert!(script.contains("exec('''print(\\'a\\\\b\\')''', globals())"));
    let mut kernels = PersistentKernelManager::new();
    assert!(kernels.register_kernel(kernel.clone()));
    assert!(!kernels.register_kernel(kernel));
    assert_eq!(kernels.get_kernel("u").unwrap().kernel_id, "k1");
    kernels.stop_kernel("u");
    assert!(kernels.get_kernel("u").is_none());
}

#[test]
fn user_networks() {
    assert_eq!(NetworkManager::network_name("ab"), "cage_net_ab");
    assert_eq!(NetworkManager::subnet("ab"), "10.205.0.0/24");
    assert_eq!(
        NetworkManager::create_args("ab"),
        vec!["network", "create", "cage_net_ab", "--subnet", "10.205.0.0/24", "--disable-dns=false"]
    );
}

#[test]
fn metric_updates() {
    let created = record_session_created("amy");
    assert_eq!(created[0].name, "cage_sessions_created_total");
    assert_eq!(created[0].labels, vec![("user".to_string(), "amy".to_string())]);
    assert_eq!(created[1].change, MetricChange::GaugeUp);
    let failed = record_execution_counts("amy", "python", false);
    assert_eq!(failed[1].name, "cage_executions_error_total");
}

#[test]
fn mcp_resources_for_user() {
    let r = get_mcp_resources("amy");
    assert_eq!(r[0].uri, "cage://sessions/amy");
    assert_eq!(r[1].name, "amy's workspace files");
}

#[test]
fn decimal_rendering() {
    assert_eq!(decimal_string(0), "0");
    assert_eq!(decimal_string(1_000_000), "1000000");
    assert_eq!(decimal_string(u64::MAX), "18446744073709551615");
}

#[test]
fn syslog_line_with_given_time() {
    let logger = AuditLogger::new(SiemFormat::Syslog);
    let event = create_auth_event("u".to_string(), AuditOutcome::Denied, None, 0);
    assert_eq!(
        logger.syslog_line_at(&event, "T"),
        "<3>1 T cage-orchestrator CAGE - - [user=\"u\" action=\"AUTHENTICATION\" outcome=\"Denied\" event_type=\"Authentication\"] "
    );
}

#[test]
fn memory_amounts_in_bytes() {
    assert_eq!(parse_memory(b"123.4MiB"), Some(129394278));
    assert_eq!(parse_memory(b"1.2GiB"), Some(1288490188));
    assert_eq!(parse_memory(b"2GB"), Some(2147483648));
    assert_eq!(parse_memory(b"1.5kB"), Some(1536));
    assert_eq!(parse_memory(b".5KiB"), Some(512));
    assert_eq!(parse_memory(b"512B"), Some(512));
    assert_eq!(parse_memory(b"0B"), Some(0));
    assert_eq!(parse_memory(b"abc"), None);
    assert_eq!(parse_memory(b"1.2.3MiB"), None);
    assert_eq!(parse_memory(b"MiB"), None);
    assert_eq!(parse_memory(b"12"), None);
}

fn entry(name: &str, size: u64, is_dir: bool) -> DirEntry {
    DirEntry { name: name.to_string(), size_bytes: size, is_dir, modified_at_ms: 0 }
}

#[test]
fn workspace_listing() {
    let entries = vec![
        entry("zeta.txt", 10, false),
        entry(".hidden", 5, false),
        entry("exec_1.py", 7, false),
        entry("alpha", 0, true),
        entry("Beta.csv", 3, false),
    ];
    let listing = list_files("/data//", &entries);
    assert_eq!(listing.path, "/data//");
    let names: Vec<&str> = listing.files.iter().map(|f| f.name.as_str()).collect();
    assert_eq!(names, vec!["Beta.csv", "alpha", "zeta.txt"]);
    assert_eq!(listing.files[1].path, "/data/alpha");
    assert_eq!(listing.files[1].file_type, FileType::Directory);
    assert_eq!(listing.total_size_bytes, 13);
    let root = list_files("/", &vec![entry("a", u64::MAX, false), entry("b", 1, false)]);
    assert_eq!(root.files[0].path, "/a");
    assert_eq!(root.total_size_bytes, u64::MAX);
}

#[test]
fn stats_figures() {
    assert_eq!(parse_percent(b"12.5%"), Some(1250));
    assert_eq!(parse_percent(b"0.00%"), Some(0));
    assert_eq!(parse_percent(b"3.141%"), Some(314));
    assert_eq!(parse_percent(b"12.5"), None);
    assert_eq!(parse_count(b"42"), Some(42));
    assert_eq!(parse_count(b"4.2"), None);
    assert_eq!(parse_count(b"1234567890"), None);
    assert_eq!(parse_count(b""), None);
    let none = ResourceUsage { memory_bytes: 0, cpu_hundredths: 0, disk_mb: 0, pids: 0 };
    let usage = usage_from_stats(&none, b"0.50%", b"1.5MiB / 512MiB", b"7", 12);
    assert_eq!(usage.cpu_hundredths, 50);
    assert_eq!(usage.memory_bytes, 1572864);
    assert_eq!(usage.pids, 7);
    assert_eq!(usage.disk_mb, 12);
    let broken = usage_from_stats(&usage, b"n/a", b"??", b"-", 0);
    assert_eq!(broken.cpu_hundredths, 50);
    assert_eq!(broken.memory_bytes, 1572864);
    assert_eq!(broken.pids, 7);
}

#[test]
fn write_paths_are_cleaned() {
    assert_eq!(resolve_write_path("/w", "/a/b.txt"), Ok("/w/a/b.txt".to_string()));
    assert_eq!(resolve_write_path("/w", "../../etc/x"), Ok("/w//etc/x".to_string()));
    assert_eq!(resolve_write_path("/w", "a//b"), Ok("/w/a/b".to_string()));
    assert_eq!(resolve_write_path("/w", "a b"), Err(PathError::InvalidFilename));
    assert_eq!(resolve_write_path("/w", "x;rm"), Err(PathError::InvalidFilename));
}

#[test]
fn stale_replay_files() {
    let mut manager = ReplayManager::new(1);
    manager.store("u".to_string(), request("a"), response("id-a", "a"), 1);
    manager.store("u".to_string(), request("b"), response("id-b", "b"), 2);
    let names = vec!["id-a.json".to_string(), "id-b.json".to_string(), "notes.txt".to_string()];
    assert_eq!(manager.stale_files(&names), vec!["id-a.json".to_string()]);
}

#[test]
fn no_installer_languages_are_refused() {
    let config = PackageConfig { enabled: true, ..PackageConfig::default() };
    let mut manager = PackageManager::new(config);
    assert!(manager.install_command("u", "requests", Language::Go).is_err());
    assert!(manager.install_command("u", "requests", Language::Julia).is_err());
    assert!(manager.get_allowlist(Language::Go).is_empty());
    assert!(manager.add_to_allowlist("requests", Language::Julia).is_err());
}

#[test]
fn loading_keeps_the_newest() {
    let mut manager = ReplayManager::new(2);
    let stored = |id: &str, ts: u64| cage::replay::StoredExecution {
        execution_id: id.to_string(),
        user_id: "u".to_string(),
        timestamp_ms: ts,
        request: request("x"),
        response: response(id, "x"),
        code: "x".to_string(),
    };
    assert!(manager.load(stored("b", 20)));
    assert!(manager.load(stored("c", 30)));
    assert!(!manager.load(stored("a", 10)));
    assert!(manager.get("a").is_none());
    assert!(manager.load(stored("d", 40)));
    assert!(manager.get("b").is_none());
    assert!(manager.get("c").is_some() && manager.get("d").is_some());
}
