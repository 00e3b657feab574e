use cage::analysis::{CodeAnalyzer, RiskLevel};
use cage::models::Language;
use cage::text::find_line;

#[test]
fn test_python_analysis() {
    let analyzer = CodeAnalyzer::default();

    let result = analyzer.analyze("print('hello')", Language::Python);
    assert_eq!(result.risk_level, RiskLevel::Safe);
    assert_eq!(result.warnings.len(), 0);

    let result = analyzer.analyze("import os\nos.system('rm -rf /')", Language::Python);
    assert_eq!(result.risk_level, RiskLevel::Medium);
    assert!(!result.warnings.is_empty());

    let result = analyzer.analyze("eval(user_input)", Language::Python);
    assert_eq!(result.risk_level, RiskLevel::High);
}

#[test]
fn test_bash_analysis() {
    let analyzer = CodeAnalyzer::new(true);

    let result = analyzer.analyze(":(){ :|:& };:", Language::Bash);
    assert_eq!(result.risk_level, RiskLevel::Critical);
    assert!(result.blocked);
}

#[test]
fn python_warning_carries_category_and_line() {
    let analyzer = CodeAnalyzer::default();
    let result = analyzer.analyze("x = 1\nimport os\nos.system('ls')", Language::Python);
    assert_eq!(result.warnings.len(), 1);
    assert_eq!(result.warnings[0].category, "SHELL_EXECUTION");
    assert_eq!(result.warnings[0].message, "Uses os.system() for shell command execution");
    assert_eq!(result.warnings[0].severity, RiskLevel::Medium);
    assert_eq!(result.warnings[0].line, Some(3));
    assert!(!result.blocked);
}

#[test]
fn critical_code_is_not_blocked_when_lenient() {
    let analyzer = CodeAnalyzer::new(false);
    let result = analyzer.analyze("sudo rm -rf /", Language::Bash);
    assert_eq!(result.risk_level, RiskLevel::Critical);
    assert!(!result.blocked);
    let categories: Vec<&str> = result.warnings.iter().map(|w| w.category.as_str()).collect();
    assert_eq!(categories, vec!["DESTRUCTIVE_COMMAND", "PRIVILEGE_ESCALATION"]);
}

#[test]
fn risk_is_the_highest_severity() {
    let analyzer = CodeAnalyzer::default();
    let result = analyzer.analyze("import socket\nwhile True:\n  pass\neval('1')", Language::Python);
    let categories: Vec<&str> = result.warnings.iter().map(|w| w.category.as_str()).collect();
    assert_eq!(categories, vec!["CODE_INJECTION", "INFINITE_LOOP", "NETWORK_ACCESS"]);
    assert_eq!(result.risk_level, RiskLevel::High);
    assert_eq!(result.warnings[0].line, Some(4));
}

#[test]
fn typescript_adds_process_execution() {
    let analyzer = CodeAnalyzer::default();
    let result = analyzer.analyze("const p = Deno.run({cmd: ['ls']})", Language::Typescript);
    assert_eq!(result.warnings.len(), 1);
    assert_eq!(result.warnings[0].category, "SUBPROCESS");
    assert_eq!(result.warnings[0].message, "Uses process execution");
    assert_eq!(result.risk_level, RiskLevel::Medium);
}

#[test]
fn wasm_is_always_safe() {
    let analyzer = CodeAnalyzer::new(true);
    let result = analyzer.analyze("sudo rm -rf / ; eval(", Language::Wasm);
    assert_eq!(result.risk_level, RiskLevel::Safe);
    assert!(result.warnings.is_empty());
    assert!(!result.blocked);
}

#[test]
fn other_languages_flag_their_rules() {
    let analyzer = CodeAnalyzer::default();
    assert_eq!(analyzer.analyze("system('ls')", Language::R).risk_level, RiskLevel::Medium);
    assert_eq!(analyzer.analyze("run(`ls`)", Language::Julia).risk_level, RiskLevel::Medium);
    assert_eq!(analyzer.analyze("x.instance_eval { }", Language::Ruby).risk_level, RiskLevel::High);
    assert_eq!(analyzer.analyze("net.Dial(\"tcp\", a)", Language::Go).risk_level, RiskLevel::Low);
    assert_eq!(analyzer.analyze("while(true) {}", Language::Javascript).risk_level, RiskLevel::Medium);
}

#[test]
fn analysis_is_deterministic() {
    let analyzer = CodeAnalyzer::new(true);
    let code = "import subprocess\nopen('/etc/passwd')";
    let a = analyzer.analyze(code, Language::Python);
    let b = analyzer.analyze(code, Language::Python);
    assert_eq!(a.risk_level, b.risk_level);
    assert_eq!(a.blocked, b.blocked);
    assert_eq!(a.warnings.len(), b.warnings.len());
    for (x, y) in a.warnings.iter().zip(b.warnings.iter()) {
        assert_eq!(x.category, y.category);
        assert_eq!(x.message, y.message);
        assert_eq!(x.severity, y.severity);
        assert_eq!(x.line, y.line);
    }
}

#[test]
fn find_line_counts_newlines() {
    assert_eq!(find_line("a\nb\nc eval(x)", "eval("), Some(3));
    assert_eq!(find_line("abc", "zzz"), None);
    assert_eq!(find_line("", "x"), None);
    assert_eq!(find_line("é\nsocket", "socket"), Some(2));
}
