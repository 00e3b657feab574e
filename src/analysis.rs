//! Static pre-execution analysis: a per-language scan for risky patterns that
//! yields warnings, an overall risk level and a blocking decision.
use vstd::prelude::*;
use vstd::string::StringSliceAdditionalSpecFns;

use crate::models::Language;
use crate::text::{contains_str, find_line, has_substring, line_of_first};

verus! {

/// Risk levels, ordered from harmless to critical.
#[derive(Clone, Copy, Debug, PartialEq, Eq, Structural)]
pub enum RiskLevel {
    Safe,
    Low,
    Medium,
    High,
    Critical,
}

impl RiskLevel {
    /// Position of the level in the order Safe < Low < Medium < High < Critical.
    pub open spec fn rank(self) -> nat {
        match self {
            RiskLevel::Safe => 0,
            RiskLevel::Low => 1,
            RiskLevel::Medium => 2,
            RiskLevel::High => 3,
            RiskLevel::Critical => 4,
        }
    }

    /// The higher of two levels.
    pub open spec fn higher(self, other: RiskLevel) -> RiskLevel {
        if self.rank() >= other.rank() {
            self
        } else {
            other
        }
    }

    pub fn max(self, other: RiskLevel) -> (r: RiskLevel)
        ensures
            r == self.higher(other),
    {
        match (self, other) {
            (RiskLevel::Critical, _) | (_, RiskLevel::Critical) => RiskLevel::Critical,
            (RiskLevel::High, _) | (_, RiskLevel::High) => RiskLevel::High,
            (RiskLevel::Medium, _) | (_, RiskLevel::Medium) => RiskLevel::Medium,
            (RiskLevel::Low, _) | (_, RiskLevel::Low) => RiskLevel::Low,
            _ => RiskLevel::Safe,
        }
    }
}

/// One finding of the analyzer.
#[derive(Clone, Debug)]
pub struct SecurityWarning {
    /// SCREAMING_SNAKE_CASE category.
    pub category: String,
    pub message: String,
    pub severity: RiskLevel,
    /// 1-based line of the first match, where one is known.
    pub line: Option<usize>,
}

/// A warning as plain values.
pub struct WarningView {
    pub category: Seq<char>,
    pub message: Seq<char>,
    pub severity: RiskLevel,
    pub line: Option<usize>,
}

impl SecurityWarning {
    pub open spec fn view(self) -> WarningView {
        WarningView {
            category: self.category@,
            message: self.message@,
            severity: self.severity,
            line: self.line,
        }
    }
}

pub open spec fn warnings_view(ws: Seq<SecurityWarning>) -> Seq<WarningView> {
    ws.map_values(|w: SecurityWarning| w.view())
}

/// The highest severity among the warnings; Safe when there are none.
pub open spec fn max_severity(ws: Seq<WarningView>) -> RiskLevel
    decreases ws.len(),
{
    if ws.len() == 0 {
        RiskLevel::Safe
    } else {
        max_severity(ws.drop_last()).higher(ws.last().severity)
    }
}

/// Verdict of the analyzer on a piece of code.
#[derive(Clone, Debug)]
pub struct AnalysisResult {
    pub risk_level: RiskLevel,
    pub warnings: Vec<SecurityWarning>,
    pub blocked: bool,
}

/// `r` reports exactly the warnings `ws`, their highest severity, and blocks
/// iff the analyzer is strict and that severity is Critical.
pub open spec fn reports(r: AnalysisResult, ws: Seq<WarningView>, strict: bool) -> bool {
    &&& warnings_view(r.warnings@) == ws
    &&& r.risk_level == max_severity(ws)
    &&& r.blocked == (strict && max_severity(ws) == RiskLevel::Critical)
}

pub open spec fn mentions(c: Seq<u8>, p: &str) -> bool {
    has_substring(c, p.spec_bytes())
}

pub open spec fn line_of(c: Seq<u8>, p: &str) -> Option<usize> {
    line_of_first(c, p.spec_bytes())
}

pub open spec fn first_known(a: Option<usize>, b: Option<usize>) -> Option<usize> {
    if a is Some {
        a
    } else {
        b
    }
}

pub open spec fn warn(cat: &str, msg: &str, sev: RiskLevel, line: Option<usize>) -> WarningView {
    WarningView { category: cat@, message: msg@, severity: sev, line }
}

/// `ws` followed by `w` when `cond` holds.
pub open spec fn add_if(ws: Seq<WarningView>, cond: bool, w: WarningView) -> Seq<WarningView> {
    if cond {
        ws.push(w)
    } else {
        ws
    }
}

pub open spec fn python_warnings(c: Seq<u8>) -> Seq<WarningView> {
    let s1 = add_if(
        Seq::empty(),
        mentions(c, "import os") && mentions(c, "os.system"),
        warn(
            "SHELL_EXECUTION",
            "Uses os.system() for shell command execution",
            RiskLevel::Medium,
            line_of(c, "os.system"),
        ),
    );
    let s2 = add_if(
        s1,
        mentions(c, "import subprocess") || mentions(c, "from subprocess"),
        warn(
            "SUBPROCESS",
            "Uses subprocess module for process spawning",
            RiskLevel::Medium,
            line_of(c, "subprocess"),
        ),
    );
    let s3 = add_if(
        s2,
        mentions(c, "eval(") || mentions(c, "exec("),
        warn(
            "CODE_INJECTION",
            "Uses eval() or exec() - potential code injection risk",
            RiskLevel::High,
            first_known(line_of(c, "eval("), line_of(c, "exec(")),
        ),
    );
    let s4 = add_if(
        s3,
        mentions(c, "__import__"),
        warn(
            "DYNAMIC_IMPORT",
            "Uses __import__() for dynamic imports",
            RiskLevel::High,
            line_of(c, "__import__"),
        ),
    );
    let s5 = add_if(
        s4,
        mentions(c, "open(") && (mentions(c, "/etc/") || mentions(c, "/proc/") || mentions(c, "/sys/")),
        warn(
            "SYSTEM_FILE_ACCESS",
            "Attempts to access system files (/etc, /proc, /sys)",
            RiskLevel::Low,
            first_known(line_of(c, "/etc/"), line_of(c, "/proc/")),
        ),
    );
    let s6 = add_if(
        s5,
        mentions(c, "while True:") && !mentions(c, "break"),
        warn(
            "INFINITE_LOOP",
            "Contains while True without obvious break condition",
            RiskLevel::Medium,
            line_of(c, "while True:"),
        ),
    );
    let s7 = add_if(
        s6,
        mentions(c, "import socket") || mentions(c, "from socket"),
        warn(
            "NETWORK_ACCESS",
            "Attempts network socket operations",
            RiskLevel::Low,
            line_of(c, "socket"),
        ),
    );
    add_if(
        s7,
        mentions(c, "os.remove") || mentions(c, "shutil.rmtree") || mentions(c, "os.unlink"),
        warn(
            "FILE_DELETION",
            "Deletes files or directories",
            RiskLevel::Low,
            first_known(line_of(c, "remove"), line_of(c, "rmtree")),
        ),
    )
}

pub open spec fn javascript_warnings(c: Seq<u8>) -> Seq<WarningView> {
    let s1 = add_if(
        Seq::empty(),
        mentions(c, "child_process") || mentions(c, "exec(") || mentions(c, "spawn("),
        warn(
            "SUBPROCESS",
            "Uses child_process module",
            RiskLevel::Medium,
            line_of(c, "child_process"),
        ),
    );
    let s2 = add_if(
        s1,
        mentions(c, "eval("),
        warn("CODE_INJECTION", "Uses eval() - code injection risk", RiskLevel::High, line_of(c, "eval(")),
    );
    add_if(
        s2,
        mentions(c, "while(true)") || mentions(c, "while (true)"),
        warn("INFINITE_LOOP", "Contains infinite loop", RiskLevel::Medium, line_of(c, "while")),
    )
}

pub open spec fn bash_warnings(c: Seq<u8>) -> Seq<WarningView> {
    let s1 = add_if(
        Seq::empty(),
        mentions(c, "rm -rf"),
        warn(
            "DESTRUCTIVE_COMMAND",
            "Uses rm -rf (recursive deletion)",
            RiskLevel::High,
            line_of(c, "rm -rf"),
        ),
    );
    let s2 = add_if(
        s1,
        mentions(c, ":(){ :|:& };:") || mentions(c, "fork bomb"),
        warn("FORK_BOMB", "Potential fork bomb detected", RiskLevel::Critical, Some(1usize)),
    );
    let s3 = add_if(
        s2,
        mentions(c, "curl") || mentions(c, "wget"),
        warn(
            "NETWORK_ACCESS",
            "Attempts to download from internet",
            RiskLevel::Low,
            first_known(line_of(c, "curl"), line_of(c, "wget")),
        ),
    );
    add_if(
        s3,
        mentions(c, "sudo") || mentions(c, "su "),
        warn(
            "PRIVILEGE_ESCALATION",
            "Attempts privilege escalation",
            RiskLevel::Critical,
            line_of(c, "sudo"),
        ),
    )
}

pub open spec fn r_warnings(c: Seq<u8>) -> Seq<WarningView> {
    let s1 = add_if(
        Seq::empty(),
        mentions(c, "system(") || mentions(c, "system2("),
        warn(
            "SHELL_EXECUTION",
            "Uses system() for shell command execution",
            RiskLevel::Medium,
            line_of(c, "system("),
        ),
    );
    let s2 = add_if(
        s1,
        mentions(c, "eval(") || mentions(c, "parse("),
        warn(
            "CODE_INJECTION",
            "Uses eval() or parse() - potential code injection",
            RiskLevel::Medium,
            line_of(c, "eval("),
        ),
    );
    add_if(
        s2,
        mentions(c, "file.remove") || mentions(c, "unlink("),
        warn("FILE_DELETION", "Deletes files", RiskLevel::Low, line_of(c, "file.remove")),
    )
}

pub open spec fn julia_warnings(c: Seq<u8>) -> Seq<WarningView> {
    let s1 = add_if(
        Seq::empty(),
        mentions(c, "run(`") || mentions(c, "@cmd"),
        warn("SHELL_EXECUTION", "Uses shell command execution", RiskLevel::Medium, line_of(c, "run(`")),
    );
    let s2 = add_if(
        s1,
        mentions(c, "eval(") || mentions(c, "include("),
        warn(
            "CODE_INJECTION",
            "Uses eval() or include() - potential code injection",
            RiskLevel::Medium,
            line_of(c, "eval("),
        ),
    );
    add_if(
        s2,
        mentions(c, "rm("),
        warn("FILE_DELETION", "Deletes files", RiskLevel::Low, line_of(c, "rm(")),
    )
}

pub open spec fn typescript_warnings(c: Seq<u8>) -> Seq<WarningView> {
    add_if(
        javascript_warnings(c),
        mentions(c, "child_process") || mentions(c, "Deno.run"),
        warn(
            "SUBPROCESS",
            "Uses process execution",
            RiskLevel::Medium,
            first_known(line_of(c, "Deno.run"), line_of(c, "child_process")),
        ),
    )
}

pub open spec fn ruby_warnings(c: Seq<u8>) -> Seq<WarningView> {
    let s1 = add_if(
        Seq::empty(),
        mentions(c, "system(") || mentions(c, "exec(") || mentions(c, "`"),
        warn(
            "SHELL_EXECUTION",
            "Uses system() or backticks for shell execution",
            RiskLevel::Medium,
            first_known(line_of(c, "system("), line_of(c, "exec(")),
        ),
    );
    let s2 = add_if(
        s1,
        mentions(c, "eval(") || mentions(c, "instance_eval") || mentions(c, "class_eval"),
        warn(
            "CODE_INJECTION",
            "Uses eval() - potential code injection",
            RiskLevel::High,
            line_of(c, "eval("),
        ),
    );
    add_if(
        s2,
        mentions(c, "File.delete") || mentions(c, "FileUtils.rm"),
        warn("FILE_DELETION", "Deletes files", RiskLevel::Low, line_of(c, "File.delete")),
    )
}

pub open spec fn go_warnings(c: Seq<u8>) -> Seq<WarningView> {
    let s1 = add_if(
        Seq::empty(),
        mentions(c, "os/exec") || mentions(c, "exec.Command"),
        warn(
            "SUBPROCESS",
            "Uses os/exec for process execution",
            RiskLevel::Medium,
            line_of(c, "exec.Command"),
        ),
    );
    let s2 = add_if(
        s1,
        mentions(c, "os.Remove") || mentions(c, "os.RemoveAll"),
        warn("FILE_DELETION", "Deletes files or directories", RiskLevel::Low, line_of(c, "os.Remove")),
    );
    add_if(
        s2,
        mentions(c, "net.Dial") || mentions(c, "http.Get"),
        warn(
            "NETWORK_ACCESS",
            "Attempts network operations",
            RiskLevel::Low,
            first_known(line_of(c, "net.Dial"), line_of(c, "http.Get")),
        ),
    )
}

/// The warnings the analyzer raises for code (as UTF-8 bytes) in a language.
pub open spec fn warnings_for(c: Seq<u8>, language: Language) -> Seq<WarningView> {
    match language {
        Language::Python => python_warnings(c),
        Language::Javascript => javascript_warnings(c),
        Language::Bash => bash_warnings(c),
        Language::R => r_warnings(c),
        Language::Julia => julia_warnings(c),
        Language::Typescript => typescript_warnings(c),
        Language::Ruby => ruby_warnings(c),
        Language::Go => go_warnings(c),
        Language::Wasm => Seq::empty(),
    }
}

fn warning(cat: &str, msg: &str, severity: RiskLevel, line: Option<usize>) -> (r: SecurityWarning)
    ensures
        r.view() == warn(cat, msg, severity, line),
{
    SecurityWarning { category: cat.to_string(), message: msg.to_string(), severity, line }
}

fn push_warning(ws: &mut Vec<SecurityWarning>, w: SecurityWarning)
    ensures
        warnings_view(final(ws)@) == warnings_view(old(ws)@).push(w.view()),
{
    ws.push(w);
    assert(warnings_view(ws@) =~= warnings_view(old(ws)@).push(w.view()));
}

fn either_line(a: Option<usize>, b: Option<usize>) -> (r: Option<usize>)
    ensures
        r == first_known(a, b),
{
    match a {
        Some(l) => Some(l),
        None => b,
    }
}

/// Pattern-based analyzer; in strict mode Critical findings block execution.
pub struct CodeAnalyzer {
    block_critical: bool,
}

impl CodeAnalyzer {
    pub closed spec fn strict(&self) -> bool {
        self.block_critical
    }

    pub fn new(block_critical: bool) -> (r: CodeAnalyzer)
        ensures
            r.strict() == block_critical,
    {
        CodeAnalyzer { block_critical }
    }

    /// Analyze code before execution.
    pub fn analyze(&self, code: &str, language: Language) -> (r: AnalysisResult)
        ensures
            reports(r, warnings_for(code.spec_bytes(), language), self.strict()),
    {
        match language {
            Language::Python => self.analyze_python(code),
            Language::Javascript => self.analyze_javascript(code),
            Language::Bash => self.analyze_bash(code),
            Language::R => self.analyze_r(code),
            Language::Julia => self.analyze_julia(code),
            Language::Typescript => self.analyze_typescript(code),
            Language::Ruby => self.analyze_ruby(code),
            Language::Go => self.analyze_go(code),
            Language::Wasm => self.analyze_wasm(code),
        }
    }

    /// Aggregates findings into a verdict.
    fn conclude(&self, warnings: Vec<SecurityWarning>) -> (r: AnalysisResult)
        ensures
            reports(r, warnings_view(warnings@), self.strict()),
    {
        let ghost ws = warnings_view(warnings@);
        let mut risk = RiskLevel::Safe;
        let mut i: usize = 0;
        while i < warnings.len()
            invariant
                ws == warnings_view(warnings@),
                i <= warnings@.len(),
                risk == max_severity(ws.take(i as int)),
            decreases warnings@.len() - i,
        {
            proof {
                assert(ws.take(i + 1).drop_last() =~= ws.take(i as int));
            }
            risk = risk.max(warnings[i].severity);
            i = i + 1;
        }
        assert(ws.take(i as int) =~= ws);
        let blocked = self.block_critical && risk == RiskLevel::Critical;
        AnalysisResult { risk_level: risk, warnings, blocked }
    }

    fn python_findings(&self, code: &str) -> (r: Vec<SecurityWarning>)
        ensures
            warnings_view(r@) == python_warnings(code.spec_bytes()),
    {
        let mut ws: Vec<SecurityWarning> = Vec::new();
        assert(warnings_view(ws@) =~= Seq::empty());
        if contains_str(code, "import os") && contains_str(code, "os.system") {
            push_warning(
                &mut ws,
                warning(
                    "SHELL_EXECUTION",
                    "Uses os.system() for shell command execution",
                    RiskLevel::Medium,
                    find_line(code, "os.system"),
                ),
            );
        }
        if contains_str(code, "import subprocess") || contains_str(code, "from subprocess") {
            push_warning(
                &mut ws,
                warning(
                    "SUBPROCESS",
                    "Uses subprocess module for process spawning",
                    RiskLevel::Medium,
                    find_line(code, "subprocess"),
                ),
            );
        }
        if contains_str(code, "eval(") || contains_str(code, "exec(") {
            push_warning(
                &mut ws,
                warning(
                    "CODE_INJECTION",
                    "Uses eval() or exec() - potential code injection risk",
                    RiskLevel::High,
                    either_line(find_line(code, "eval("), find_line(code, "exec(")),
                ),
            );
        }
        if contains_str(code, "__import__") {
            push_warning(
                &mut ws,
                warning(
                    "DYNAMIC_IMPORT",
                    "Uses __import__() for dynamic imports",
                    RiskLevel::High,
                    find_line(code, "__import__"),
                ),
            );
        }
        if contains_str(code, "open(") && (contains_str(code, "/etc/") || contains_str(
            code,
            "/proc/",
        ) || contains_str(code, "/sys/")) {
            push_warning(
                &mut ws,
                warning(
                    "SYSTEM_FILE_ACCESS",
                    "Attempts to access system files (/etc, /proc, /sys)",
                    RiskLevel::Low,
                    either_line(find_line(code, "/etc/"), find_line(code, "/proc/")),
                ),
            );
        }
        if contains_str(code, "while True:") && !contains_str(code, "break") {
            push_warning(
                &mut ws,
                warning(
                    "INFINITE_LOOP",
                    "Contains while True without obvious break condition",
                    RiskLevel::Medium,
                    find_line(code, "while True:"),
                ),
            );
        }
        if contains_str(code, "import socket") || contains_str(code, "from socket") {
            push_warning(
                &mut ws,
                warning(
                    "NETWORK_ACCESS",
                    "Attempts network socket operations",
                    RiskLevel::Low,
                    find_line(code, "socket"),
                ),
            );
        }
        if contains_str(code, "os.remove") || contains_str(code, "shutil.rmtree") || contains_str(
            code,
            "os.unlink",
        ) {
            push_warning(
                &mut ws,
                warning(
                    "FILE_DELETION",
                    "Deletes files or directories",
                    RiskLevel::Low,
                    either_line(find_line(code, "remove"), find_line(code, "rmtree")),
                ),
            );
        }
        ws
    }

    /// Analyze Python code.
    fn analyze_python(&self, code: &str) -> (r: AnalysisResult)
        ensures
            reports(r, python_warnings(code.spec_bytes()), self.strict()),
    {
        self.conclude(self.python_findings(code))
    }
    fn javascript_findings(&self, code: &str) -> (r: Vec<SecurityWarning>)
        ensures
            warnings_view(r@) == javascript_warnings(code.spec_bytes()),
    {
        let mut ws: Vec<SecurityWarning> = Vec::new();
        assert(warnings_view(ws@) =~= Seq::empty());
        if contains_str(code, "child_process") || contains_str(code, "exec(") || contains_str(
            code,
            "spawn(",
        ) {
            push_warning(
                &mut ws,
                warning(
                    "SUBPROCESS",
                    "Uses child_process module",
                    RiskLevel::Medium,
                    find_line(code, "child_process"),
                ),
            );
        }
        if contains_str(code, "eval(") {
            push_warning(
                &mut ws,
                warning(
                    "CODE_INJECTION",
                    "Uses eval() - code injection risk",
                    RiskLevel::High,
                    find_line(code, "eval("),
                ),
            );
        }
        if contains_str(code, "while(true)") || contains_str(code, "while (true)") {
            push_warning(
                &mut ws,
                warning(
                    "INFINITE_LOOP",
                    "Contains infinite loop",
                    RiskLevel::Medium,
                    find_line(code, "while"),
                ),
            );
        }
        ws
    }

    /// Analyze JavaScript code.
    fn analyze_javascript(&self, code: &str) -> (r: AnalysisResult)
        ensures
            reports(r, javascript_warnings(code.spec_bytes()), self.strict()),
    {
        self.conclude(self.javascript_findings(code))
    }

    /// Analyze Bash code.
    fn analyze_bash(&self, code: &str) -> (r: AnalysisResult)
        ensures
            reports(r, bash_warnings(code.spec_bytes()), self.strict()),
    {
        let mut ws: Vec<SecurityWarning> = Vec::new();
        assert(warnings_view(ws@) =~= Seq::empty());
        if contains_str(code, "rm -rf") {
            push_warning(
                &mut ws,
                warning(
                    "DESTRUCTIVE_COMMAND",
                    "Uses rm -rf (recursive deletion)",
                    RiskLevel::High,
                    find_line(code, "rm -rf"),
                ),
            );
        }
        if contains_str(code, ":(){ :|:& };:") || contains_str(code, "fork bomb") {
            push_warning(
                &mut ws,
                warning("FORK_BOMB", "Potential fork bomb detected", RiskLevel::Critical, Some(1)),
            );
        }
        if contains_str(code, "curl") || contains_str(code, "wget") {
            push_warning(
                &mut ws,
                warning(
                    "NETWORK_ACCESS",
                    "Attempts to download from internet",
                    RiskLevel::Low,
                    either_line(find_line(code, "curl"), find_line(code, "wget")),
                ),
            );
        }
        if contains_str(code, "sudo") || contains_str(code, "su ") {
            push_warning(
                &mut ws,
                warning(
                    "PRIVILEGE_ESCALATION",
                    "Attempts privilege escalation",
                    RiskLevel::Critical,
                    find_line(code, "sudo"),
                ),
            );
        }
        self.conclude(ws)
    }

    /// Analyze R code.
    fn analyze_r(&self, code: &str) -> (r: AnalysisResult)
        ensures
            reports(r, r_warnings(code.spec_bytes()), self.strict()),
    {
        let mut ws: Vec<SecurityWarning> = Vec::new();
        assert(warnings_view(ws@) =~= Seq::empty());
        if contains_str(code, "system(") || contains_str(code, "system2(") {
            push_warning(
                &mut ws,
                warning(
                    "SHELL_EXECUTION",
                    "Uses system() for shell command execution",
                    RiskLevel::Medium,
                    find_line(code, "system("),
                ),
            );
        }
        if contains_str(code, "eval(") || contains_str(code, "parse(") {
            push_warning(
                &mut ws,
                warning(
                    "CODE_INJECTION",
                    "Uses eval() or parse() - potential code injection",
                    RiskLevel::Medium,
                    find_line(code, "eval("),
                ),
            );
        }
        if contains_str(code, "file.remove") || contains_str(code, "unlink(") {
            push_warning(
                &mut ws,
                warning("FILE_DELETION", "Deletes files", RiskLevel::Low, find_line(code, "file.remove")),
            );
        }
        self.conclude(ws)
    }

    /// Analyze Julia code.
    fn analyze_julia(&self, code: &str) -> (r: AnalysisResult)
        ensures
            reports(r, julia_warnings(code.spec_bytes()), self.strict()),
    {
        let mut ws: Vec<SecurityWarning> = Vec::new();
        assert(warnings_view(ws@) =~= Seq::empty());
        if contains_str(code, "run(`") || contains_str(code, "@cmd") {
            push_warning(
                &mut ws,
                warning(
                    "SHELL_EXECUTION",
                    "Uses shell command execution",
                    RiskLevel::Medium,
                    find_line(code, "run(`"),
                ),
            );
        }
        if contains_str(code, "eval(") || contains_str(code, "include(") {
            push_warning(
                &mut ws,
                warning(
                    "CODE_INJECTION",
                    "Uses eval() or include() - potential code injection",
                    RiskLevel::Medium,
                    find_line(code, "eval("),
                ),
            );
        }
        if contains_str(code, "rm(") {
            push_warning(
                &mut ws,
                warning("FILE_DELETION", "Deletes files", RiskLevel::Low, find_line(code, "rm(")),
            );
        }
        self.conclude(ws)
    }

    /// Analyze TypeScript code: the JavaScript rules plus process execution.
    fn analyze_typescript(&self, code: &str) -> (r: AnalysisResult)
        ensures
            reports(r, typescript_warnings(code.spec_bytes()), self.strict()),
    {
        let mut ws = self.javascript_findings(code);
        if contains_str(code, "child_process") || contains_str(code, "Deno.run") {
            push_warning(
                &mut ws,
                warning(
                    "SUBPROCESS",
                    "Uses process execution",
                    RiskLevel::Medium,
                    either_line(find_line(code, "Deno.run"), find_line(code, "child_process")),
                ),
            );
        }
        self.conclude(ws)
    }

    /// Analyze Ruby code.
    fn analyze_ruby(&self, code: &str) -> (r: AnalysisResult)
        ensures
            reports(r, ruby_warnings(code.spec_bytes()), self.strict()),
    {
        let mut ws: Vec<SecurityWarning> = Vec::new();
        assert(warnings_view(ws@) =~= Seq::empty());
        if contains_str(code, "system(") || contains_str(code, "exec(") || contains_str(code, "`") {
            push_warning(
                &mut ws,
                warning(
                    "SHELL_EXECUTION",
                    "Uses system() or backticks for shell execution",
                    RiskLevel::Medium,
                    either_line(find_line(code, "system("), find_line(code, "exec(")),
                ),
            );
        }
        if contains_str(code, "eval(") || contains_str(code, "instance_eval") || contains_str(
            code,
            "class_eval",
        ) {
            push_warning(
                &mut ws,
                warning(
                    "CODE_INJECTION",
                    "Uses eval() - potential code injection",
                    RiskLevel::High,
                    find_line(code, "eval("),
                ),
            );
        }
        if contains_str(code, "File.delete") || contains_str(code, "FileUtils.rm") {
            push_warning(
                &mut ws,
                warning("FILE_DELETION", "Deletes files", RiskLevel::Low, find_line(code, "File.delete")),
            );
        }
        self.conclude(ws)
    }

    /// Analyze Go code.
    fn analyze_go(&self, code: &str) -> (r: AnalysisResult)
        ensures
            reports(r, go_warnings(code.spec_bytes()), self.strict()),
    {
        let mut ws: Vec<SecurityWarning> = Vec::new();
        assert(warnings_view(ws@) =~= Seq::empty());
        if contains_str(code, "os/exec") || contains_str(code, "exec.Command") {
            push_warning(
                &mut ws,
                warning(
                    "SUBPROCESS",
                    "Uses os/exec for process execution",
                    RiskLevel::Medium,
                    find_line(code, "exec.Command"),
                ),
            );
        }
        if contains_str(code, "os.Remove") || contains_str(code, "os.RemoveAll") {
            push_warning(
                &mut ws,
                warning(
                    "FILE_DELETION",
                    "Deletes files or directories",
                    RiskLevel::Low,
                    find_line(code, "os.Remove"),
                ),
            );
        }
        if contains_str(code, "net.Dial") || contains_str(code, "http.Get") {
            push_warning(
                &mut ws,
                warning(
                    "NETWORK_ACCESS",
                    "Attempts network operations",
                    RiskLevel::Low,
                    either_line(find_line(code, "net.Dial"), find_line(code, "http.Get")),
                ),
            );
        }
        self.conclude(ws)
    }

    /// WebAssembly runs under the runtime's own capability sandbox: nothing to flag.
    fn analyze_wasm(&self, _code: &str) -> (r: AnalysisResult)
        ensures
            reports(r, Seq::empty(), self.strict()),
    {
        let ws: Vec<SecurityWarning> = Vec::new();
        assert(warnings_view(ws@) =~= Seq::empty());
        self.conclude(ws)
    }
}

impl Default for CodeAnalyzer {
    /// Warns without blocking.
    fn default() -> (r: CodeAnalyzer)
        ensures
            !r.strict(),
    {
        CodeAnalyzer::new(false)
    }
}

/// The verdict depends on the code, the language and the analyzer's mode
/// alone: two analyses of the same input agree on risk level, warnings and
/// blocking decision.
pub proof fn lemma_analysis_deterministic(
    strict: bool,
    code: Seq<u8>,
    language: Language,
    first: AnalysisResult,
    second: AnalysisResult,
)
    requires
        reports(first, warnings_for(code, language), strict),
        reports(second, warnings_for(code, language), strict),
    ensures
        first.risk_level == second.risk_level,
        warnings_view(first.warnings@) == warnings_view(second.warnings@),
        first.blocked == second.blocked,
{
}

} // verus!
