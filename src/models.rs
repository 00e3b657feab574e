//! Request, response and status types shared by the execution plane.
use vstd::prelude::*;

use crate::config::same_text;

verus! {

/// Languages a sandbox can run.
#[derive(Clone, Copy, Debug, PartialEq, Eq, Structural)]
pub enum Language {
    Python,
    Javascript,
    Bash,
    R,
    Julia,
    Typescript,
    Ruby,
    Go,
    Wasm,
}

impl Language {
    /// The lowercase wire name of the language.
    pub open spec fn name(self) -> Seq<char> {
        match self {
            Language::Python => "python"@,
            Language::Javascript => "javascript"@,
            Language::Bash => "bash"@,
            Language::R => "r"@,
            Language::Julia => "julia"@,
            Language::Typescript => "typescript"@,
            Language::Ruby => "ruby"@,
            Language::Go => "go"@,
            Language::Wasm => "wasm"@,
        }
    }

    /// The interpreter or toolchain binary inside the sandbox image.
    pub open spec fn interpreter(self) -> Seq<char> {
        match self {
            Language::Python => "python"@,
            Language::Javascript => "node"@,
            Language::Bash => "bash"@,
            Language::R => "Rscript"@,
            Language::Julia => "julia"@,
            Language::Typescript => "deno"@,
            Language::Ruby => "ruby"@,
            Language::Go => "go"@,
            Language::Wasm => "wasmtime"@,
        }
    }

    /// The file extension of a script in the language.
    pub open spec fn extension(self) -> Seq<char> {
        match self {
            Language::Python => "py"@,
            Language::Javascript => "js"@,
            Language::Bash => "sh"@,
            Language::R => "r"@,
            Language::Julia => "jl"@,
            Language::Typescript => "ts"@,
            Language::Ruby => "rb"@,
            Language::Go => "go"@,
            Language::Wasm => "wasm"@,
        }
    }

    /// The container image of the language family.
    pub open spec fn image(self) -> Seq<char> {
        match self {
            Language::Python => "cage-sandbox:latest"@,
            Language::Javascript => "cage-sandbox:latest"@,
            Language::Bash => "cage-sandbox:latest"@,
            Language::R => "cage-sandbox-r:latest"@,
            Language::Julia => "cage-sandbox-julia:latest"@,
            Language::Typescript => "cage-sandbox-typescript:latest"@,
            Language::Ruby => "cage-sandbox-ruby:latest"@,
            Language::Go => "cage-sandbox-go:latest"@,
            Language::Wasm => "cage-sandbox-wasm:latest"@,
        }
    }

    /// Compiled languages need a workspace that allows executing files.
    pub open spec fn needs_exec_mount(self) -> bool {
        self == Language::Go || self == Language::Wasm
    }

    pub fn as_str(&self) -> (r: &'static str)
        ensures
            r@ == self.name(),
    {
        match self {
            Language::Python => "python",
            Language::Javascript => "javascript",
            Language::Bash => "bash",
            Language::R => "r",
            Language::Julia => "julia",
            Language::Typescript => "typescript",
            Language::Ruby => "ruby",
            Language::Go => "go",
            Language::Wasm => "wasm",
        }
    }

    pub fn command(&self) -> (r: &'static str)
        ensures
            r@ == self.interpreter(),
    {
        match self {
            Language::Python => "python",
            Language::Javascript => "node",
            Language::Bash => "bash",
            Language::R => "Rscript",
            Language::Julia => "julia",
            Language::Typescript => "deno",
            Language::Ruby => "ruby",
            Language::Go => "go",
            Language::Wasm => "wasmtime",
        }
    }

    pub fn file_extension(&self) -> (r: &'static str)
        ensures
            r@ == self.extension(),
    {
        match self {
            Language::Python => "py",
            Language::Javascript => "js",
            Language::Bash => "sh",
            Language::R => "r",
            Language::Julia => "jl",
            Language::Typescript => "ts",
            Language::Ruby => "rb",
            Language::Go => "go",
            Language::Wasm => "wasm",
        }
    }

    pub fn container_image(&self) -> (r: &'static str)
        ensures
            r@ == self.image(),
    {
        match self {
            Language::Python => "cage-sandbox:latest",
            Language::Javascript => "cage-sandbox:latest",
            Language::Bash => "cage-sandbox:latest",
            Language::R => "cage-sandbox-r:latest",
            Language::Julia => "cage-sandbox-julia:latest",
            Language::Typescript => "cage-sandbox-typescript:latest",
            Language::Ruby => "cage-sandbox-ruby:latest",
            Language::Go => "cage-sandbox-go:latest",
            Language::Wasm => "cage-sandbox-wasm:latest",
        }
    }

    /// The language whose wire name is `name`.
    pub fn from_name(name: &str) -> (r: Option<Language>)
        ensures
            r matches Some(l) ==> l.name() == name@,
            r is None ==> forall|l: Language| l.name() != name@,
    {
        let all = [
            Language::Python,
            Language::Javascript,
            Language::Bash,
            Language::R,
            Language::Julia,
            Language::Typescript,
            Language::Ruby,
            Language::Go,
            Language::Wasm,
        ];
        let mut i: usize = 0;
        while i < 9
            invariant
                i <= 9,
                all@ == seq![
                    Language::Python,
                    Language::Javascript,
                    Language::Bash,
                    Language::R,
                    Language::Julia,
                    Language::Typescript,
                    Language::Ruby,
                    Language::Go,
                    Language::Wasm,
                ],
                forall|j: int| 0 <= j < i ==> all@[j].name() != name@,
            decreases 9 - i,
        {
            if same_text(all[i].as_str(), name) {
                return Some(all[i]);
            }
            i = i + 1;
        }
        assert forall|l: Language| l.name() != name@ by {
            let j: int = match l {
                Language::Python => 0,
                Language::Javascript => 1,
                Language::Bash => 2,
                Language::R => 3,
                Language::Julia => 4,
                Language::Typescript => 5,
                Language::Ruby => 6,
                Language::Go => 7,
                Language::Wasm => 8,
            };
            assert(all@[j] == l);
        }
        None
    }

    /// Whether the workspace of a session in this language is mounted with
    /// execute permission.
    pub fn exec_mount(&self) -> (r: bool)
        ensures
            r == self.needs_exec_mount(),
    {
        match self {
            Language::Go | Language::Wasm => true,
            _ => false,
        }
    }
}

impl Default for Language {
    fn default() -> (r: Language)
        ensures
            r == Language::Python,
    {
        default_language()
    }
}

/// The language of a request that names none.
pub fn default_language() -> (r: Language)
    ensures
        r == Language::Python,
{
    Language::Python
}

/// The timeout of a request that names none, in seconds.
pub fn default_timeout() -> (r: u64)
    ensures
        r == 30,
{
    30
}

/// The directory of an upload that names none.
pub fn default_path() -> (r: String)
    ensures
        r@ == "/"@,
{
    "/".to_string()
}

pub fn default_true() -> (r: bool)
    ensures
        r,
{
    true
}

/// Outcome of one execution.
#[derive(Clone, Copy, Debug, PartialEq, Eq, Structural)]
pub enum ExecutionStatus {
    Success,
    Error,
    Timeout,
    Killed,
}

/// Request to execute code in a sandbox.
#[derive(Clone, Debug)]
pub struct ExecuteRequest {
    pub language: Language,
    pub code: String,
    pub timeout_seconds: u64,
    pub working_dir: Option<String>,
    /// Extra environment variables, as ordered key/value pairs.
    pub env: Vec<(String, String)>,
    /// Run in the long-lived interpreter (Python only).
    pub persistent: bool,
}

/// Result of one execution.
#[derive(Clone, Debug)]
pub struct ExecuteResponse {
    /// Hyphenated UUID of the attempt.
    pub execution_id: String,
    pub status: ExecutionStatus,
    pub stdout: String,
    pub stderr: String,
    pub exit_code: Option<i32>,
    pub duration_ms: u64,
    /// Workspace entries present after the run, scratch files and dotfiles excluded.
    pub files_created: Vec<String>,
}

/// Status of an asynchronous job.
#[derive(Clone, Copy, Debug, PartialEq, Eq, Structural)]
pub enum JobStatus {
    Queued,
    Running,
    Completed,
    Failed,
    Timeout,
}

/// Kind of a workspace entry.
#[derive(Clone, Copy, Debug, PartialEq, Eq, Structural)]
pub enum FileType {
    File,
    Directory,
}

/// Upload of a base64 encoded file into a workspace.
#[derive(Clone, Debug)]
pub struct FileUploadRequest {
    pub filename: String,
    pub path: String,
    pub content: String,
    pub overwrite: bool,
}

/// Answer to an upload.
#[derive(Clone, Debug)]
pub struct FileUploadResponse {
    pub path: String,
    pub size_bytes: u64,
    /// Lowercase hex SHA-256 of the stored bytes.
    pub checksum: String,
}

/// Externally visible status of a session.
#[derive(Clone, Copy, Debug, PartialEq, Eq, Structural)]
pub enum SessionStatus {
    Running,
    Stopped,
    Creating,
    Error,
}

/// Request to create a session.
#[derive(Clone, Debug)]
pub struct CreateSessionRequest {
    pub language: Language,
    pub reset_workspace: bool,
}

impl Default for CreateSessionRequest {
    fn default() -> (r: CreateSessionRequest)
        ensures
            r.language == Language::Python,
            !r.reset_workspace,
    {
        CreateSessionRequest { language: default_language(), reset_workspace: false }
    }
}

/// Kind of a recorded security event.
#[derive(Clone, Copy, Debug, PartialEq, Eq, Structural)]
pub enum SecurityEventType {
    NetworkBlocked,
    ResourceExceeded,
    SuspiciousSyscall,
    FileAccessDenied,
}

/// Severity of a recorded security event.
#[derive(Clone, Copy, Debug, PartialEq, Eq, Structural)]
pub enum Severity {
    Info,
    Warning,
    Critical,
}

/// Health report of the orchestrator.
#[derive(Clone, Debug)]
pub struct HealthResponse {
    pub status: HealthStatus,
    pub version: String,
    pub uptime_seconds: u64,
    pub active_sessions: u64,
    pub podman_version: Option<String>,
}

#[derive(Clone, Copy, Debug, PartialEq, Eq, Structural)]
pub enum HealthStatus {
    Healthy,
    Degraded,
    Unhealthy,
}

#[derive(Clone, Copy, Debug, PartialEq, Eq, Structural)]
pub enum LogLevel {
    Debug,
    Info,
    Warn,
    Error,
}

} // verus!
