//! Execution of one request against a session: the scratch file name, the
//! container exec command, and the reading of what the process produced.
//! Spawning the process and waiting on it happen outside; this module decides.
use vstd::prelude::*;
use sha2::Digest;
use vstd::string::StringSliceAdditionalSpecFns;
use vstd::utf8::encode_utf8;

use crate::models::{ExecuteRequest, ExecuteResponse, ExecutionStatus, Language};
use crate::session::ExecutionSummary;
use crate::text::{concat, concat3, decimal, decimal_string, is_prefix, push_text, starts_with, strings_view};

verus! {

/// Mount point of the workspace inside every container.
pub const WORKSPACE_MOUNT: &'static str = "/mnt/data";

/// Lowercase hexadecimal SHA-256 digest of a byte string.
pub uninterp spec fn sha256_hex(data: Seq<u8>) -> Seq<char>;

/// A lowercase hexadecimal digit.
pub open spec fn lower_hex_digit(c: char) -> bool {
    ('0' <= c && c <= '9') || ('a' <= c && c <= 'f')
}

/// Relies on sha2's `Sha256` and the `LowerHex` rendering of its output: the
/// lowercase hex SHA-256 digest of the bytes, two digits for each of the 32
/// digest bytes.
#[verifier::external_body]
fn sha256_lower_hex(data: &[u8]) -> (r: String)
    ensures
        r@ == sha256_hex(data@),
        r@.len() == 64,
        forall|i: int| 0 <= i < 64 ==> lower_hex_digit(#[trigger] r@[i]),
{
    let mut hasher = sha2::Sha256::new();
    hasher.update(data);
    format!("{:x}", hasher.finalize())
}

/// The code hash recorded in history: lowercase hex SHA-256 of the code's bytes.
pub fn hash_code(code: &str) -> (r: String)
    ensures
        r@ == sha256_hex(code.spec_bytes()),
        r@.len() == 64,
        forall|i: int| 0 <= i < 64 ==> lower_hex_digit(#[trigger] r@[i]),
{
    sha256_lower_hex(code.as_bytes())
}

/// Checksum of stored file contents.
pub fn checksum(contents: &Vec<u8>) -> (r: String)
    ensures
        r@ == sha256_hex(contents@),
{
    sha256_lower_hex(contents.as_slice())
}

/// Identical code has identical hashes.
pub proof fn lemma_hash_stable(a: Seq<u8>, b: Seq<u8>)
    requires
        a == b,
    ensures
        sha256_hex(a) == sha256_hex(b),
{
}

/// Persistent mode applies to Python only; other languages run one-shot.
pub open spec fn persistent_mode(language: Language, persistent: bool) -> bool {
    persistent && language == Language::Python
}

/// Whether the request runs in the long-lived interpreter.
pub fn uses_persistent(request: &ExecuteRequest) -> (r: bool)
    ensures
        r == persistent_mode(request.language, request.persistent),
{
    request.persistent && request.language == Language::Python
}

/// Name of the scratch file holding the code: `exec_<id>.<ext>`.
pub open spec fn scratch_name(id: Seq<char>, language: Language) -> Seq<char> {
    "exec_"@ + id + "."@ + language.extension()
}

pub fn code_filename(id: &str, language: Language) -> (r: String)
    ensures
        r@ == scratch_name(id@, language),
{
    let head = concat("exec_", id);
    concat3(head.as_str(), ".", language.file_extension())
}

/// `-e KEY=VALUE` for each environment entry, in order.
pub open spec fn env_args(env: Seq<(String, String)>) -> Seq<Seq<char>>
    decreases env.len(),
{
    if env.len() == 0 {
        Seq::empty()
    } else {
        env_args(env.drop_last()) + seq!["-e"@, env.last().0@ + "="@ + env.last().1@]
    }
}

/// The interpreter invocation for a script at `path` whose file name is `file`.
pub open spec fn interpreter_args(language: Language, path: Seq<char>, file: Seq<char>) -> Seq<Seq<char>> {
    match language {
        Language::Python => seq!["python"@, "-u"@, path],
        Language::Javascript => seq!["node"@, path],
        Language::Bash => seq!["bash"@, path],
        Language::R => seq!["Rscript"@, "--vanilla"@, path],
        Language::Julia => seq!["julia"@, path],
        Language::Typescript => seq![
            "deno"@,
            "run"@,
            "--allow-read=/mnt/data"@,
            "--allow-write=/mnt/data"@,
            path,
        ],
        Language::Ruby => seq!["ruby"@, path],
        Language::Go => seq![
            "bash"@,
            "-c"@,
            "cd /mnt/data && GOTMPDIR=/mnt/data GOCACHE=/mnt/data/.gocache go run "@ + file,
        ],
        Language::Wasm => seq!["wasmtime"@, "run"@, "--dir=/mnt/data"@, path],
    }
}

/// Arguments of the container runtime's `exec` that runs the scratch file
/// `file` as the sandbox user in the workspace.
pub open spec fn exec_args(
    container_id: Seq<char>,
    language: Language,
    file: Seq<char>,
    env: Seq<(String, String)>,
) -> Seq<Seq<char>> {
    seq!["exec"@, "--user"@, "sandbox"@, "--workdir"@, "/mnt/data"@] + env_args(env) + seq![
        container_id,
    ] + interpreter_args(language, "/mnt/data/"@ + file, file)
}

/// Builds the runtime arguments that execute the scratch file `file`.
pub fn build_exec_args(
    container_id: &str,
    language: Language,
    file: &str,
    env: &Vec<(String, String)>,
) -> (r: Vec<String>)
    ensures
        strings_view(r@) == exec_args(container_id@, language, file@, env@),
{
    let mut args: Vec<String> = Vec::new();
    assert(strings_view(args@) =~= Seq::empty());
    push_text(&mut args, "exec");
    push_text(&mut args, "--user");
    push_text(&mut args, "sandbox");
    push_text(&mut args, "--workdir");
    push_text(&mut args, WORKSPACE_MOUNT);
    let ghost head = strings_view(args@);
    assert(head =~= seq!["exec"@, "--user"@, "sandbox"@, "--workdir"@, "/mnt/data"@]);
    let mut i: usize = 0;
    assert(env@.take(0) =~= Seq::<(String, String)>::empty());
    while i < env.len()
        invariant
            i <= env@.len(),
            strings_view(args@) == head + env_args(env@.take(i as int)),
        decreases env@.len() - i,
    {
        let assignment = concat3(env[i].0.as_str(), "=", env[i].1.as_str());
        push_text(&mut args, "-e");
        push_text(&mut args, assignment.as_str());
        proof {
            assert(env@.take(i + 1).drop_last() =~= env@.take(i as int));
            assert(strings_view(args@) =~= head + env_args(env@.take(i + 1)));
        }
        i = i + 1;
    }
    assert(env@.take(env@.len() as int) =~= env@);
    push_text(&mut args, container_id);
    let ghost before = strings_view(args@);
    let path = concat("/mnt/data/", file);
    match language {
        Language::Python => {
            push_text(&mut args, "python");
            push_text(&mut args, "-u");
            push_text(&mut args, path.as_str());
        },
        Language::Javascript => {
            push_text(&mut args, "node");
            push_text(&mut args, path.as_str());
        },
        Language::Bash => {
            push_text(&mut args, "bash");
            push_text(&mut args, path.as_str());
        },
        Language::R => {
            push_text(&mut args, "Rscript");
            push_text(&mut args, "--vanilla");
            push_text(&mut args, path.as_str());
        },
        Language::Julia => {
            push_text(&mut args, "julia");
            push_text(&mut args, path.as_str());
        },
        Language::Typescript => {
            push_text(&mut args, "deno");
            push_text(&mut args, "run");
            push_text(&mut args, "--allow-read=/mnt/data");
            push_text(&mut args, "--allow-write=/mnt/data");
            push_text(&mut args, path.as_str());
        },
        Language::Ruby => {
            push_text(&mut args, "ruby");
            push_text(&mut args, path.as_str());
        },
        Language::Go => {
            push_text(&mut args, "bash");
            push_text(&mut args, "-c");
            let script = concat(
                "cd /mnt/data && GOTMPDIR=/mnt/data GOCACHE=/mnt/data/.gocache go run ",
                file,
            );
            push_text(&mut args, script.as_str());
        },
        Language::Wasm => {
            push_text(&mut args, "wasmtime");
            push_text(&mut args, "run");
            push_text(&mut args, "--dir=/mnt/data");
            push_text(&mut args, path.as_str());
        },
    }
    assert(strings_view(args@) =~= before + interpreter_args(language, "/mnt/data/"@ + file@, file@));
    assert(strings_view(args@) =~= exec_args(container_id@, language, file@, env@));
    args
}

/// Status of a process that exited with `code`: 0 is success, 137 (SIGKILL,
/// as the OOM killer sends) is killed, anything else is an error.
pub open spec fn status_of_exit(code: i32) -> ExecutionStatus {
    if code == 0 {
        ExecutionStatus::Success
    } else if code == 137 {
        ExecutionStatus::Killed
    } else {
        ExecutionStatus::Error
    }
}

pub fn status_for_exit(code: i32) -> (r: ExecutionStatus)
    ensures
        r == status_of_exit(code),
{
    if code == 0 {
        ExecutionStatus::Success
    } else if code == 137 {
        ExecutionStatus::Killed
    } else {
        ExecutionStatus::Error
    }
}

/// A workspace entry reported to the caller: not a scratch file, not hidden.
pub open spec fn visible_entry(name: Seq<char>) -> bool {
    !is_prefix("exec_"@, name) && !is_prefix("."@, name)
}

/// The visible entries, in order.
pub open spec fn visible_entries(names: Seq<Seq<char>>) -> Seq<Seq<char>>
    decreases names.len(),
{
    if names.len() == 0 {
        Seq::empty()
    } else if visible_entry(names.last()) {
        visible_entries(names.drop_last()).push(names.last())
    } else {
        visible_entries(names.drop_last())
    }
}

/// Keeps the workspace entries a response reports.
pub fn detect_new_files(names: &Vec<String>) -> (r: Vec<String>)
    ensures
        strings_view(r@) == visible_entries(strings_view(names@)),
{
    let ghost all = strings_view(names@);
    let mut out: Vec<String> = Vec::new();
    let mut i: usize = 0;
    assert(all.take(0) =~= Seq::<Seq<char>>::empty());
    assert(strings_view(out@) =~= Seq::empty());
    while i < names.len()
        invariant
            all == strings_view(names@),
            i <= names@.len(),
            strings_view(out@) == visible_entries(all.take(i as int)),
        decreases names@.len() - i,
    {
        proof {
            assert(all.take(i + 1).drop_last() =~= all.take(i as int));
            assert(all.take(i + 1).last() == names@[i as int]@);
        }
        let name = names[i].as_str();
        if !starts_with(name, "exec_") && !starts_with(name, ".") {
            push_text(&mut out, name);
        }
        i = i + 1;
    }
    assert(all.take(names@.len() as int) =~= all);
    out
}

/// What became of the exec process.
#[derive(Clone, Debug)]
pub enum RunOutcome {
    /// It exited; output lines joined with `\n`.
    Finished { stdout: String, stderr: String, exit_code: i32 },
    /// It could not be spawned or awaited.
    Failed { message: String },
    /// The deadline passed first.
    TimedOut,
}

/// What became of a run in the persistent interpreter.
#[derive(Clone, Debug)]
pub enum KernelOutcome {
    Finished { stdout: String, stderr: String },
    Failed { message: String },
    TimedOut,
}

/// Message of a response whose deadline passed.
pub open spec fn timeout_message(seconds: u64) -> Seq<char> {
    "Execution timed out after "@ + decimal(seconds as nat) + " seconds"@
}

fn timed_out_text(seconds: u64) -> (r: String)
    ensures
        r@ == timeout_message(seconds),
{
    let n = decimal_string(seconds);
    concat3("Execution timed out after ", n.as_str(), " seconds")
}

/// The response of a one-shot run. `entries` are the workspace's top-level
/// names after the run.
pub fn one_shot_response(
    execution_id: String,
    outcome: RunOutcome,
    timeout_seconds: u64,
    duration_ms: u64,
    entries: &Vec<String>,
) -> (r: ExecuteResponse)
    ensures
        r.execution_id == execution_id,
        r.duration_ms == duration_ms,
        match outcome {
            RunOutcome::Finished { stdout, stderr, exit_code } => {
                &&& r.status == status_of_exit(exit_code)
                &&& r.stdout == stdout
                &&& r.stderr == stderr
                &&& r.exit_code == Some(exit_code)
                &&& strings_view(r.files_created@) == visible_entries(strings_view(entries@))
            },
            RunOutcome::Failed { message } => {
                &&& r.status == ExecutionStatus::Error
                &&& r.stdout@.len() == 0
                &&& r.stderr@ == "Execution error: "@ + message@
                &&& r.exit_code is None
                &&& r.files_created@.len() == 0
            },
            RunOutcome::TimedOut => {
                &&& r.status == ExecutionStatus::Timeout
                &&& r.stdout@.len() == 0
                &&& r.stderr@ == timeout_message(timeout_seconds)
                &&& r.exit_code is None
                &&& r.files_created@.len() == 0
            },
        },
{
    match outcome {
        RunOutcome::Finished { stdout, stderr, exit_code } => ExecuteResponse {
            execution_id,
            status: status_for_exit(exit_code),
            stdout,
            stderr,
            exit_code: Some(exit_code),
            duration_ms,
            files_created: detect_new_files(entries),
        },
        RunOutcome::Failed { message } => ExecuteResponse {
            execution_id,
            status: ExecutionStatus::Error,
            stdout: String::new(),
            stderr: concat("Execution error: ", message.as_str()),
            exit_code: None,
            duration_ms,
            files_created: Vec::new(),
        },
        RunOutcome::TimedOut => ExecuteResponse {
            execution_id,
            status: ExecutionStatus::Timeout,
            stdout: String::new(),
            stderr: timed_out_text(timeout_seconds),
            exit_code: None,
            duration_ms,
            files_created: Vec::new(),
        },
    }
}

/// The response of a run in the persistent interpreter: success, with exit
/// code 0, iff nothing was written to stderr; otherwise an error without an
/// exit code, since the interpreter reports no process status.
pub fn persistent_response(
    execution_id: String,
    outcome: KernelOutcome,
    timeout_seconds: u64,
    duration_ms: u64,
    entries: &Vec<String>,
) -> (r: ExecuteResponse)
    ensures
        r.execution_id == execution_id,
        r.duration_ms == duration_ms,
        match outcome {
            KernelOutcome::Finished { stdout, stderr } => {
                &&& r.status == if stderr@.len() == 0 {
                    ExecutionStatus::Success
                } else {
                    ExecutionStatus::Error
                }
                &&& r.stdout == stdout
                &&& r.stderr == stderr
                &&& r.exit_code == if stderr@.len() == 0 {
                    Some(0i32)
                } else {
                    None
                }
                &&& strings_view(r.files_created@) == visible_entries(strings_view(entries@))
            },
            KernelOutcome::Failed { message } => {
                &&& r.status == ExecutionStatus::Error
                &&& r.stdout@.len() == 0
                &&& r.stderr == message
                &&& r.exit_code is None
                &&& r.files_created@.len() == 0
            },
            KernelOutcome::TimedOut => {
                &&& r.status == ExecutionStatus::Timeout
                &&& r.stdout@.len() == 0
                &&& r.stderr@ == timeout_message(timeout_seconds)
                &&& r.exit_code is None
                &&& r.files_created@.len() == 0
            },
        },
{
    match outcome {
        KernelOutcome::Finished { stdout, stderr } => {
            let clean = stderr.as_str().is_empty();
            let status = if clean {
                ExecutionStatus::Success
            } else {
                ExecutionStatus::Error
            };
            ExecuteResponse {
                execution_id,
                status,
                stdout,
                stderr,
                exit_code: if clean {
                    Some(0)
                } else {
                    None
                },
                duration_ms,
                files_created: detect_new_files(entries),
            }
        },
        KernelOutcome::Failed { message } => ExecuteResponse {
            execution_id,
            status: ExecutionStatus::Error,
            stdout: String::new(),
            stderr: message,
            exit_code: None,
            duration_ms,
            files_created: Vec::new(),
        },
        KernelOutcome::TimedOut => ExecuteResponse {
            execution_id,
            status: ExecutionStatus::Timeout,
            stdout: String::new(),
            stderr: timed_out_text(timeout_seconds),
            exit_code: None,
            duration_ms,
            files_created: Vec::new(),
        },
    }
}

/// The history record of a finished execution.
pub fn summarize(
    request: &ExecuteRequest,
    response: &ExecuteResponse,
    timestamp_ms: u64,
) -> (r: ExecutionSummary)
    ensures
        r.execution_id@ == response.execution_id@,
        r.timestamp_ms == timestamp_ms,
        r.language == request.language,
        r.code_hash@ == sha256_hex(encode_utf8(request.code@)),
        r.status == response.status,
        r.duration_ms == response.duration_ms,
        r.exit_code == response.exit_code,
{
    ExecutionSummary {
        execution_id: response.execution_id.clone(),
        timestamp_ms,
        language: request.language,
        code_hash: hash_code(request.code.as_str()),
        status: response.status,
        duration_ms: response.duration_ms,
        exit_code: response.exit_code,
    }
}

/// Exit 0 is success, exit 137 is a kill, other exits are errors, and a
/// timeout carries no exit code.
pub proof fn lemma_exit_code_mapping(code: i32)
    ensures
        code == 0 ==> status_of_exit(code) == ExecutionStatus::Success,
        code == 137 ==> status_of_exit(code) == ExecutionStatus::Killed,
        code != 0 && code != 137 ==> status_of_exit(code) == ExecutionStatus::Error,
{
}

} // verus!
