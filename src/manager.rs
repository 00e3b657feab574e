//! The live set of sessions, keyed by user and language, and the arguments
//! that start a session's container.
use vstd::prelude::*;

use crate::config::{same_text, user_entry, AppConfig, ResourceLimits, UserConfig};
use crate::models::{ExecutionStatus, Language};
use crate::session::{bumped, container_name_for, recorded, ExecutionSummary, Session, SessionState};
use crate::text::{concat, concat3, decimal, decimal_string, push_text, strings_view};

verus! {

/// Renders thousandths of a core the way a decimal number is written:
/// `1500` is `1.5`, `2000` is `2`, `250` is `0.25`.
pub open spec fn cpu_text(millis: nat) -> Seq<char> {
    let whole = decimal(millis / 1000);
    let frac = millis % 1000;
    if frac == 0 {
        whole
    } else if frac % 100 == 0 {
        whole + "."@ + decimal(frac / 100)
    } else if frac % 10 == 0 {
        whole + "."@ + decimal(frac / 100) + decimal((frac / 10) % 10)
    } else {
        whole + "."@ + decimal(frac / 100) + decimal((frac / 10) % 10) + decimal(frac % 10)
    }
}

pub fn cpu_string(millis: u64) -> (r: String)
    ensures
        r@ == cpu_text(millis as nat),
{
    let whole = decimal_string(millis / 1000);
    let frac = millis % 1000;
    if frac == 0 {
        return whole;
    }
    let mut s = concat(whole.as_str(), ".");
    let a = decimal_string(frac / 100);
    s = concat(s.as_str(), a.as_str());
    if frac % 100 != 0 {
        let b = decimal_string((frac / 10) % 10);
        s = concat(s.as_str(), b.as_str());
        if frac % 10 != 0 {
            let c = decimal_string(frac % 10);
            s = concat(s.as_str(), c.as_str());
        }
    }
    s
}

/// Mount mode of the workspace: `exec` for compiled languages, else `noexec`.
pub open spec fn mount_mode(language: Language) -> Seq<char> {
    if language.needs_exec_mount() {
        "exec"@
    } else {
        "noexec"@
    }
}

/// Go and Wasm sessions get an executable workspace; all others do not.
pub proof fn lemma_exec_mount(language: Language)
    ensures
        mount_mode(language) == "exec"@ <==> (language == Language::Go || language
            == Language::Wasm),
        mount_mode(language) == "noexec"@ <==> !(language == Language::Go || language
            == Language::Wasm),
{
    reveal_strlit("exec");
    reveal_strlit("noexec");
    assert("exec"@.len() != "noexec"@.len());
}

/// The fixed part of a container start: name, caps, hardening and workspace.
pub open spec fn base_run_args(
    name: Seq<char>,
    limits: ResourceLimits,
    workspace: Seq<char>,
    language: Language,
) -> Seq<Seq<char>> {
    seq![
        "run"@,
        "--detach"@,
        "--name"@,
        name,
        "--memory"@,
        decimal(limits.max_memory_mb as nat) + "m"@,
        "--cpus"@,
        cpu_text(limits.max_millicpus as nat),
        "--pids-limit"@,
        decimal(limits.max_pids as nat),
        "--read-only"@,
        "--tmpfs"@,
        "/tmp:rw,noexec,nosuid,size=100m"@,
        "--security-opt"@,
        "no-new-privileges"@,
        "--cap-drop"@,
        "ALL"@,
        "--user"@,
        "sandbox"@,
        "--volume"@,
        workspace + ":/mnt/data:rw,"@ + mount_mode(language) + ",nosuid,nodev,U"@,
    ]
}

pub open spec fn network_args(enabled: bool, user_id: Seq<char>) -> Seq<Seq<char>> {
    if enabled {
        seq!["--network"@, "cage_net_"@ + user_id]
    } else {
        seq!["--network"@, "none"@]
    }
}

pub open spec fn seccomp_args(profile: Option<String>) -> Seq<Seq<char>> {
    match profile {
        Some(p) => seq!["--security-opt"@, "seccomp="@ + p@],
        None => Seq::empty(),
    }
}

pub open spec fn gpu_args(gpu: bool) -> Seq<Seq<char>> {
    if gpu {
        seq![
            "--device"@,
            "/dev/nvidia0"@,
            "--device"@,
            "/dev/nvidiactl"@,
            "--device"@,
            "/dev/nvidia-uvm"@,
        ]
    } else {
        Seq::empty()
    }
}

/// Full argument vector of `run` for a session's container.
pub open spec fn run_args(
    s: Session,
    seccomp: Option<String>,
    gpu: bool,
    runtime: Seq<Seq<char>>,
) -> Seq<Seq<char>> {
    base_run_args(s.container_name@, s.resource_limits, s.workspace_path@, s.language)
        + network_args(s.network_policy.enabled, s.user_id@) + seccomp_args(seccomp) + gpu_args(
        gpu,
    ) + runtime + seq![s.language.image(), "sleep"@, "infinity"@]
}

/// The session's container has the given id.
pub open spec fn uses_container(s: Session, id: Seq<char>) -> bool {
    s.spec_container_id() == Some(id)
}

/// Whether the configuration gives the user GPU passthrough.
pub open spec fn user_gpu(users: Seq<UserConfig>, user_id: Seq<char>) -> bool {
    match user_entry(users, user_id) {
        Some(u) => u.gpu_enabled,
        None => false,
    }
}

/// Key under which a session is indexed.
pub open spec fn has_key(s: Session, user_id: Seq<char>, language: Language) -> bool {
    s.user_id@ == user_id && s.language == language
}

/// Index of the session with the key, searching from `i`.
pub open spec fn key_index_from(
    s: Seq<Session>,
    user_id: Seq<char>,
    language: Language,
    i: int,
) -> Option<int>
    decreases s.len() - i,
{
    if i < 0 || i >= s.len() {
        None
    } else if has_key(s[i], user_id, language) {
        Some(i)
    } else {
        key_index_from(s, user_id, language, i + 1)
    }
}

pub open spec fn key_index(s: Seq<Session>, user_id: Seq<char>, language: Language) -> Option<int> {
    key_index_from(s, user_id, language, 0)
}

/// An indexed session: well formed, running, with a container.
pub open spec fn indexed_ok(s: Session) -> bool {
    &&& s.wf()
    &&& s.spec_state() == SessionState::Running
    &&& s.spec_container_id() is Some
}

/// Two sessions differ in key, container name and container id.
pub open spec fn apart(a: Session, b: Session) -> bool {
    &&& !(a.user_id@ == b.user_id@ && a.language == b.language)
    &&& a.container_name@ != b.container_name@
    &&& a.spec_container_id() != b.spec_container_id()
}

/// Indexed sessions are running with a container, one per key, and no two
/// share a container name or a container id.
pub open spec fn registry_wf(s: Seq<Session>) -> bool {
    &&& forall|i: int| 0 <= i < s.len() ==> indexed_ok(#[trigger] s[i])
    &&& forall|i: int, j: int| 0 <= i < j < s.len() ==> apart(#[trigger] s[i], #[trigger] s[j])
}

/// No session of the user is indexed.
pub open spec fn none_of_user(s: Seq<Session>, user_id: Seq<char>) -> bool {
    forall|i: int| 0 <= i < s.len() ==> s[i].user_id@ != user_id
}

proof fn lemma_key_index(s: Seq<Session>, user_id: Seq<char>, language: Language, i: int)
    requires
        0 <= i <= s.len(),
        forall|j: int| 0 <= j < i ==> !has_key(s[j], user_id, language),
    ensures
        key_index(s, user_id, language) == key_index_from(s, user_id, language, i),
    decreases i,
{
    if i > 0 {
        lemma_key_index(s, user_id, language, i - 1);
    }
}

proof fn lemma_key_index_none(s: Seq<Session>, user_id: Seq<char>, language: Language, i: int)
    requires
        0 <= i <= s.len(),
        key_index_from(s, user_id, language, i) is None,
    ensures
        forall|j: int| i <= j < s.len() ==> !has_key(#[trigger] s[j], user_id, language),
    decreases s.len() - i,
{
    if i < s.len() {
        lemma_key_index_none(s, user_id, language, i + 1);
    }
}

proof fn lemma_key_index_found(s: Seq<Session>, user_id: Seq<char>, language: Language, i: int)
    requires
        0 <= i <= s.len(),
        key_index_from(s, user_id, language, i) is Some,
    ensures
        i <= key_index_from(s, user_id, language, i).unwrap() < s.len(),
        has_key(s[key_index_from(s, user_id, language, i).unwrap()], user_id, language),
    decreases s.len() - i,
{
    if i < s.len() && !has_key(s[i], user_id, language) {
        lemma_key_index_found(s, user_id, language, i + 1);
    }
}

proof fn lemma_push_keeps_wf(before: Seq<Session>, s: Session)
    requires
        registry_wf(before),
        indexed_ok(s),
        forall|i: int| 0 <= i < before.len() ==> apart(#[trigger] before[i], s),
    ensures
        registry_wf(before.push(s)),
{
    let after = before.push(s);
    assert forall|i: int| 0 <= i < after.len() implies indexed_ok(#[trigger] after[i]) by {
        if i < before.len() {
            assert(after[i] == before[i]);
        }
    }
    assert forall|i: int, j: int| 0 <= i < j < after.len() implies apart(
        #[trigger] after[i],
        #[trigger] after[j],
    ) by {
        assert(after[i] == before[i]);
        if j < before.len() {
            assert(after[j] == before[j]);
        }
    }
}

proof fn lemma_remove_keeps_wf(before: Seq<Session>, k: int)
    requires
        registry_wf(before),
        0 <= k < before.len(),
    ensures
        registry_wf(before.remove(k)),
{
    let after = before.remove(k);
    assert forall|i: int| 0 <= i < after.len() implies indexed_ok(#[trigger] after[i]) by {
        if i < k {
            assert(after[i] == before[i]);
        } else {
            assert(after[i] == before[i + 1]);
        }
    }
    assert forall|i: int, j: int| 0 <= i < j < after.len() implies apart(
        #[trigger] after[i],
        #[trigger] after[j],
    ) by {
        let i0 = if i < k {
            i
        } else {
            i + 1
        };
        let j0 = if j < k {
            j
        } else {
            j + 1
        };
        assert(after[i] == before[i0]);
        assert(after[j] == before[j0]);
        assert(apart(before[i0], before[j0]));
    }
}

proof fn lemma_update_keeps_wf(before: Seq<Session>, k: int, s: Session)
    requires
        registry_wf(before),
        0 <= k < before.len(),
        indexed_ok(s),
        s.user_id == before[k].user_id,
        s.language == before[k].language,
        s.container_name == before[k].container_name,
        s.spec_container_id() == before[k].spec_container_id(),
    ensures
        registry_wf(before.update(k, s)),
{
    let after = before.update(k, s);
    assert forall|i: int| 0 <= i < after.len() implies indexed_ok(#[trigger] after[i]) by {
        if i != k {
            assert(after[i] == before[i]);
        }
    }
    assert forall|i: int, j: int| 0 <= i < j < after.len() implies apart(
        #[trigger] after[i],
        #[trigger] after[j],
    ) by {
        assert(apart(before[i], before[j]));
    }
}

/// Why a session could not be indexed.
#[derive(Clone, Copy, Debug, PartialEq, Eq, Structural)]
pub enum RegistryError {
    /// Another session's container has the same name.
    NameInUse,
    /// Another session has the same container id.
    ContainerInUse,
}

/// Owner of the live sessions.
pub struct SessionManager {
    config: AppConfig,
    sessions: Vec<Session>,
}

impl SessionManager {
    pub closed spec fn spec_sessions(&self) -> Seq<Session> {
        self.sessions@
    }

    pub closed spec fn spec_config(&self) -> AppConfig {
        self.config
    }

    pub fn config(&self) -> (r: &AppConfig)
        ensures
            *r == self.spec_config(),
    {
        &self.config
    }

    pub open spec fn wf(&self) -> bool {
        registry_wf(self.spec_sessions())
    }

    pub fn new(config: AppConfig) -> (r: SessionManager)
        ensures
            r.wf(),
            r.spec_sessions().len() == 0,
            r.spec_config() == config,
    {
        SessionManager { config, sessions: Vec::new() }
    }

    /// Workspace directory of a user: `<data_dir>/user_<user_id>`.
    pub fn workspace_path(&self, user_id: &str) -> (r: String)
        ensures
            r@ == self.spec_config().data_dir@ + "/user_"@ + user_id@,
    {
        concat3(self.config.data_dir.as_str(), "/user_", user_id)
    }

    /// A new session for the user and language under the user's effective
    /// limits and network policy, not yet started or indexed.
    pub fn prepare_session(
        &self,
        user_id: &str,
        language: Language,
        session_id: String,
        now_ms: u64,
    ) -> (r: Session)
        ensures
            r.wf(),
            r.user_id@ == user_id@,
            r.language == language,
            r.container_name@ == container_name_for(user_id@, session_id@),
            r.workspace_path@ == self.spec_config().data_dir@ + "/user_"@ + user_id@,
            r.spec_state() == SessionState::Creating,
            r.spec_container_id() is None,
    {
        let limits = self.config.get_user_limits(user_id);
        let network = self.config.get_user_network(user_id);
        let workspace = self.workspace_path(user_id);
        Session::new(user_id.to_string(), language, session_id, workspace, limits, network, now_ms)
    }

    /// Arguments of the runtime's `run` that start the session's container;
    /// `runtime` are the alternate-runtime arguments, if any.
    pub fn container_run_args(&self, session: &Session, runtime: &Vec<String>) -> (r: Vec<String>)
        ensures
            strings_view(r@) == run_args(
                *session,
                self.spec_config().security.seccomp_profile,
                user_gpu(self.spec_config().users@, session.user_id@),
                strings_view(runtime@),
            ),
    {
        let mut args: Vec<String> = Vec::new();
        assert(strings_view(args@) =~= Seq::empty());
        push_text(&mut args, "run");
        push_text(&mut args, "--detach");
        push_text(&mut args, "--name");
        push_text(&mut args, session.container_name.as_str());
        push_text(&mut args, "--memory");
        let mem = decimal_string(session.resource_limits.max_memory_mb);
        let mem = concat(mem.as_str(), "m");
        push_text(&mut args, mem.as_str());
        push_text(&mut args, "--cpus");
        let cpus = cpu_string(session.resource_limits.max_millicpus);
        push_text(&mut args, cpus.as_str());
        push_text(&mut args, "--pids-limit");
        let pids = decimal_string(session.resource_limits.max_pids as u64);
        push_text(&mut args, pids.as_str());
        push_text(&mut args, "--read-only");
        push_text(&mut args, "--tmpfs");
        push_text(&mut args, "/tmp:rw,noexec,nosuid,size=100m");
        push_text(&mut args, "--security-opt");
        push_text(&mut args, "no-new-privileges");
        push_text(&mut args, "--cap-drop");
        push_text(&mut args, "ALL");
        push_text(&mut args, "--user");
        push_text(&mut args, "sandbox");
        push_text(&mut args, "--volume");
        let mode = if session.language.exec_mount() {
            "exec"
        } else {
            "noexec"
        };
        let volume = concat3(session.workspace_path.as_str(), ":/mnt/data:rw,", mode);
        let volume = concat(volume.as_str(), ",nosuid,nodev,U");
        push_text(&mut args, volume.as_str());
        assert(strings_view(args@) =~= base_run_args(
            session.container_name@,
            session.resource_limits,
            session.workspace_path@,
            session.language,
        ));
        let ghost a1 = strings_view(args@);
        push_text(&mut args, "--network");
        if session.network_policy.enabled {
            let net = concat("cage_net_", session.user_id.as_str());
            push_text(&mut args, net.as_str());
        } else {
            push_text(&mut args, "none");
        }
        assert(strings_view(args@) =~= a1 + network_args(
            session.network_policy.enabled,
            session.user_id@,
        ));
        let ghost a2 = strings_view(args@);
        match &self.config.security.seccomp_profile {
            Some(p) => {
                push_text(&mut args, "--security-opt");
                let opt = concat("seccomp=", p.as_str());
                push_text(&mut args, opt.as_str());
            },
            None => {},
        }
        assert(strings_view(args@) =~= a2 + seccomp_args(self.config.security.seccomp_profile));
        let ghost a3 = strings_view(args@);
        let gpu = self.config.gpu_enabled(session.user_id.as_str());
        if gpu {
            push_text(&mut args, "--device");
            push_text(&mut args, "/dev/nvidia0");
            push_text(&mut args, "--device");
            push_text(&mut args, "/dev/nvidiactl");
            push_text(&mut args, "--device");
            push_text(&mut args, "/dev/nvidia-uvm");
        }
        assert(strings_view(args@) =~= a3 + gpu_args(gpu));
        let ghost a4 = strings_view(args@);
        let mut i: usize = 0;
        assert(strings_view(runtime@).take(0) =~= Seq::<Seq<char>>::empty());
        while i < runtime.len()
            invariant
                i <= runtime@.len(),
                strings_view(args@) == a4 + strings_view(runtime@).take(i as int),
            decreases runtime@.len() - i,
        {
            push_text(&mut args, runtime[i].as_str());
            assert(strings_view(runtime@).take(i + 1) =~= strings_view(runtime@).take(
                i as int,
            ).push(runtime@[i as int]@));
            assert(strings_view(args@) =~= a4 + strings_view(runtime@).take(i + 1));
            i = i + 1;
        }
        assert(strings_view(runtime@).take(runtime@.len() as int) =~= strings_view(runtime@));
        let ghost a5 = strings_view(args@);
        push_text(&mut args, session.language.container_image());
        push_text(&mut args, "sleep");
        push_text(&mut args, "infinity");
        assert(strings_view(args@) =~= a5 + seq![session.language.image(), "sleep"@, "infinity"@]);
        args
    }

    fn find(&self, user_id: &str, language: Language) -> (r: Option<usize>)
        ensures
            match key_index(self.spec_sessions(), user_id@, language) {
                Some(i) => r is Some && r.unwrap() as int == i,
                None => r is None,
            },
            r is Some ==> r.unwrap() < self.spec_sessions().len() && has_key(
                self.spec_sessions()[r.unwrap() as int],
                user_id@,
                language,
            ),
    {
        let mut i: usize = 0;
        while i < self.sessions.len()
            invariant
                i <= self.sessions@.len(),
                forall|j: int| 0 <= j < i ==> !has_key(self.sessions@[j], user_id@, language),
            decreases self.sessions@.len() - i,
        {
            if self.sessions[i].language == language && same_text(
                self.sessions[i].user_id.as_str(),
                user_id,
            ) {
                proof {
                    lemma_key_index(self.sessions@, user_id@, language, i as int);
                }
                return Some(i);
            }
            i = i + 1;
        }
        proof {
            lemma_key_index(self.sessions@, user_id@, language, i as int);
        }
        None
    }

    /// The running session of the user in the language, if any.
    pub fn get(&self, user_id: &str, language: Language) -> (r: Option<&Session>)
        ensures
            match key_index(self.spec_sessions(), user_id@, language) {
                Some(i) => r is Some && *r.unwrap() == self.spec_sessions()[i],
                None => r is None,
            },
    {
        match self.find(user_id, language) {
            Some(i) => Some(&self.sessions[i]),
            None => None,
        }
    }

    /// Snapshot of the live sessions.
    pub fn list_all(&self) -> (r: &Vec<Session>)
        ensures
            r@ == self.spec_sessions(),
    {
        &self.sessions
    }

    pub fn active_session_count(&self) -> (r: usize)
        ensures
            r == self.spec_sessions().len(),
    {
        self.sessions.len()
    }

    fn clashes(&self, session: &Session, container_id: &str) -> (r: Option<RegistryError>)
        ensures
            r == Some(RegistryError::NameInUse) <==> exists|i: int|
                0 <= i < self.spec_sessions().len() && self.spec_sessions()[i].container_name@
                    == session.container_name@,
            r == Some(RegistryError::ContainerInUse) <==> (!(exists|i: int|
                0 <= i < self.spec_sessions().len() && self.spec_sessions()[i].container_name@
                    == session.container_name@) && exists|i: int|
                0 <= i < self.spec_sessions().len() && uses_container(self.spec_sessions()[i], container_id@)),
            r is None <==> (forall|i: int|
                0 <= i < self.spec_sessions().len() ==> self.spec_sessions()[i].container_name@
                    != session.container_name@ && !uses_container(self.spec_sessions()[i], container_id@)),
    {
        let mut i: usize = 0;
        while i < self.sessions.len()
            invariant
                i <= self.sessions@.len(),
                forall|j: int|
                    0 <= j < i ==> self.sessions@[j].container_name@ != session.container_name@,
            decreases self.sessions@.len() - i,
        {
            if same_text(self.sessions[i].container_name.as_str(), session.container_name.as_str()) {
                return Some(RegistryError::NameInUse);
            }
            i = i + 1;
        }
        let mut k: usize = 0;
        while k < self.sessions.len()
            invariant
                k <= self.sessions@.len(),
                forall|j: int|
                    0 <= j < self.sessions@.len() ==> self.sessions@[j].container_name@
                        != session.container_name@,
                forall|j: int| 0 <= j < k ==> !uses_container(self.sessions@[j], container_id@),
            decreases self.sessions@.len() - k,
        {
            match &self.sessions[k].container_id {
                Some(c) => {
                    if same_text(c.as_str(), container_id) {
                        return Some(RegistryError::ContainerInUse);
                    }
                },
                None => {},
            }
            k = k + 1;
        }
        None
    }

    /// Indexes a session whose container the runtime started with
    /// `container_id`. Where a session of the same key is already running it
    /// is kept and its index returned with `true`: the newcomer adopts it.
    pub fn register(&mut self, session: Session, container_id: String) -> (r: Result<
        (usize, bool),
        RegistryError,
    >)
        requires
            old(self).wf(),
            session.wf(),
            session.spec_state() == SessionState::Creating,
            session.spec_container_id() is None,
        ensures
            final(self).wf(),
            final(self).spec_config() == old(self).spec_config(),
            match key_index(old(self).spec_sessions(), session.user_id@, session.language) {
                Some(i) => r == Ok::<(usize, bool), RegistryError>((i as usize, true))
                    && final(self).spec_sessions() == old(self).spec_sessions(),
                None => (r is Err <==> exists|j: int|
                    0 <= j < old(self).spec_sessions().len() && (old(self).spec_sessions()[j].container_name@
                        == session.container_name@ || uses_container(old(self).spec_sessions()[j], container_id@)))
                    && match r {
                    Ok((i, adopted)) => {
                        &&& !adopted
                        &&& i == old(self).spec_sessions().len()
                        &&& final(self).spec_sessions().len() == i + 1
                        &&& final(self).spec_sessions().take(i as int) == old(
                            self,
                        ).spec_sessions()
                        &&& final(self).spec_sessions()[i as int].user_id == session.user_id
                        &&& final(self).spec_sessions()[i as int].language == session.language
                        &&& final(self).spec_sessions()[i as int].container_name
                            == session.container_name
                        &&& final(self).spec_sessions()[i as int].session_id == session.session_id
                        &&& final(self).spec_sessions()[i as int].workspace_path
                            == session.workspace_path
                        &&& final(self).spec_sessions()[i as int].spec_container_id() == Some(
                            container_id@,
                        )
                    },
                    Err(e) => {
                        &&& final(self).spec_sessions() == old(self).spec_sessions()
                        &&& (e == RegistryError::NameInUse <==> exists|j: int|
                            0 <= j < old(self).spec_sessions().len() && old(
                                self,
                            ).spec_sessions()[j].container_name@ == session.container_name@)
                    },
                },
            },
    {
        match self.find(session.user_id.as_str(), session.language) {
            Some(i) => {
                return Ok((i, true));
            },
            None => {},
        }
        proof {
            lemma_key_index_none(self.sessions@, session.user_id@, session.language, 0);
        }
        match self.clashes(&session, container_id.as_str()) {
            Some(e) => {
                return Err(e);
            },
            None => {},
        }
        let mut s = session;
        let ghost cid = container_id@;
        s.set_container_id(container_id);
        s.set_state(SessionState::Running);
        let ghost before = self.sessions@;
        let n = self.sessions.len();
        proof {
            assert forall|i: int| 0 <= i < before.len() implies apart(#[trigger] before[i], s) by {
                assert(!has_key(before[i], s.user_id@, s.language));
                assert(!uses_container(before[i], cid));
            }
            lemma_push_keeps_wf(before, s);
        }
        self.sessions.push(s);
        assert(self.sessions@.take(n as int) =~= before);
        Ok((n, false))
    }

    /// Removes the session of the user in the language, handing it back so
    /// that its container can be removed and, if asked, its workspace purged.
    /// No such session: nothing changes.
    pub fn terminate(&mut self, user_id: &str, language: Language) -> (r: Option<Session>)
        requires
            old(self).wf(),
        ensures
            final(self).wf(),
            final(self).spec_config() == old(self).spec_config(),
            match key_index(old(self).spec_sessions(), user_id@, language) {
                Some(i) => r == Some(old(self).spec_sessions()[i]) && final(self).spec_sessions()
                    == old(self).spec_sessions().remove(i),
                None => r is None && final(self).spec_sessions() == old(self).spec_sessions(),
            },
    {
        match self.find(user_id, language) {
            Some(i) => {
                let ghost before = self.sessions@;
                proof {
                    lemma_key_index_found(before, user_id@, language, 0);
                }
                let s = self.sessions.remove(i);
                proof {
                    lemma_remove_keeps_wf(before, i as int);
                }
                Some(s)
            },
            None => None,
        }
    }

    /// Removes every session of the user, one language at a time, handing
    /// them back for container removal. A user without sessions: nothing
    /// changes and nothing is handed back.
    pub fn terminate_user(&mut self, user_id: &str) -> (r: Vec<Session>)
        requires
            old(self).wf(),
        ensures
            final(self).wf(),
            final(self).spec_config() == old(self).spec_config(),
            none_of_user(final(self).spec_sessions(), user_id@),
            forall|i: int| 0 <= i < r@.len() ==> (#[trigger] r@[i]).user_id@ == user_id@,
            none_of_user(old(self).spec_sessions(), user_id@) ==> r@.len() == 0
                && final(self).spec_sessions() == old(self).spec_sessions(),
            forall|i: int| 0 <= i < r@.len() ==> old(self).spec_sessions().contains(#[trigger] r@[i]),
            forall|j: int|
                0 <= j < old(self).spec_sessions().len() && (#[trigger] old(self).spec_sessions()[j]).user_id@
                    == user_id@ ==> r@.contains(old(self).spec_sessions()[j]),
            forall|a: int, b: int|
                0 <= a < b < r@.len() ==> (#[trigger] r@[a]).language != (#[trigger] r@[b]).language,
            forall|j: int|
                0 <= j < old(self).spec_sessions().len() && (#[trigger] old(self).spec_sessions()[j]).user_id@
                    != user_id@ ==> final(self).spec_sessions().contains(old(self).spec_sessions()[j]),
            forall|j: int|
                0 <= j < final(self).spec_sessions().len() ==> old(self).spec_sessions().contains(
                    #[trigger] final(self).spec_sessions()[j],
                ),
    {
        let ghost orig = self.spec_sessions();
        let languages = [
            Language::Python,
            Language::Javascript,
            Language::Bash,
            Language::R,
            Language::Julia,
            Language::Typescript,
            Language::Ruby,
            Language::Go,
            Language::Wasm,
        ];
        let ghost all = languages@;
        let mut removed: Vec<Session> = Vec::new();
        let mut k: usize = 0;
        while k < 9
            invariant
                self.wf(),
                self.spec_config() == old(self).spec_config(),
                languages@ == all,
                all.len() == 9,
                k <= 9,
                forall|a: int, j: int|
                    0 <= a < k && 0 <= j < self.spec_sessions().len() ==> !has_key(
                        #[trigger] self.spec_sessions()[j],
                        user_id@,
                        #[trigger] all[a],
                    ),
                forall|i: int| 0 <= i < removed@.len() ==> (#[trigger] removed@[i]).user_id@ == user_id@,
                none_of_user(old(self).spec_sessions(), user_id@) ==> removed@.len() == 0
                    && self.spec_sessions() == old(self).spec_sessions(),
                orig == old(self).spec_sessions(),
                all == seq![
                    Language::Python,
                    Language::Javascript,
                    Language::Bash,
                    Language::R,
                    Language::Julia,
                    Language::Typescript,
                    Language::Ruby,
                    Language::Go,
                    Language::Wasm,
                ],
                forall|j: int| 0 <= j < self.spec_sessions().len() ==> orig.contains(#[trigger] self.spec_sessions()[j]),
                forall|i: int| 0 <= i < removed@.len() ==> orig.contains(#[trigger] removed@[i]),
                forall|j: int|
                    0 <= j < orig.len() && (#[trigger] orig[j]).user_id@ != user_id@ ==> self.spec_sessions().contains(orig[j]),
                forall|j: int|
                    0 <= j < orig.len() && (#[trigger] orig[j]).user_id@ == user_id@ ==> (self.spec_sessions().contains(orig[j])
                        || removed@.contains(orig[j])),
                forall|i: int| 0 <= i < removed@.len() ==> exists|a: int| 0 <= a < k && (#[trigger] removed@[i]).language == all[a],
                forall|a: int, b: int|
                    0 <= a < b < removed@.len() ==> (#[trigger] removed@[a]).language != (#[trigger] removed@[b]).language,
            decreases 9 - k,
        {
            let language = languages[k];
            let ghost before = self.spec_sessions();
            proof {
                if none_of_user(before, user_id@) {
                    assert forall|j: int| 0 <= j < before.len() implies !has_key(#[trigger] before[j], user_id@, language) by {}
                    lemma_terminate_idempotent(before, user_id@, language);
                }
            }
            match self.terminate(user_id, language) {
                Some(s) => {
                    proof {
                        let i = key_index(before, user_id@, language).unwrap();
                        lemma_key_index_found(before, user_id@, language, 0);
                        lemma_terminate_removes_key(before, user_id@, language);
                        let after = self.spec_sessions();
                        assert forall|a: int, j: int|
                            0 <= a < k + 1 && 0 <= j < after.len() implies !has_key(
                                #[trigger] after[j],
                                user_id@,
                                #[trigger] all[a],
                            ) by {
                            let j0 = if j < i { j } else { j + 1 };
                            assert(after[j] == before[j0]);
                        }
                    }
                    let ghost rbefore = removed@;
                    removed.push(s);
                    proof {
                        let i = key_index(before, user_id@, language).unwrap();
                        let after = self.spec_sessions();
                        assert(s == before[i]);
                        assert(after == before.remove(i));
                        assert forall|j: int| 0 <= j < after.len() implies orig.contains(#[trigger] after[j]) by {
                            let j0 = if j < i { j } else { j + 1 };
                            assert(after[j] == before[j0]);
                            assert(orig.contains(before[j0]));
                        }
                        assert(orig.contains(before[i]));
                        assert forall|q: int| 0 <= q < removed@.len() implies orig.contains(#[trigger] removed@[q]) by {
                            if q < rbefore.len() {
                                assert(removed@[q] == rbefore[q]);
                            }
                        }
                        assert forall|j: int|
                            0 <= j < orig.len() && (#[trigger] orig[j]).user_id@ != user_id@ implies after.contains(orig[j]) by {
                            let m = choose|m: int| 0 <= m < before.len() && before[m] == orig[j];
                            assert(m != i);
                            if m < i {
                                assert(after[m] == before[m]);
                            } else {
                                assert(after[m - 1] == before[m]);
                            }
                        }
                        assert forall|j: int|
                            0 <= j < orig.len() && (#[trigger] orig[j]).user_id@ == user_id@ implies (after.contains(orig[j])
                                || removed@.contains(orig[j])) by {
                            if before.contains(orig[j]) {
                                let m = choose|m: int| 0 <= m < before.len() && before[m] == orig[j];
                                if m == i {
                                    assert(removed@[removed@.len() - 1] == orig[j]);
                                } else if m < i {
                                    assert(after[m] == before[m]);
                                } else {
                                    assert(after[m - 1] == before[m]);
                                }
                            } else {
                                let q = choose|q: int| 0 <= q < rbefore.len() && rbefore[q] == orig[j];
                                assert(removed@[q] == rbefore[q]);
                            }
                        }
                        assert(s.language == all[k as int]);
                        assert forall|q: int| 0 <= q < removed@.len() implies exists|a: int| 0 <= a < k + 1 && (#[trigger] removed@[q]).language == all[a] by {
                            if q < rbefore.len() {
                                assert(removed@[q] == rbefore[q]);
                                let a = choose|a: int| 0 <= a < k && rbefore[q].language == all[a];
                            } else {
                                assert(removed@[q] == s);
                            }
                        }
                        assert forall|a: int, b: int|
                            0 <= a < b < removed@.len() implies (#[trigger] removed@[a]).language != (#[trigger] removed@[b]).language by {
                            assert(removed@[a] == rbefore[a] || a == rbefore.len());
                            if b < rbefore.len() {
                                assert(removed@[a] == rbefore[a] && removed@[b] == rbefore[b]);
                            } else {
                                assert(removed@[a] == rbefore[a]);
                                assert(removed@[b] == s);
                                let x = choose|x: int| 0 <= x < k && rbefore[a].language == all[x];
                                assert(all[x] != all[k as int]);
                            }
                        }
                    }
                },
                None => {
                    proof {
                        lemma_key_index_none(before, user_id@, language, 0);
                    }
                },
            }
            k = k + 1;
        }
        proof {
            assert forall|j: int|
                0 <= j < orig.len() && (#[trigger] orig[j]).user_id@ == user_id@ implies removed@.contains(orig[j]) by {
                if self.spec_sessions().contains(orig[j]) {
                    let m = choose|m: int| 0 <= m < self.spec_sessions().len() && self.spec_sessions()[m] == orig[j];
                    let l = orig[j].language;
                    let a: int = match l {
                        Language::Python => 0,
                        Language::Javascript => 1,
                        Language::Bash => 2,
                        Language::R => 3,
                        Language::Julia => 4,
                        Language::Typescript => 5,
                        Language::Ruby => 6,
                        Language::Go => 7,
                        Language::Wasm => 8,
                    };
                    assert(!has_key(self.spec_sessions()[m], user_id@, all[a]));
                }
            }
            assert forall|j: int| 0 <= j < self.spec_sessions().len() implies self.spec_sessions()[j].user_id@ != user_id@ by {
                let l = self.spec_sessions()[j].language;
                let a: int = match l {
                    Language::Python => 0,
                    Language::Javascript => 1,
                    Language::Bash => 2,
                    Language::R => 3,
                    Language::Julia => 4,
                    Language::Typescript => 5,
                    Language::Ruby => 6,
                    Language::Go => 7,
                    Language::Wasm => 8,
                };
                assert(all[a] == l);
                assert(!has_key(self.spec_sessions()[j], user_id@, all[a]));
            }
        }
        removed
    }

    /// Takes the runtime's usage figures for the container of the user's
    /// session in the language; unreadable figures keep their last value.
    /// Reports whether there is such a session.
    pub fn update_usage(
        &mut self,
        user_id: &str,
        language: Language,
        cpu: &[u8],
        memory: &[u8],
        pids: &[u8],
        disk_mb: u64,
    ) -> (r: bool)
        requires
            old(self).wf(),
        ensures
            final(self).wf(),
            final(self).spec_config() == old(self).spec_config(),
            final(self).spec_sessions().len() == old(self).spec_sessions().len(),
            r == (key_index(old(self).spec_sessions(), user_id@, language) is Some),
            match key_index(old(self).spec_sessions(), user_id@, language) {
                Some(i) => {
                    &&& final(self).spec_sessions()[i] == (Session {
                        current_usage: final(self).spec_sessions()[i].current_usage,
                        ..old(self).spec_sessions()[i]
                    })
                    &&& final(self).spec_sessions()[i].current_usage.cpu_hundredths
                        == match crate::usage::percent_hundredths(cpu@) {
                        Some(h) => h as u64,
                        None => old(self).spec_sessions()[i].current_usage.cpu_hundredths,
                    }
                    &&& final(self).spec_sessions()[i].current_usage.memory_bytes
                        == match crate::usage::memory_bytes(crate::usage::used_part(memory@)) {
                        Some(b) => b as u64,
                        None => old(self).spec_sessions()[i].current_usage.memory_bytes,
                    }
                    &&& final(self).spec_sessions()[i].current_usage.disk_mb == disk_mb
                    &&& final(self).spec_sessions()[i].current_usage.pids == match crate::usage::count_of(
                        pids@,
                    ) {
                        Some(n) => n as u32,
                        None => old(self).spec_sessions()[i].current_usage.pids,
                    }
                    &&& forall|j: int|
                        0 <= j < old(self).spec_sessions().len() && j != i
                            ==> final(self).spec_sessions()[j] == old(self).spec_sessions()[j]
                },
                None => final(self).spec_sessions() == old(self).spec_sessions(),
            },
    {
        match self.find(user_id, language) {
            Some(i) => {
                let ghost before = self.sessions@;
                let mut s = self.sessions.remove(i);
                s.update_usage(cpu, memory, pids, disk_mb);
                self.sessions.insert(i, s);
                proof {
                    assert(self.sessions@ =~= before.update(i as int, s));
                    lemma_update_keeps_wf(before, i as int, s);
                }
                true
            },
            None => false,
        }
    }

    /// Takes the execution guard of the user's session in the language.
    /// Refused when there is no such session or an execution holds it.
    pub fn begin_execution(&mut self, user_id: &str, language: Language, now_ms: u64) -> (r: bool)
        requires
            old(self).wf(),
        ensures
            final(self).wf(),
            final(self).spec_config() == old(self).spec_config(),
            final(self).spec_sessions().len() == old(self).spec_sessions().len(),
            match key_index(old(self).spec_sessions(), user_id@, language) {
                Some(i) => {
                    &&& r == !old(self).spec_sessions()[i].spec_executing()
                    &&& final(self).spec_sessions()[i].spec_executing()
                    &&& final(self).spec_sessions()[i].spec_executions() == if r {
                        bumped(old(self).spec_sessions()[i].spec_executions())
                    } else {
                        old(self).spec_sessions()[i].spec_executions()
                    }
                    &&& final(self).spec_sessions()[i].spec_last_activity() == if r && now_ms
                        > old(self).spec_sessions()[i].spec_last_activity() {
                        now_ms
                    } else {
                        old(self).spec_sessions()[i].spec_last_activity()
                    }
                    &&& final(self).spec_sessions()[i].spec_history() == old(self).spec_sessions()[i].spec_history()
                    &&& final(self).spec_sessions()[i].spec_errors() == old(self).spec_sessions()[i].spec_errors()
                    &&& forall|j: int|
                        0 <= j < old(self).spec_sessions().len() && j != i
                            ==> #[trigger] final(self).spec_sessions()[j] == old(self).spec_sessions()[j]
                },
                None => !r && final(self).spec_sessions() == old(self).spec_sessions(),
            },
    {
        match self.find(user_id, language) {
            Some(i) => {
                let ghost before = self.sessions@;
                let mut s = self.sessions.remove(i);
                let ok = s.begin_execution(now_ms);
                self.sessions.insert(i, s);
                proof {
                    assert(self.sessions@ =~= before.update(i as int, s));
                    lemma_update_keeps_wf(before, i as int, s);
                }
                ok
            },
            None => false,
        }
    }

    /// Records a finished execution on the user's session in the language and
    /// releases its guard.
    pub fn end_execution(&mut self, user_id: &str, language: Language, summary: ExecutionSummary) -> (r: bool)
        requires
            old(self).wf(),
        ensures
            final(self).wf(),
            final(self).spec_config() == old(self).spec_config(),
            final(self).spec_sessions().len() == old(self).spec_sessions().len(),
            match key_index(old(self).spec_sessions(), user_id@, language) {
                Some(i) => {
                    &&& r == old(self).spec_sessions()[i].spec_executing()
                    &&& !final(self).spec_sessions()[i].spec_executing()
                    &&& r ==> final(self).spec_sessions()[i].spec_history() == recorded(
                        old(self).spec_sessions()[i].spec_history(),
                        summary,
                    )
                    &&& r ==> final(self).spec_sessions()[i].spec_errors() == if summary.status
                        == ExecutionStatus::Success {
                        old(self).spec_sessions()[i].spec_errors()
                    } else {
                        bumped(old(self).spec_sessions()[i].spec_errors())
                    }
                    &&& r ==> final(self).spec_sessions()[i].spec_executions() == old(self).spec_sessions()[i].spec_executions()
                    &&& !r ==> final(self).spec_sessions() == old(self).spec_sessions()
                    &&& forall|j: int|
                        0 <= j < old(self).spec_sessions().len() && j != i
                            ==> #[trigger] final(self).spec_sessions()[j] == old(self).spec_sessions()[j]
                },
                None => !r && final(self).spec_sessions() == old(self).spec_sessions(),
            },
    {
        match self.find(user_id, language) {
            Some(i) => {
                let ghost before = self.sessions@;
                let mut s = self.sessions.remove(i);
                let held = s.executing;
                if held {
                    s.end_execution(summary);
                }
                self.sessions.insert(i, s);
                proof {
                    assert(self.sessions@ =~= before.update(i as int, s));
                    lemma_update_keeps_wf(before, i as int, s);
                }
                held
            },
            None => false,
        }
    }
}

/// No two indexed sessions share a container name or a container id.
pub proof fn lemma_containers_unique(m: &SessionManager, i: int, j: int)
    requires
        m.wf(),
        0 <= i < m.spec_sessions().len(),
        0 <= j < m.spec_sessions().len(),
        i != j,
    ensures
        m.spec_sessions()[i].container_name@ != m.spec_sessions()[j].container_name@,
        m.spec_sessions()[i].spec_container_id() != m.spec_sessions()[j].spec_container_id(),
{
    let s = m.spec_sessions();
    if i < j {
        assert(apart(s[i], s[j]));
    } else {
        assert(apart(s[j], s[i]));
    }
}

/// Once the user's session in a language is gone, terminating it again finds
/// nothing, so the second call changes nothing.
pub proof fn lemma_terminate_idempotent(s: Seq<Session>, user_id: Seq<char>, language: Language)
    requires
        forall|i: int| 0 <= i < s.len() ==> !has_key(#[trigger] s[i], user_id, language),
    ensures
        key_index(s, user_id, language) is None,
{
    lemma_key_index(s, user_id, language, s.len() as int);
}

/// After a removal by key no session of that key remains.
pub proof fn lemma_terminate_removes_key(s: Seq<Session>, user_id: Seq<char>, language: Language)
    requires
        registry_wf(s),
        key_index(s, user_id, language) is Some,
    ensures
        forall|k: int|
            0 <= k < s.remove(key_index(s, user_id, language).unwrap()).len() ==> !has_key(
                #[trigger] s.remove(key_index(s, user_id, language).unwrap())[k],
                user_id,
                language,
            ),
{
    let i = key_index(s, user_id, language).unwrap();
    lemma_key_index_found(s, user_id, language, 0);
    let t = s.remove(i);
    assert forall|k: int| 0 <= k < t.len() implies !has_key(#[trigger] t[k], user_id, language) by {
        let k0 = if k < i {
            k
        } else {
            k + 1
        };
        assert(t[k] == s[k0]);
        if k0 < i {
            assert(apart(s[k0], s[i]));
        } else {
            assert(apart(s[i], s[k0]));
        }
    }
}

} // verus!
