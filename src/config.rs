//! Configuration of the execution plane: resource caps, network policy,
//! hardening switches and per-user overrides.
use vstd::prelude::*;

use crate::gvisor::GVisorConfig;
use crate::packages::PackageConfig;

verus! {

/// Whether two strings hold the same characters.
pub fn same_text(a: &str, b: &str) -> (r: bool)
    ensures
        r == (a@ == b@),
{
    a.to_string() == b.to_string()
}

/// Caps applied to one container.
#[derive(Clone, Debug)]
pub struct ResourceLimits {
    pub max_memory_mb: u64,
    /// CPU share in thousandths of a core.
    pub max_millicpus: u64,
    pub max_pids: u32,
    pub max_execution_seconds: u64,
    pub max_disk_mb: u64,
}

impl ResourceLimits {
    /// The caps a container may be started with.
    pub open spec fn wf(&self) -> bool {
        &&& self.max_memory_mb >= 64
        &&& self.max_millicpus > 0
        &&& self.max_pids > 0
        &&& self.max_execution_seconds > 0
    }
}

impl Default for ResourceLimits {
    fn default() -> (r: ResourceLimits)
        ensures
            r.max_memory_mb == 1024,
            r.max_millicpus == 1000,
            r.max_pids == 100,
            r.max_execution_seconds == 30,
            r.max_disk_mb == 1024,
            r.wf(),
    {
        ResourceLimits {
            max_memory_mb: default_memory_mb(),
            max_millicpus: 1000,
            max_pids: default_pids(),
            max_execution_seconds: default_timeout(),
            max_disk_mb: default_disk_mb(),
        }
    }
}

/// Network access of a container.
#[derive(Clone, Debug)]
pub struct NetworkPolicy {
    pub enabled: bool,
    pub allowed_hosts: Vec<String>,
    pub allowed_ports: Vec<u16>,
}

impl Default for NetworkPolicy {
    fn default() -> (r: NetworkPolicy)
        ensures
            !r.enabled,
            r.allowed_hosts@.len() == 0,
            r.allowed_ports@.len() == 0,
    {
        NetworkPolicy { enabled: false, allowed_hosts: Vec::new(), allowed_ports: Vec::new() }
    }
}

/// Container hardening and API credentials.
#[derive(Clone, Debug)]
pub struct SecurityConfig {
    pub seccomp_profile: Option<String>,
    pub read_only_rootfs: bool,
    pub drop_all_caps: bool,
    pub no_new_privileges: bool,
    pub jwt_secret: String,
    pub jwt_expiration_seconds: u64,
    pub admin_token: Option<String>,
}

impl SecurityConfig {
    /// All hardening on, tokens valid for an hour, signed with `jwt_secret`.
    pub fn new(jwt_secret: String) -> (r: SecurityConfig)
        ensures
            r.seccomp_profile is None,
            r.read_only_rootfs && r.drop_all_caps && r.no_new_privileges,
            r.jwt_secret == jwt_secret,
            r.jwt_expiration_seconds == 3600,
            r.admin_token is None,
    {
        SecurityConfig {
            seccomp_profile: None,
            read_only_rootfs: default_true(),
            drop_all_caps: default_true(),
            no_new_privileges: default_true(),
            jwt_secret,
            jwt_expiration_seconds: default_jwt_expiration(),
            admin_token: None,
        }
    }
}

/// Per-user settings.
#[derive(Clone, Debug)]
pub struct UserConfig {
    pub user_id: String,
    pub api_key_hash: Option<String>,
    pub enabled: bool,
    pub resource_limits: Option<ResourceLimits>,
    pub network_policy: Option<NetworkPolicy>,
    pub allowed_languages: Vec<String>,
    pub gpu_enabled: bool,
}

/// Admin API settings.
#[derive(Clone, Debug)]
pub struct AdminConfig {
    pub enabled: bool,
    pub require_auth: bool,
    pub admin_users: Vec<String>,
}

impl Default for AdminConfig {
    fn default() -> (r: AdminConfig)
        ensures
            r.enabled && r.require_auth,
            r.admin_users@.len() == 0,
    {
        AdminConfig { enabled: true, require_auth: true, admin_users: Vec::new() }
    }
}

/// Metrics endpoint settings.
#[derive(Clone, Debug)]
pub struct MetricsConfig {
    pub enabled: bool,
    pub path: String,
}

impl Default for MetricsConfig {
    fn default() -> (r: MetricsConfig)
        ensures
            r.enabled,
            r.path@ == "/metrics"@,
    {
        MetricsConfig { enabled: true, path: default_metrics_path() }
    }
}

/// Why a configuration was refused.
#[derive(Clone, Copy, Debug, PartialEq, Eq, Structural)]
pub enum ConfigError {
    ZeroPort,
    MemoryBelowMinimum,
    ZeroTimeout,
    ShortJwtSecret,
}

/// Settings of the orchestrator that the execution plane reads.
#[derive(Clone, Debug)]
pub struct AppConfig {
    pub host: String,
    pub port: u16,
    pub log_level: String,
    pub data_dir: String,
    pub sandbox_image: String,
    pub stop_containers_on_shutdown: bool,
    pub default_limits: ResourceLimits,
    pub default_network: NetworkPolicy,
    pub security: SecurityConfig,
    pub users: Vec<UserConfig>,
    pub admin: AdminConfig,
    pub metrics: MetricsConfig,
    pub gvisor: GVisorConfig,
    pub packages: PackageConfig,
}

/// The settings of the first user entry with the given id.
pub open spec fn user_entry(users: Seq<UserConfig>, user_id: Seq<char>) -> Option<UserConfig>
    decreases users.len(),
{
    if users.len() == 0 {
        None
    } else if users[0].user_id@ == user_id {
        Some(users[0])
    } else {
        user_entry(users.drop_first(), user_id)
    }
}

impl AppConfig {
    /// Defaults everywhere, with the given JWT secret.
    pub fn new(jwt_secret: String) -> (r: AppConfig)
        ensures
            r.host@ == "0.0.0.0"@,
            r.port == 8080,
            r.data_dir@ == "/var/lib/cage"@,
            r.default_limits.max_memory_mb == 1024,
            r.default_limits.wf(),
            !r.default_network.enabled,
            r.security.jwt_secret == jwt_secret,
            r.users@.len() == 0,
    {
        AppConfig {
            host: default_host(),
            port: default_port(),
            log_level: default_log_level(),
            data_dir: default_data_dir(),
            sandbox_image: default_sandbox_image(),
            stop_containers_on_shutdown: default_true(),
            default_limits: ResourceLimits::default(),
            default_network: NetworkPolicy::default(),
            security: SecurityConfig::new(jwt_secret),
            users: Vec::new(),
            admin: AdminConfig::default(),
            metrics: MetricsConfig::default(),
            gvisor: GVisorConfig::default(),
            packages: PackageConfig::default(),
        }
    }

    /// Checks the values the orchestrator cannot run with.
    pub fn validate(&self) -> (r: Result<(), ConfigError>)
        ensures
            self.port == 0 ==> r == Err::<(), ConfigError>(ConfigError::ZeroPort),
            self.port != 0 && self.default_limits.max_memory_mb < 64 ==> r == Err::<(), ConfigError>(
                ConfigError::MemoryBelowMinimum,
            ),
            self.port != 0 && self.default_limits.max_memory_mb >= 64
                && self.default_limits.max_execution_seconds == 0 ==> r == Err::<(), ConfigError>(
                ConfigError::ZeroTimeout,
            ),
            self.port != 0 && self.default_limits.max_memory_mb >= 64
                && self.default_limits.max_execution_seconds != 0
                && self.security.jwt_secret@.len() < 16 ==> r == Err::<(), ConfigError>(
                ConfigError::ShortJwtSecret,
            ),
            r is Ok <==> (self.port != 0 && self.default_limits.max_memory_mb >= 64
                && self.default_limits.max_execution_seconds != 0
                && self.security.jwt_secret@.len() >= 16),
    {
        if self.port == 0 {
            return Err(ConfigError::ZeroPort);
        }
        if self.default_limits.max_memory_mb < 64 {
            return Err(ConfigError::MemoryBelowMinimum);
        }
        if self.default_limits.max_execution_seconds == 0 {
            return Err(ConfigError::ZeroTimeout);
        }
        if self.security.jwt_secret.as_str().unicode_len() < 16 {
            return Err(ConfigError::ShortJwtSecret);
        }
        Ok(())
    }

    fn find_user(&self, user_id: &str) -> (r: Option<usize>)
        ensures
            match user_entry(self.users@, user_id@) {
                Some(u) => r is Some && r.unwrap() < self.users@.len() && self.users@[r.unwrap() as int] == u,
                None => r is None,
            },
    {
        let mut i: usize = 0;
        assert(self.users@.skip(0) =~= self.users@);
        while i < self.users.len()
            invariant
                i <= self.users@.len(),
                user_entry(self.users@, user_id@) == user_entry(self.users@.skip(i as int), user_id@),
            decreases self.users@.len() - i,
        {
            assert(self.users@.skip(i as int).drop_first() =~= self.users@.skip(i + 1));
            if same_text(self.users[i].user_id.as_str(), user_id) {
                return Some(i);
            }
            i = i + 1;
        }
        None
    }

    /// Effective limits of a user: the user's own, else the defaults.
    pub fn get_user_limits(&self, user_id: &str) -> (r: ResourceLimits)
        ensures
            r == match user_entry(self.users@, user_id@) {
                Some(u) => match u.resource_limits {
                    Some(l) => l,
                    None => self.default_limits,
                },
                None => self.default_limits,
            },
    {
        match self.find_user(user_id) {
            Some(i) => match &self.users[i].resource_limits {
                Some(l) => copy_limits(l),
                None => copy_limits(&self.default_limits),
            },
            None => copy_limits(&self.default_limits),
        }
    }

    /// Effective network policy of a user: the user's own, else the default.
    pub fn get_user_network(&self, user_id: &str) -> (r: NetworkPolicy)
        ensures
            r.enabled == match user_entry(self.users@, user_id@) {
                Some(u) => match u.network_policy {
                    Some(p) => p.enabled,
                    None => self.default_network.enabled,
                },
                None => self.default_network.enabled,
            },
    {
        match self.find_user(user_id) {
            Some(i) => match &self.users[i].network_policy {
                Some(p) => copy_network(p),
                None => copy_network(&self.default_network),
            },
            None => copy_network(&self.default_network),
        }
    }

    /// Users absent from the configuration are enabled.
    pub fn is_user_enabled(&self, user_id: &str) -> (r: bool)
        ensures
            r == match user_entry(self.users@, user_id@) {
                Some(u) => u.enabled,
                None => true,
            },
    {
        match self.find_user(user_id) {
            Some(i) => self.users[i].enabled,
            None => true,
        }
    }

    /// Whether the user has GPU passthrough.
    pub fn gpu_enabled(&self, user_id: &str) -> (r: bool)
        ensures
            r == match user_entry(self.users@, user_id@) {
                Some(u) => u.gpu_enabled,
                None => false,
            },
    {
        match self.find_user(user_id) {
            Some(i) => self.users[i].gpu_enabled,
            None => false,
        }
    }

    /// Whether the user is listed as an administrator.
    pub fn is_admin(&self, user_id: &str) -> (r: bool)
        ensures
            r == exists|i: int|
                0 <= i < self.admin.admin_users@.len() && self.admin.admin_users@[i]@ == user_id@,
    {
        let mut i: usize = 0;
        while i < self.admin.admin_users.len()
            invariant
                i <= self.admin.admin_users@.len(),
                forall|j: int| 0 <= j < i ==> self.admin.admin_users@[j]@ != user_id@,
            decreases self.admin.admin_users@.len() - i,
        {
            if same_text(self.admin.admin_users[i].as_str(), user_id) {
                let ghost k = i as int;
                assert(0 <= k < self.admin.admin_users@.len() && self.admin.admin_users@[k]@ == user_id@);
                return true;
            }
            i = i + 1;
        }
        false
    }
}

fn copy_limits(l: &ResourceLimits) -> (r: ResourceLimits)
    ensures
        r == *l,
{
    ResourceLimits {
        max_memory_mb: l.max_memory_mb,
        max_millicpus: l.max_millicpus,
        max_pids: l.max_pids,
        max_execution_seconds: l.max_execution_seconds,
        max_disk_mb: l.max_disk_mb,
    }
}

fn copy_network(p: &NetworkPolicy) -> (r: NetworkPolicy)
    ensures
        r.enabled == p.enabled,
        r.allowed_hosts@.len() == p.allowed_hosts@.len(),
        r.allowed_ports@.len() == p.allowed_ports@.len(),
{
    NetworkPolicy {
        enabled: p.enabled,
        allowed_hosts: p.allowed_hosts.clone(),
        allowed_ports: p.allowed_ports.clone(),
    }
}

fn default_host() -> (r: String)
    ensures
        r@ == "0.0.0.0"@,
{
    "0.0.0.0".to_string()
}

fn default_port() -> (r: u16)
    ensures
        r == 8080,
{
    8080
}

fn default_log_level() -> (r: String)
    ensures
        r@ == "info"@,
{
    "info".to_string()
}

fn default_data_dir() -> (r: String)
    ensures
        r@ == "/var/lib/cage"@,
{
    "/var/lib/cage".to_string()
}

fn default_sandbox_image() -> (r: String)
    ensures
        r@ == "cage-sandbox:latest"@,
{
    "cage-sandbox:latest".to_string()
}

fn default_memory_mb() -> (r: u64)
    ensures
        r == 1024,
{
    1024
}

fn default_pids() -> (r: u32)
    ensures
        r == 100,
{
    100
}

fn default_timeout() -> (r: u64)
    ensures
        r == 30,
{
    30
}

fn default_disk_mb() -> (r: u64)
    ensures
        r == 1024,
{
    1024
}

fn default_true() -> (r: bool)
    ensures
        r,
{
    true
}

fn default_jwt_expiration() -> (r: u64)
    ensures
        r == 3600,
{
    3600
}

/// Languages a user may run when the configuration names none.
pub fn default_languages() -> (r: Vec<String>)
    ensures
        r@.len() == 1,
        r@[0]@ == "python"@,
{
    let mut v: Vec<String> = Vec::new();
    v.push("python".to_string());
    v
}

fn default_metrics_path() -> (r: String)
    ensures
        r@ == "/metrics"@,
{
    "/metrics".to_string()
}

} // verus!
