//! Settings of the secret store client.
use vstd::prelude::*;

verus! {

/// Vault settings.
#[derive(Clone, Debug)]
pub struct VaultConfig {
    pub enabled: bool,
    pub address: String,
    /// Token the client authenticates with.
    pub token: String,
    pub secret_path: String,
    pub timeout_seconds: u64,
}

impl Default for VaultConfig {
    fn default() -> (r: VaultConfig)
        ensures
            !r.enabled,
            r.address@ == "http://127.0.0.1:8200"@,
            r.token@.len() == 0,
            r.secret_path@ == "secret/data/cage"@,
            r.timeout_seconds == 10,
    {
        VaultConfig {
            enabled: false,
            address: "http://127.0.0.1:8200".to_string(),
            token: String::new(),
            secret_path: "secret/data/cage".to_string(),
            timeout_seconds: 10,
        }
    }
}

} // verus!
