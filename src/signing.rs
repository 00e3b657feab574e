//! Code signature checks: a signature is accepted only from a trusted key
//! and in base64 form.
use vstd::prelude::*;

use crate::config::same_text;

verus! {

/// Whether `s` decodes as standard, padded base64.
pub uninterp spec fn base64_decodes(s: Seq<char>) -> bool;

/// Relies on base64's `STANDARD` engine: true iff `decode` accepts the text.
#[verifier::external_body]
fn decodes_as_base64(s: &str) -> (r: bool)
    ensures
        r == base64_decodes(s@),
{
    base64::Engine::decode(&base64::engine::general_purpose::STANDARD, s).is_ok()
}

/// Signing settings.
#[derive(Clone, Debug)]
pub struct SigningConfig {
    pub enabled: bool,
    pub require_signature: bool,
    /// Fingerprints of the trusted keys.
    pub trusted_keys: Vec<String>,
}

impl Default for SigningConfig {
    fn default() -> (r: SigningConfig)
        ensures
            !r.enabled,
            !r.require_signature,
            r.trusted_keys@.len() == 0,
    {
        SigningConfig { enabled: false, require_signature: false, trusted_keys: Vec::new() }
    }
}

/// Code with its signature.
#[derive(Clone, Debug)]
pub struct SignedCode {
    pub code: String,
    /// Base64 signature.
    pub signature: String,
    pub key_fingerprint: String,
}

/// Verdict on a signature.
#[derive(Clone, Debug)]
pub enum VerificationResult {
    Valid,
    Invalid(String),
    NoSignature,
}

/// The key is one of the trusted ones.
pub open spec fn trusted(keys: Seq<String>, key: Seq<char>) -> bool {
    exists|i: int| 0 <= i < keys.len() && keys[i]@ == key
}

/// The verdict from the three checks, in order: signing on, key trusted,
/// signature well formed.
pub fn signature_verdict(enabled: bool, trusted_key: bool, well_formed: bool) -> (r: VerificationResult)
    ensures
        !enabled ==> r is NoSignature,
        enabled && !trusted_key ==> (r matches VerificationResult::Invalid(m) && m@
            == "Signing key not in trusted list"@),
        enabled && trusted_key && !well_formed ==> (r matches VerificationResult::Invalid(m) && m@
            == "Invalid signature format"@),
        enabled && trusted_key && well_formed ==> r is Valid,
{
    if !enabled {
        VerificationResult::NoSignature
    } else if !trusted_key {
        VerificationResult::Invalid("Signing key not in trusted list".to_string())
    } else if !well_formed {
        VerificationResult::Invalid("Invalid signature format".to_string())
    } else {
        VerificationResult::Valid
    }
}

/// Verifier of code signatures.
pub struct SignatureVerifier {
    config: SigningConfig,
}

impl SignatureVerifier {
    pub closed spec fn spec_config(&self) -> SigningConfig {
        self.config
    }

    pub fn new(config: SigningConfig) -> (r: SignatureVerifier)
        ensures
            r.spec_config() == config,
    {
        SignatureVerifier { config }
    }

    /// Checks a signature: none is checked when signing is off; an untrusted
    /// key or a signature that is not base64 is invalid.
    pub fn verify(&self, signed_code: &SignedCode) -> (r: VerificationResult)
        ensures
            !self.spec_config().enabled ==> r is NoSignature,
            self.spec_config().enabled && !trusted(
                self.spec_config().trusted_keys@,
                signed_code.key_fingerprint@,
            ) ==> (r matches VerificationResult::Invalid(m) && m@
                == "Signing key not in trusted list"@),
            self.spec_config().enabled && trusted(
                self.spec_config().trusted_keys@,
                signed_code.key_fingerprint@,
            ) && !base64_decodes(signed_code.signature@) ==> (r matches VerificationResult::Invalid(
                m,
            ) && m@ == "Invalid signature format"@),
            self.spec_config().enabled && trusted(
                self.spec_config().trusted_keys@,
                signed_code.key_fingerprint@,
            ) && base64_decodes(signed_code.signature@) ==> r is Valid,
    {
        if !self.config.enabled {
            return VerificationResult::NoSignature;
        }
        let mut i: usize = 0;
        let mut found = false;
        while i < self.config.trusted_keys.len()
            invariant
                i <= self.config.trusted_keys@.len(),
                found == exists|j: int|
                    0 <= j < i && self.config.trusted_keys@[j]@ == signed_code.key_fingerprint@,
            decreases self.config.trusted_keys@.len() - i,
        {
            if same_text(self.config.trusted_keys[i].as_str(), signed_code.key_fingerprint.as_str()) {
                found = true;
            }
            i = i + 1;
        }
        if !found {
            return signature_verdict(true, false, false);
        }
        let well_formed = decodes_as_base64(signed_code.signature.as_str());
        signature_verdict(true, true, well_formed)
    }

    /// Unsigned code may run unless signing is on and signatures are required.
    pub fn allow_unsigned(&self) -> (r: bool)
        ensures
            r == (!self.spec_config().enabled || !self.spec_config().require_signature),
    {
        !self.config.enabled || !self.config.require_signature
    }
}

} // verus!
