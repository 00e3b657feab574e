//! Optional gVisor runtime: the extra arguments a container start takes when
//! the user-space kernel is enabled and present.
use vstd::prelude::*;

use crate::text::{concat, push_text, strings_view};

verus! {

/// Platform the gVisor sentry intercepts system calls with.
#[derive(Clone, Copy, Debug, PartialEq, Eq, Structural)]
pub enum GVisorPlatform {
    Ptrace,
    Kvm,
    Systrap,
}

impl GVisorPlatform {
    pub open spec fn name(self) -> Seq<char> {
        match self {
            GVisorPlatform::Ptrace => "ptrace"@,
            GVisorPlatform::Kvm => "kvm"@,
            GVisorPlatform::Systrap => "systrap"@,
        }
    }
}

/// gVisor settings.
#[derive(Clone, Debug)]
pub struct GVisorConfig {
    pub enabled: bool,
    pub runsc_path: String,
    pub platform: GVisorPlatform,
    /// Network mode handed to runsc (none, host, sandbox).
    pub network: String,
}

impl Default for GVisorConfig {
    fn default() -> (r: GVisorConfig)
        ensures
            !r.enabled,
            r.runsc_path@ == "/usr/local/bin/runsc"@,
            r.platform == GVisorPlatform::Systrap,
            r.network@ == "none"@,
    {
        GVisorConfig {
            enabled: false,
            runsc_path: "/usr/local/bin/runsc".to_string(),
            platform: GVisorPlatform::Systrap,
            network: "none".to_string(),
        }
    }
}

/// Shell script that installs runsc.
pub const INSTALL_SCRIPT: &'static str = "#!/bin/bash
# Install gVisor runsc runtime

set -euo pipefail

ARCH=$(uname -m)
if [[ \"${ARCH}\" == \"x86_64\" ]]; then
    ARCH=\"x86_64\"
elif [[ \"${ARCH}\" == \"aarch64\" ]]; then
    ARCH=\"aarch64\"
else
    echo \"Unsupported architecture: ${ARCH}\"
    exit 1
fi

# Download runsc
wget https://storage.googleapis.com/gvisor/releases/release/latest/${ARCH}/runsc
wget https://storage.googleapis.com/gvisor/releases/release/latest/${ARCH}/runsc.sha512

# Verify checksum
sha512sum -c runsc.sha512

# Install
chmod +x runsc
sudo mv runsc /usr/local/bin/

# Verify installation
/usr/local/bin/runsc --version

echo \"gVisor runsc installed successfully!\"
echo \"Configure CAGE with:\"
echo \"  gvisor:\"
echo \"    enabled: true\"
echo \"    platform: systrap  # or ptrace, kvm\"
";

/// The gVisor runtime as configured, with the result of probing for runsc.
pub struct GVisorRuntime {
    config: GVisorConfig,
    available: bool,
}

/// Container-start arguments that select gVisor; none unless it is active.
pub open spec fn runtime_args_for(config: GVisorConfig, available: bool) -> Seq<Seq<char>> {
    if config.enabled && available {
        seq![
            "--runtime"@,
            config.runsc_path@,
            "--runtime-flag"@,
            "--platform="@ + config.platform.name(),
            "--runtime-flag"@,
            "--network="@ + config.network@,
        ]
    } else {
        Seq::empty()
    }
}

impl GVisorRuntime {
    pub closed spec fn config(&self) -> GVisorConfig {
        self.config
    }

    pub closed spec fn available(&self) -> bool {
        self.available
    }

    /// `available` is whether runsc was found and answered `--version`.
    pub fn new(config: GVisorConfig, available: bool) -> (r: GVisorRuntime)
        ensures
            r.config() == config,
            r.available() == available,
    {
        GVisorRuntime { config, available }
    }

    /// Arguments for the container runtime that select gVisor.
    pub fn get_runtime_args(&self) -> (r: Vec<String>)
        ensures
            strings_view(r@) == runtime_args_for(self.config(), self.available()),
    {
        let mut args: Vec<String> = Vec::new();
        if !self.config.enabled || !self.available {
            assert(strings_view(args@) =~= Seq::empty());
            return args;
        }
        assert(strings_view(args@) =~= Seq::empty());
        push_text(&mut args, "--runtime");
        push_text(&mut args, self.config.runsc_path.as_str());
        push_text(&mut args, "--runtime-flag");
        let platform = concat("--platform=", self.platform_string());
        push_text(&mut args, platform.as_str());
        push_text(&mut args, "--runtime-flag");
        let network = concat("--network=", self.config.network.as_str());
        push_text(&mut args, network.as_str());
        assert(strings_view(args@) =~= runtime_args_for(self.config(), self.available()));
        args
    }

    fn platform_string(&self) -> (r: &'static str)
        ensures
            r@ == self.config().platform.name(),
    {
        match self.config.platform {
            GVisorPlatform::Ptrace => "ptrace",
            GVisorPlatform::Kvm => "kvm",
            GVisorPlatform::Systrap => "systrap",
        }
    }

    /// gVisor is enabled and runsc is present.
    pub fn is_active(&self) -> (r: bool)
        ensures
            r == (self.config().enabled && self.available()),
    {
        self.config.enabled && self.available
    }

    /// A script that installs runsc.
    pub fn generate_install_script() -> (r: String)
        ensures
            r@ == INSTALL_SCRIPT@,
    {
        INSTALL_SCRIPT.to_string()
    }

    /// What gVisor adds to container isolation.
    pub fn security_benefits() -> (r: Vec<String>)
        ensures
            strings_view(r@) == seq![
                "User-space kernel implementation"@,
                "Syscall interception and filtering"@,
                "Reduces attack surface on host kernel"@,
                "Prevents container escape exploits"@,
                "Mitigates kernel vulnerabilities"@,
                "Additional isolation layer beyond namespaces"@,
            ],
    {
        let mut v: Vec<String> = Vec::new();
        assert(strings_view(v@) =~= Seq::empty());
        push_text(&mut v, "User-space kernel implementation");
        push_text(&mut v, "Syscall interception and filtering");
        push_text(&mut v, "Reduces attack surface on host kernel");
        push_text(&mut v, "Prevents container escape exploits");
        push_text(&mut v, "Mitigates kernel vulnerabilities");
        push_text(&mut v, "Additional isolation layer beyond namespaces");
        assert(strings_view(v@) =~= seq![
            "User-space kernel implementation"@,
            "Syscall interception and filtering"@,
            "Reduces attack surface on host kernel"@,
            "Prevents container escape exploits"@,
            "Mitigates kernel vulnerabilities"@,
            "Additional isolation layer beyond namespaces"@,
        ]);
        v
    }

    /// Expected slowdown on the configured platform.
    pub fn performance_overhead(&self) -> (r: &'static str)
        ensures
            r@ == match self.config().platform {
                GVisorPlatform::Ptrace => "30-50% overhead"@,
                GVisorPlatform::Kvm => "10-15% overhead (requires /dev/kvm)"@,
                GVisorPlatform::Systrap => "15-25% overhead (recommended)"@,
            },
    {
        match self.config.platform {
            GVisorPlatform::Ptrace => "30-50% overhead",
            GVisorPlatform::Kvm => "10-15% overhead (requires /dev/kvm)",
            GVisorPlatform::Systrap => "15-25% overhead (recommended)",
        }
    }
}

} // verus!
