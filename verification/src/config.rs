//! The configuration model: driver kind, framework version pair, target CPU
//! architecture, and the aggregate build configuration.

use vstd::prelude::*;

verus! {

/// Framework version pair for a kernel-mode framework driver.
#[derive(Debug, Clone, Copy, PartialEq, Eq, Structural)]
pub struct KMDFConfig {
    pub kmdf_version_major: u8,
    pub kmdf_version_minor: u8,
}

/// Framework version pair for a user-mode framework driver.
#[derive(Debug, Clone, Copy, PartialEq, Eq, Structural)]
pub struct UMDFConfig {
    pub umdf_version_major: u8,
    pub umdf_version_minor: u8,
}

/// The driver kind a build targets, with the framework version payload where
/// the kind is framework-mediated.
#[derive(Debug, Clone, Copy, PartialEq, Eq, Structural)]
pub enum DriverConfig {
    WDM(),
    KMDFConfig(KMDFConfig),
    UMDFConfig(UMDFConfig),
}

/// The bare driver kind, without any version payload.
#[derive(Debug, Clone, Copy, PartialEq, Eq, Structural)]
pub enum DriverType {
    /// Windows Driver Model
    WDM,
    /// Kernel Mode Driver Framework
    KMDFConfig,
    /// User Mode Driver Framework
    UMDFConfig,
}

/// Target CPU architecture of the driver being built.
#[derive(Debug, Clone, Copy, PartialEq, Eq, Structural)]
pub enum CPUArchitecture {
    AMD64,
    ARM64,
}

/// Aggregate build configuration: where the toolkit content lives, which
/// driver kind is being built, and for which CPU architecture.
#[derive(Debug)]
pub struct Config {
    /// Root directory of the installed toolkit content, as a plain path
    /// string.  Detecting it on a host is the caller's concern.
    pub wdk_content_root: String,
    pub driver_config: DriverConfig,
    pub cpu_architecture: CPUArchitecture,
}

/// Structural equality of two configurations: all three fields must match,
/// nested version numbers included; the content root is compared as text.
pub open spec fn cfg_eq(a: Config, b: Config) -> bool {
    &&& a.wdk_content_root@ == b.wdk_content_root@
    &&& a.driver_config == b.driver_config
    &&& a.cpu_architecture == b.cpu_architecture
}

impl Config {
    /// Builds a configuration for the given content root and architecture,
    /// with the plain kernel-mode driver model as the driver kind.
    pub fn new(wdk_content_root: String, cpu_architecture: CPUArchitecture) -> (r: Self)
        ensures
            r.wdk_content_root@ == wdk_content_root@,
            r.driver_config == DriverConfig::WDM(),
            r.cpu_architecture == cpu_architecture,
    {
        Self { wdk_content_root, driver_config: DriverConfig::WDM(), cpu_architecture }
    }
}

impl Clone for Config {
    fn clone(&self) -> (r: Self)
        ensures
            cfg_eq(r, *self),
    {
        Self {
            wdk_content_root: self.wdk_content_root.clone(),
            driver_config: self.driver_config,
            cpu_architecture: self.cpu_architecture,
        }
    }
}

impl PartialEq for Config {
    fn eq(&self, other: &Self) -> (r: bool) {
        self.wdk_content_root == other.wdk_content_root
            && self.driver_config == other.driver_config
            && self.cpu_architecture == other.cpu_architecture
    }
}

impl vstd::std_specs::cmp::PartialEqSpecImpl for Config {
    open spec fn obeys_eq_spec() -> bool {
        true
    }

    open spec fn eq_spec(&self, other: &Self) -> bool {
        cfg_eq(*self, *other)
    }
}

impl Default for KMDFConfig {
    /// The canonical default kernel-mode framework version.
    fn default() -> (r: Self)
        ensures
            r.kmdf_version_major == 1,
            r.kmdf_version_minor == 33,
    {
        Self { kmdf_version_major: 1, kmdf_version_minor: 33 }
    }
}

impl KMDFConfig {
    pub fn new() -> (r: Self)
        ensures
            r.kmdf_version_major == 1,
            r.kmdf_version_minor == 33,
    {
        Self::default()
    }
}

impl Default for UMDFConfig {
    /// The canonical default user-mode framework version.
    fn default() -> (r: Self)
        ensures
            r.umdf_version_major == 2,
            r.umdf_version_minor == 33,
    {
        Self { umdf_version_major: 2, umdf_version_minor: 33 }
    }
}

impl UMDFConfig {
    pub fn new() -> (r: Self)
        ensures
            r.umdf_version_major == 2,
            r.umdf_version_minor == 33,
    {
        Self::default()
    }
}

/// The fixed directory-naming token of an architecture.
pub open spec fn spec_windows_str(arch: CPUArchitecture) -> Seq<char> {
    match arch {
        CPUArchitecture::AMD64 => "x64"@,
        CPUArchitecture::ARM64 => "ARM64"@,
    }
}

impl CPUArchitecture {
    /// Returns the fixed directory-naming token used for this architecture in
    /// the toolkit's directory layout.
    pub fn to_windows_str(&self) -> (r: &'static str)
        ensures
            r@ == spec_windows_str(*self),
    {
        match self {
            Self::AMD64 => "x64",
            Self::ARM64 => "ARM64",
        }
    }
}

/// The architecture-token mapping is total (every architecture has one of the
/// two fixed tokens) and injective (distinct architectures get distinct
/// tokens).
pub proof fn lemma_windows_str_total_injective()
    ensures
        forall|a: CPUArchitecture|
            spec_windows_str(a) == "x64"@ || spec_windows_str(a) == "ARM64"@,
        forall|a: CPUArchitecture, b: CPUArchitecture|
            spec_windows_str(a) == spec_windows_str(b) ==> a == b,
{
    reveal_strlit("x64");
    reveal_strlit("ARM64");
    assert forall|a: CPUArchitecture|
        spec_windows_str(a) == "x64"@ || spec_windows_str(a) == "ARM64"@ by {
        match a {
            CPUArchitecture::AMD64 => {},
            CPUArchitecture::ARM64 => {},
        }
    }
    assert("x64"@.len() != "ARM64"@.len());
    assert forall|a: CPUArchitecture, b: CPUArchitecture|
        spec_windows_str(a) == spec_windows_str(b) implies a == b by {
        match (a, b) {
            (CPUArchitecture::AMD64, CPUArchitecture::ARM64) => {
                assert(spec_windows_str(a).len() != spec_windows_str(b).len());
            },
            (CPUArchitecture::ARM64, CPUArchitecture::AMD64) => {
                assert(spec_windows_str(a).len() != spec_windows_str(b).len());
            },
            _ => {},
        }
    }
}

} // verus!
