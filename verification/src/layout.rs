//! The directory layout resolver: maps a configuration onto the ordered list
//! of include and library directories it needs, and validates each against a
//! catalog of the directories that exist.
//!
//! The catalog is a [`StrTable`] binding each existing directory path to its
//! canonical, prefix-stripped form; the caller fills it from the live
//! filesystem for exactly the candidate paths.  Resolution is fail-fast: the
//! first candidate, in order, that the catalog does not know aborts the
//! operation and is named in the error.

use vstd::prelude::*;
use vstd::string::StringExecFns;

use crate::config::CPUArchitecture;
use crate::config::Config;
use crate::config::DriverConfig;
use crate::config::spec_windows_str;
use crate::errors::ConfigError;
use crate::table::StrTable;
use crate::text::append_dec;
use crate::text::join;
use crate::text::spec_dec;
use crate::text::spec_join;

verus! {

/// The views of a vector of strings.
pub open spec fn seq_views(v: Seq<String>) -> Seq<Seq<char>> {
    v.map_values(|s: String| s@)
}

/// The version-specific relative directory of a framework kind under the
/// include tree: `wdf/<kind>/<major>.<minor>`.
pub open spec fn spec_version_dir(prefix: Seq<char>, major: u8, minor: u8) -> Seq<char> {
    prefix + spec_dec(major as int) + "."@ + spec_dec(minor as int)
}

/// The version- and architecture-specific relative directory of a framework
/// kind under the library tree: `wdf/<kind>/<arch>/<major>.<minor>`.
pub open spec fn spec_version_arch_dir(
    prefix: Seq<char>,
    arch: CPUArchitecture,
    major: u8,
    minor: u8,
) -> Seq<char> {
    prefix + spec_windows_str(arch) + "/"@ + spec_dec(major as int) + "."@ + spec_dec(minor as int)
}

/// The ordered include directories a configuration requires: the C-runtime
/// directory, the kernel- or user-mode headers, the shared headers — all
/// under the highest SDK version — and, for a framework kind, its
/// version-specific headers under the include root.
pub open spec fn spec_include_candidates(c: Config, sdk_version: Seq<char>) -> Seq<Seq<char>> {
    let inc = spec_join(c.wdk_content_root@, "Include"@);
    let sdk = spec_join(inc, sdk_version);
    let mode_dir = match c.driver_config {
        DriverConfig::WDM() => "km"@,
        DriverConfig::KMDFConfig(v) => "km"@,
        DriverConfig::UMDFConfig(v) => "um"@,
    };
    let base = seq![
        spec_join(sdk, "km/crt"@),
        spec_join(sdk, mode_dir),
        spec_join(sdk, "shared"@),
    ];
    match c.driver_config {
        DriverConfig::WDM() => base,
        DriverConfig::KMDFConfig(v) => base.push(
            spec_join(inc, spec_version_dir("wdf/kmdf/"@, v.kmdf_version_major, v.kmdf_version_minor)),
        ),
        DriverConfig::UMDFConfig(v) => base.push(
            spec_join(inc, spec_version_dir("wdf/umdf/"@, v.umdf_version_major, v.umdf_version_minor)),
        ),
    }
}

/// The ordered library directories a configuration requires: the kernel- or
/// user-mode libraries for the target architecture under the highest SDK
/// version and, for a framework kind, its version-specific libraries under
/// the library root.
pub open spec fn spec_library_candidates(c: Config, sdk_version: Seq<char>) -> Seq<Seq<char>> {
    let lib = spec_join(c.wdk_content_root@, "Lib"@);
    let sdk = spec_join(lib, sdk_version);
    let mode_prefix = match c.driver_config {
        DriverConfig::WDM() => "km/"@,
        DriverConfig::KMDFConfig(v) => "km/"@,
        DriverConfig::UMDFConfig(v) => "um/"@,
    };
    let base = seq![spec_join(sdk, mode_prefix + spec_windows_str(c.cpu_architecture))];
    match c.driver_config {
        DriverConfig::WDM() => base,
        DriverConfig::KMDFConfig(v) => base.push(
            spec_join(
                lib,
                spec_version_arch_dir(
                    "wdf/kmdf/"@,
                    c.cpu_architecture,
                    v.kmdf_version_major,
                    v.kmdf_version_minor,
                ),
            ),
        ),
        DriverConfig::UMDFConfig(v) => base.push(
            spec_join(
                lib,
                spec_version_arch_dir(
                    "wdf/umdf/"@,
                    c.cpu_architecture,
                    v.umdf_version_major,
                    v.umdf_version_minor,
                ),
            ),
        ),
    }
}

/// Every candidate is in the catalog and maps, in order, to the resolved
/// form returned for it.
pub open spec fn resolution_ok(dirs: StrTable, cands: Seq<Seq<char>>, v: Seq<Seq<char>>) -> bool {
    v.len() == cands.len() && forall|i: int|
        0 <= i < cands.len() ==> dirs.spec_get(cands[i]) == Some(v[i])
}

/// `d` is the first candidate, in resolution order, that the catalog does
/// not know.
pub open spec fn first_missing_is(dirs: StrTable, cands: Seq<Seq<char>>, d: Seq<char>) -> bool {
    exists|k: int|
        0 <= k < cands.len() && dirs.spec_get(cands[k]) is None && d == cands[k] && (forall|j: int|
            0 <= j < k ==> dirs.spec_get(cands[j]) is Some)
}

/// Every candidate is in the catalog.
pub open spec fn all_present(dirs: StrTable, cands: Seq<Seq<char>>) -> bool {
    forall|i: int| 0 <= i < cands.len() ==> dirs.spec_get(cands[i]) is Some
}

/// Resolves each candidate through the catalog, in order, failing fast on
/// the first one missing.
fn resolve_candidates(dirs: &StrTable, cands: &Vec<String>) -> (r: Result<Vec<String>, ConfigError>)
    ensures
        ({
            let cs = seq_views(cands@);
            match r {
                Ok(v) => resolution_ok(*dirs, cs, seq_views(v@)),
                Err(ConfigError::DirectoryNotFound { directory }) => first_missing_is(
                    *dirs,
                    cs,
                    directory@,
                ),
                Err(_) => false,
            }
        }),
        all_present(*dirs, seq_views(cands@)) ==> r is Ok,
{
    let ghost cs = seq_views(cands@);
    let n = cands.len();
    let mut out: Vec<String> = Vec::new();
    let mut i: usize = 0;
    while i < n
        invariant
            0 <= i <= n,
            n == cands@.len(),
            cs == seq_views(cands@),
            out@.len() == i,
            forall|j: int| 0 <= j < i ==> #[trigger] dirs.spec_get(cs[j]) is Some,
            forall|j: int| 0 <= j < i ==> dirs.spec_get(cs[j]) == Some(#[trigger] out@[j]@),
        decreases n - i,
    {
        assert(cs[i as int] == cands@[i as int]@);
        match dirs.get(&cands[i]) {
            Some(resolved) => {
                out.push(resolved);
            },
            None => {
                let directory = cands[i].clone();
                assert(dirs.spec_get(cs[i as int]) is None && directory@ == cs[i as int] && (
                forall|j: int| 0 <= j < i ==> dirs.spec_get(cs[j]) is Some));
                assert(first_missing_is(*dirs, cs, directory@));
                return Err(ConfigError::DirectoryNotFound { directory });
            },
        }
        i += 1;
    }
    assert forall|j: int| 0 <= j < cs.len() implies dirs.spec_get(cs[j]) == Some(
        #[trigger] seq_views(out@)[j],
    ) by {
        assert(seq_views(out@)[j] == out@[j]@);
    }
    Ok(out)
}

impl Config {
    /// Builds the ordered include-directory candidates for this
    /// configuration, given the highest SDK version token.
    pub fn include_path_candidates(&self, sdk_version: &str) -> (r: Vec<String>)
        ensures
            seq_views(r@) == spec_include_candidates(*self, sdk_version@),
    {
        let inc = join(self.wdk_content_root.as_str(), "Include");
        let sdk = join(inc.as_str(), sdk_version);
        let mut out: Vec<String> = Vec::new();
        out.push(join(sdk.as_str(), "km/crt"));
        match &self.driver_config {
            DriverConfig::WDM() => out.push(join(sdk.as_str(), "km")),
            DriverConfig::KMDFConfig(v) => out.push(join(sdk.as_str(), "km")),
            DriverConfig::UMDFConfig(v) => out.push(join(sdk.as_str(), "um")),
        }
        out.push(join(sdk.as_str(), "shared"));
        match &self.driver_config {
            DriverConfig::WDM() => {},
            DriverConfig::KMDFConfig(v) => {
                let mut seg = "wdf/kmdf/".to_owned();
                append_dec(&mut seg, v.kmdf_version_major);
                seg.append(".");
                append_dec(&mut seg, v.kmdf_version_minor);
                assert(seg@ =~= spec_version_dir(
                    "wdf/kmdf/"@,
                    v.kmdf_version_major,
                    v.kmdf_version_minor,
                ));
                out.push(join(inc.as_str(), seg.as_str()));
            },
            DriverConfig::UMDFConfig(v) => {
                let mut seg = "wdf/umdf/".to_owned();
                append_dec(&mut seg, v.umdf_version_major);
                seg.append(".");
                append_dec(&mut seg, v.umdf_version_minor);
                assert(seg@ =~= spec_version_dir(
                    "wdf/umdf/"@,
                    v.umdf_version_major,
                    v.umdf_version_minor,
                ));
                out.push(join(inc.as_str(), seg.as_str()));
            },
        }
        assert(seq_views(out@) =~= spec_include_candidates(*self, sdk_version@));
        out
    }

    /// Builds the ordered library-directory candidates for this
    /// configuration, given the highest SDK version token.
    pub fn library_path_candidates(&self, sdk_version: &str) -> (r: Vec<String>)
        ensures
            seq_views(r@) == spec_library_candidates(*self, sdk_version@),
    {
        let lib = join(self.wdk_content_root.as_str(), "Lib");
        let sdk = join(lib.as_str(), sdk_version);
        let mut out: Vec<String> = Vec::new();
        let mut mode = match &self.driver_config {
            DriverConfig::WDM() => "km/".to_owned(),
            DriverConfig::KMDFConfig(v) => "km/".to_owned(),
            DriverConfig::UMDFConfig(v) => "um/".to_owned(),
        };
        mode.append(self.cpu_architecture.to_windows_str());
        out.push(join(sdk.as_str(), mode.as_str()));
        match &self.driver_config {
            DriverConfig::WDM() => {},
            DriverConfig::KMDFConfig(v) => {
                let mut seg = "wdf/kmdf/".to_owned();
                seg.append(self.cpu_architecture.to_windows_str());
                seg.append("/");
                append_dec(&mut seg, v.kmdf_version_major);
                seg.append(".");
                append_dec(&mut seg, v.kmdf_version_minor);
                assert(seg@ =~= spec_version_arch_dir(
                    "wdf/kmdf/"@,
                    self.cpu_architecture,
                    v.kmdf_version_major,
                    v.kmdf_version_minor,
                ));
                out.push(join(lib.as_str(), seg.as_str()));
            },
            DriverConfig::UMDFConfig(v) => {
                let mut seg = "wdf/umdf/".to_owned();
                seg.append(self.cpu_architecture.to_windows_str());
                seg.append("/");
                append_dec(&mut seg, v.umdf_version_major);
                seg.append(".");
                append_dec(&mut seg, v.umdf_version_minor);
                assert(seg@ =~= spec_version_arch_dir(
                    "wdf/umdf/"@,
                    self.cpu_architecture,
                    v.umdf_version_major,
                    v.umdf_version_minor,
                ));
                out.push(join(lib.as_str(), seg.as_str()));
            },
        }
        assert(seq_views(out@) =~= spec_library_candidates(*self, sdk_version@));
        out
    }

    /// Resolves the include directories this configuration requires, in
    /// order, against the directory catalog.  Fails with the first candidate
    /// the catalog does not know, even if later candidates are missing too.
    pub fn get_include_paths(&self, dirs: &StrTable, sdk_version: &str) -> (r: Result<
        Vec<String>,
        ConfigError,
    >)
        ensures
            ({
                let cs = spec_include_candidates(*self, sdk_version@);
                match r {
                    Ok(v) => resolution_ok(*dirs, cs, seq_views(v@)),
                    Err(ConfigError::DirectoryNotFound { directory }) => first_missing_is(
                        *dirs,
                        cs,
                        directory@,
                    ),
                    Err(_) => false,
                }
            }),
            all_present(*dirs, spec_include_candidates(*self, sdk_version@)) ==> r is Ok,
    {
        let cands = self.include_path_candidates(sdk_version);
        resolve_candidates(dirs, &cands)
    }

    /// Resolves the library directories this configuration requires, in
    /// order, against the directory catalog.  Fails with the first candidate
    /// the catalog does not know, even if later candidates are missing too.
    pub fn get_library_paths(&self, dirs: &StrTable, sdk_version: &str) -> (r: Result<
        Vec<String>,
        ConfigError,
    >)
        ensures
            ({
                let cs = spec_library_candidates(*self, sdk_version@);
                match r {
                    Ok(v) => resolution_ok(*dirs, cs, seq_views(v@)),
                    Err(ConfigError::DirectoryNotFound { directory }) => first_missing_is(
                        *dirs,
                        cs,
                        directory@,
                    ),
                    Err(_) => false,
                }
            }),
            all_present(*dirs, spec_library_candidates(*self, sdk_version@)) ==> r is Ok,
    {
        let cands = self.library_path_candidates(sdk_version);
        resolve_candidates(dirs, &cands)
    }
}

} // verus!
