//! The toolchain directive emitter: turns a resolved configuration into the
//! ordered directive lines handed to the build orchestrator — linker search
//! paths and libraries to link for a library build, and linker arguments for
//! a binary build.

use vstd::prelude::*;
use vstd::string::StringExecFns;

use crate::config::Config;
use crate::config::DriverConfig;
use crate::errors::ConfigError;
use crate::layout::all_present;
use crate::layout::first_missing_is;
use crate::layout::resolution_ok;
use crate::layout::seq_views;
use crate::layout::spec_library_candidates;
use crate::table::StrTable;
use crate::text::match_at;
use crate::text::match_lit;

verus! {

/// The canonical resolved form of each candidate, read off the catalog.
pub open spec fn resolved_views(dirs: StrTable, cands: Seq<Seq<char>>) -> Seq<Seq<char>> {
    cands.map_values(|c: Seq<char>| dirs.spec_get(c)->Some_0)
}

/// One linker-search-path directive per resolved library directory, in
/// resolution order.
pub open spec fn spec_link_search_lines(paths: Seq<Seq<char>>) -> Seq<Seq<char>> {
    paths.map_values(|p: Seq<char>| "cargo:rustc-link-search="@ + p)
}

/// The libraries to link for a driver kind, as directive lines.  The four
/// kernel libraries are shared by the kernel-mode kinds, the kernel-mode
/// framework adds its two loader and entry libraries, and the user-mode
/// framework links the C runtime picked by the build profile, its stub and
/// runtime libraries from framework major version 2 on, and the minimal-core
/// library always.
pub open spec fn spec_library_link_lines(k: DriverConfig, profile: Seq<char>) -> Seq<Seq<char>> {
    match k {
        DriverConfig::WDM() => seq![
            "cargo:rustc-link-lib=BufferOverflowFastFailK"@,
            "cargo:rustc-link-lib=ntoskrnl"@,
            "cargo:rustc-link-lib=hal"@,
            "cargo:rustc-link-lib=wmilib"@,
        ],
        DriverConfig::KMDFConfig(v) => seq![
            "cargo:rustc-link-lib=BufferOverflowFastFailK"@,
            "cargo:rustc-link-lib=ntoskrnl"@,
            "cargo:rustc-link-lib=hal"@,
            "cargo:rustc-link-lib=wmilib"@,
            "cargo:rustc-link-lib=WdfLdr"@,
            "cargo:rustc-link-lib=WdfDriverEntry"@,
        ],
        DriverConfig::UMDFConfig(v) => (if profile == "release"@ {
            seq!["cargo:rustc-link-lib=ucrt"@]
        } else {
            seq!["cargo:rustc-link-lib=ucrtd"@]
        }) + (if v.umdf_version_major >= 2 {
            seq!["cargo:rustc-link-lib=WdfDriverStubUm"@, "cargo:rustc-link-lib=ntdll"@]
        } else {
            Seq::<Seq<char>>::empty()
        }) + seq!["cargo:rustc-link-lib=mincore"@],
    }
}

/// The fixed baseline linker arguments of every binary build: no-execute
/// compatibility, address-space randomization, map-file generation with
/// exports, folding optimizations, mandatory integrity checking, and
/// manifest suppression.
pub open spec fn spec_binary_baseline_lines() -> Seq<Seq<char>> {
    seq![
        "cargo:rustc-cdylib-link-arg=/NXCOMPAT"@,
        "cargo:rustc-cdylib-link-arg=/DYNAMICBASE"@,
        "cargo:rustc-cdylib-link-arg=/MAP"@,
        "cargo:rustc-cdylib-link-arg=/MAPINFO:EXPORTS"@,
        "cargo:rustc-cdylib-link-arg=/OPT:REF,ICF"@,
        "cargo:rustc-cdylib-link-arg=/INTEGRITYCHECK"@,
        "cargo:rustc-cdylib-link-arg=/MANIFEST:NO"@,
    ]
}

/// The full binary-build directive sequence of a driver kind: the baseline,
/// then the kind's linkage — native subsystem, no default libraries, kernel
/// flag and the kind's entry point for the kernel-mode kinds; the windowed
/// subsystem and no entry-point override for the user-mode kind.
pub open spec fn spec_binary_lines(k: DriverConfig) -> Seq<Seq<char>> {
    spec_binary_baseline_lines() + match k {
        DriverConfig::WDM() => seq![
            "cargo:rustc-cdylib-link-arg=/DRIVER"@,
            "cargo:rustc-cdylib-link-arg=/NODEFAULTLIB"@,
            "cargo:rustc-cdylib-link-arg=/SUBSYSTEM:NATIVE"@,
            "cargo:rustc-cdylib-link-arg=/KERNEL"@,
            "cargo:rustc-cdylib-link-arg=/ENTRY:DriverEntry"@,
        ],
        DriverConfig::KMDFConfig(v) => seq![
            "cargo:rustc-cdylib-link-arg=/DRIVER"@,
            "cargo:rustc-cdylib-link-arg=/NODEFAULTLIB"@,
            "cargo:rustc-cdylib-link-arg=/SUBSYSTEM:NATIVE"@,
            "cargo:rustc-cdylib-link-arg=/KERNEL"@,
            "cargo:rustc-cdylib-link-arg=/ENTRY:FxDriverEntry"@,
        ],
        DriverConfig::UMDFConfig(v) => seq!["cargo:rustc-cdylib-link-arg=/SUBSYSTEM:WINDOWS"@],
    }
}

impl Config {
    /// Emits the directives of a library build: one linker-search-path line
    /// per resolved library directory, in order, then the libraries to link
    /// for this driver kind.  The build profile must be one of the two
    /// values the invoking build system is contracted to supply.  Fails with
    /// the first library directory the catalog does not know.
    pub fn configure_library_build(
        &self,
        dirs: &StrTable,
        sdk_version: &str,
        profile: &str,
    ) -> (r: Result<Vec<String>, ConfigError>)
        requires
            profile@ == "release"@ || profile@ == "debug"@,
        ensures
            ({
                let cs = spec_library_candidates(*self, sdk_version@);
                match r {
                    Ok(lines) => seq_views(lines@) == spec_link_search_lines(
                        resolved_views(*dirs, cs),
                    ) + spec_library_link_lines(self.driver_config, profile@),
                    Err(ConfigError::DirectoryNotFound { directory }) => first_missing_is(
                        *dirs,
                        cs,
                        directory@,
                    ),
                    Err(_) => false,
                }
            }),
            all_present(*dirs, spec_library_candidates(*self, sdk_version@)) ==> r is Ok,
    {
        let ghost cs = spec_library_candidates(*self, sdk_version@);
        let paths = match self.get_library_paths(dirs, sdk_version) {
            Ok(paths) => paths,
            Err(e) => {
                return Err(e);
            },
        };
        assert(resolution_ok(*dirs, cs, seq_views(paths@)));
        let mut lines: Vec<String> = Vec::new();
        let n = paths.len();
        let mut i: usize = 0;
        while i < n
            invariant
                0 <= i <= n,
                n == paths@.len(),
                lines@.len() == i,
                forall|j: int|
                    0 <= j < i ==> (#[trigger] lines@[j])@ == "cargo:rustc-link-search="@
                        + paths@[j]@,
            decreases n - i,
        {
            let mut l = "cargo:rustc-link-search=".to_owned();
            l.append(paths[i].as_str());
            lines.push(l);
            i += 1;
        }
        let ghost search_only = lines@;
        let is_release = match_lit(profile, 0, "release");
        proof {
            reveal_strlit("release");
            reveal_strlit("debug");
            if profile@ == "release"@ {
                assert(profile@.subrange(0, 7) =~= profile@);
            } else {
                assert(!match_at(profile@, 0, "release"@));
            }
            assert(is_release <==> profile@ == "release"@);
        }
        match &self.driver_config {
            DriverConfig::WDM() => {
                lines.push("cargo:rustc-link-lib=BufferOverflowFastFailK".to_owned());
                lines.push("cargo:rustc-link-lib=ntoskrnl".to_owned());
                lines.push("cargo:rustc-link-lib=hal".to_owned());
                lines.push("cargo:rustc-link-lib=wmilib".to_owned());
            },
            DriverConfig::KMDFConfig(v) => {
                lines.push("cargo:rustc-link-lib=BufferOverflowFastFailK".to_owned());
                lines.push("cargo:rustc-link-lib=ntoskrnl".to_owned());
                lines.push("cargo:rustc-link-lib=hal".to_owned());
                lines.push("cargo:rustc-link-lib=wmilib".to_owned());
                lines.push("cargo:rustc-link-lib=WdfLdr".to_owned());
                lines.push("cargo:rustc-link-lib=WdfDriverEntry".to_owned());
            },
            DriverConfig::UMDFConfig(v) => {
                if is_release {
                    lines.push("cargo:rustc-link-lib=ucrt".to_owned());
                } else {
                    lines.push("cargo:rustc-link-lib=ucrtd".to_owned());
                }
                if v.umdf_version_major >= 2 {
                    lines.push("cargo:rustc-link-lib=WdfDriverStubUm".to_owned());
                    lines.push("cargo:rustc-link-lib=ntdll".to_owned());
                }
                lines.push("cargo:rustc-link-lib=mincore".to_owned());
            },
        }
        proof {
            assert forall|j: int| 0 <= j < cs.len() implies #[trigger] resolved_views(*dirs, cs)[j]
                == paths@[j]@ by {
                assert(dirs.spec_get(cs[j]) == Some(seq_views(paths@)[j]));
                assert(seq_views(paths@)[j] == paths@[j]@);
            }
            assert forall|j: int| 0 <= j < search_only.len() implies #[trigger] seq_views(
                lines@,
            )[j] == spec_link_search_lines(resolved_views(*dirs, cs))[j] by {
                assert(seq_views(lines@)[j] == lines@[j]@);
                assert(spec_link_search_lines(resolved_views(*dirs, cs))[j]
                    == "cargo:rustc-link-search="@ + resolved_views(*dirs, cs)[j]);
            }
            assert(seq_views(lines@) =~= spec_link_search_lines(resolved_views(*dirs, cs))
                + spec_library_link_lines(self.driver_config, profile@));
        }
        Ok(lines)
    }

    /// Emits the directives of a binary build for this configuration.  The
    /// sequence is fixed by the driver kind alone: the hardening and
    /// link-metadata baseline, then the kind's subsystem, library and
    /// entry-point linkage.  This operation touches no directory and cannot
    /// fail.
    pub fn configure_binary_build(&self) -> (r: Vec<String>)
        ensures
            seq_views(r@) == spec_binary_lines(self.driver_config),
    {
        let mut lines: Vec<String> = Vec::new();
        lines.push("cargo:rustc-cdylib-link-arg=/NXCOMPAT".to_owned());
        lines.push("cargo:rustc-cdylib-link-arg=/DYNAMICBASE".to_owned());
        lines.push("cargo:rustc-cdylib-link-arg=/MAP".to_owned());
        lines.push("cargo:rustc-cdylib-link-arg=/MAPINFO:EXPORTS".to_owned());
        lines.push("cargo:rustc-cdylib-link-arg=/OPT:REF,ICF".to_owned());
        lines.push("cargo:rustc-cdylib-link-arg=/INTEGRITYCHECK".to_owned());
        lines.push("cargo:rustc-cdylib-link-arg=/MANIFEST:NO".to_owned());
        match &self.driver_config {
            DriverConfig::WDM() => {
                lines.push("cargo:rustc-cdylib-link-arg=/DRIVER".to_owned());
                lines.push("cargo:rustc-cdylib-link-arg=/NODEFAULTLIB".to_owned());
                lines.push("cargo:rustc-cdylib-link-arg=/SUBSYSTEM:NATIVE".to_owned());
                lines.push("cargo:rustc-cdylib-link-arg=/KERNEL".to_owned());
                lines.push("cargo:rustc-cdylib-link-arg=/ENTRY:DriverEntry".to_owned());
            },
            DriverConfig::KMDFConfig(v) => {
                lines.push("cargo:rustc-cdylib-link-arg=/DRIVER".to_owned());
                lines.push("cargo:rustc-cdylib-link-arg=/NODEFAULTLIB".to_owned());
                lines.push("cargo:rustc-cdylib-link-arg=/SUBSYSTEM:NATIVE".to_owned());
                lines.push("cargo:rustc-cdylib-link-arg=/KERNEL".to_owned());
                lines.push("cargo:rustc-cdylib-link-arg=/ENTRY:FxDriverEntry".to_owned());
            },
            DriverConfig::UMDFConfig(v) => {
                lines.push("cargo:rustc-cdylib-link-arg=/SUBSYSTEM:WINDOWS".to_owned());
            },
        }
        assert(seq_views(lines@) =~= spec_binary_lines(self.driver_config));
        lines
    }
}

/// The binary-build directives select the subsystem by driver kind: both
/// kernel-mode kinds always carry the native-subsystem and kernel-flag
/// directives and never the windowed-subsystem directive, and the user-mode
/// kind carries the windowed-subsystem directive and neither kernel-mode
/// directive.
pub proof fn lemma_binary_directives_subsystem(k: DriverConfig)
    ensures
        (k matches DriverConfig::WDM() || k matches DriverConfig::KMDFConfig(_)) ==> {
            &&& spec_binary_lines(k).contains("cargo:rustc-cdylib-link-arg=/SUBSYSTEM:NATIVE"@)
            &&& spec_binary_lines(k).contains("cargo:rustc-cdylib-link-arg=/KERNEL"@)
            &&& !spec_binary_lines(k).contains("cargo:rustc-cdylib-link-arg=/SUBSYSTEM:WINDOWS"@)
        },
        k matches DriverConfig::UMDFConfig(_) ==> {
            &&& spec_binary_lines(k).contains("cargo:rustc-cdylib-link-arg=/SUBSYSTEM:WINDOWS"@)
            &&& !spec_binary_lines(k).contains("cargo:rustc-cdylib-link-arg=/SUBSYSTEM:NATIVE"@)
            &&& !spec_binary_lines(k).contains("cargo:rustc-cdylib-link-arg=/KERNEL"@)
        },
{
    reveal_strlit("cargo:rustc-cdylib-link-arg=/NXCOMPAT");
    reveal_strlit("cargo:rustc-cdylib-link-arg=/DYNAMICBASE");
    reveal_strlit("cargo:rustc-cdylib-link-arg=/MAP");
    reveal_strlit("cargo:rustc-cdylib-link-arg=/MAPINFO:EXPORTS");
    reveal_strlit("cargo:rustc-cdylib-link-arg=/OPT:REF,ICF");
    reveal_strlit("cargo:rustc-cdylib-link-arg=/INTEGRITYCHECK");
    reveal_strlit("cargo:rustc-cdylib-link-arg=/MANIFEST:NO");
    reveal_strlit("cargo:rustc-cdylib-link-arg=/DRIVER");
    reveal_strlit("cargo:rustc-cdylib-link-arg=/NODEFAULTLIB");
    reveal_strlit("cargo:rustc-cdylib-link-arg=/SUBSYSTEM:NATIVE");
    reveal_strlit("cargo:rustc-cdylib-link-arg=/KERNEL");
    reveal_strlit("cargo:rustc-cdylib-link-arg=/ENTRY:DriverEntry");
    reveal_strlit("cargo:rustc-cdylib-link-arg=/ENTRY:FxDriverEntry");
    reveal_strlit("cargo:rustc-cdylib-link-arg=/SUBSYSTEM:WINDOWS");
    let native = "cargo:rustc-cdylib-link-arg=/SUBSYSTEM:NATIVE"@;
    let windowed = "cargo:rustc-cdylib-link-arg=/SUBSYSTEM:WINDOWS"@;
    let kernel = "cargo:rustc-cdylib-link-arg=/KERNEL"@;
    let base = spec_binary_baseline_lines();
    // Every line other than the subsystem lines themselves differs from them
    // in length, except the kernel entry-point line, which has the windowed
    // line's length and differs in the entry point's first letter.
    assert("cargo:rustc-cdylib-link-arg=/NXCOMPAT"@.len() == 37);
    assert("cargo:rustc-cdylib-link-arg=/DYNAMICBASE"@.len() == 40);
    assert("cargo:rustc-cdylib-link-arg=/MAP"@.len() == 32);
    assert("cargo:rustc-cdylib-link-arg=/MAPINFO:EXPORTS"@.len() == 44);
    assert("cargo:rustc-cdylib-link-arg=/OPT:REF,ICF"@.len() == 40);
    assert("cargo:rustc-cdylib-link-arg=/INTEGRITYCHECK"@.len() == 43);
    assert("cargo:rustc-cdylib-link-arg=/MANIFEST:NO"@.len() == 40);
    assert("cargo:rustc-cdylib-link-arg=/DRIVER"@.len() == 35);
    assert("cargo:rustc-cdylib-link-arg=/NODEFAULTLIB"@.len() == 41);
    assert("cargo:rustc-cdylib-link-arg=/SUBSYSTEM:NATIVE"@.len() == 45);
    assert("cargo:rustc-cdylib-link-arg=/KERNEL"@.len() == 35);
    assert("cargo:rustc-cdylib-link-arg=/ENTRY:DriverEntry"@.len() == 46);
    assert("cargo:rustc-cdylib-link-arg=/ENTRY:FxDriverEntry"@.len() == 48);
    assert("cargo:rustc-cdylib-link-arg=/SUBSYSTEM:WINDOWS"@.len() == 46);
    assert(base[0] != windowed && base[1] != windowed && base[2] != windowed && base[3] != windowed
        && base[4] != windowed && base[5] != windowed && base[6] != windowed);
    assert(base[0] != native && base[1] != native && base[2] != native && base[3] != native
        && base[4] != native && base[5] != native && base[6] != native);
    assert(base[0] != kernel && base[1] != kernel && base[2] != kernel && base[3] != kernel
        && base[4] != kernel && base[5] != kernel && base[6] != kernel);
    let driver = "cargo:rustc-cdylib-link-arg=/DRIVER"@;
    let nodefault = "cargo:rustc-cdylib-link-arg=/NODEFAULTLIB"@;
    let entry_wdm = "cargo:rustc-cdylib-link-arg=/ENTRY:DriverEntry"@;
    let entry_kmdf = "cargo:rustc-cdylib-link-arg=/ENTRY:FxDriverEntry"@;
    assert(entry_wdm[29] != windowed[29]);
    assert(driver != windowed && nodefault != windowed && native != windowed && kernel != windowed
        && entry_wdm != windowed && entry_kmdf != windowed);
    assert(windowed != native && windowed != kernel);
    let lines = spec_binary_lines(k);
    match k {
        DriverConfig::WDM() => {
            assert(lines[9] == native && lines[10] == kernel);
            assert(lines.len() == 12);
            assert forall|i: int| 0 <= i < lines.len() implies lines[i] != windowed by {
                if i < 7 {
                    assert(lines[i] == base[i]);
                } else {
                    assert(lines[i] == seq![driver, nodefault, native, kernel, entry_wdm][i - 7]);
                }
            }
        },
        DriverConfig::KMDFConfig(v) => {
            assert(lines[9] == native && lines[10] == kernel);
            assert(lines.len() == 12);
            assert forall|i: int| 0 <= i < lines.len() implies lines[i] != windowed by {
                if i < 7 {
                    assert(lines[i] == base[i]);
                } else {
                    assert(lines[i] == seq![driver, nodefault, native, kernel, entry_kmdf][i - 7]);
                }
            }
        },
        DriverConfig::UMDFConfig(v) => {
            assert(lines[7] == windowed);
            assert(lines.len() == 8);
            assert forall|i: int| 0 <= i < lines.len() implies lines[i] != native && lines[i]
                != kernel by {
                if i < 7 {
                    assert(lines[i] == base[i]);
                } else {
                    assert(lines[i] == windowed);
                }
            }
        },
    }
}

} // verus!
