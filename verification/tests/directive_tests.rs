use wdk_build::config::CPUArchitecture;
use wdk_build::config::Config;
use wdk_build::config::DriverConfig;
use wdk_build::config::KMDFConfig;
use wdk_build::config::UMDFConfig;
use wdk_build::errors::ConfigError;
use wdk_build::table::StrTable;

const SDK: &str = "10.0.22621.0";

fn config_with(kind: DriverConfig) -> Config {
    Config {
        wdk_content_root: "C:/wdk".to_string(),
        driver_config: kind,
        cpu_architecture: CPUArchitecture::AMD64,
    }
}

fn full_catalog(c: &Config) -> StrTable {
    let mut dirs = StrTable::new();
    for p in c.library_path_candidates(SDK) {
        dirs.set(p.clone(), p);
    }
    dirs
}

const BASELINE: [&str; 7] = [
    "cargo:rustc-cdylib-link-arg=/NXCOMPAT",
    "cargo:rustc-cdylib-link-arg=/DYNAMICBASE",
    "cargo:rustc-cdylib-link-arg=/MAP",
    "cargo:rustc-cdylib-link-arg=/MAPINFO:EXPORTS",
    "cargo:rustc-cdylib-link-arg=/OPT:REF,ICF",
    "cargo:rustc-cdylib-link-arg=/INTEGRITYCHECK",
    "cargo:rustc-cdylib-link-arg=/MANIFEST:NO",
];

#[test]
fn binary_directives_for_wdm() {
    let c = config_with(DriverConfig::WDM());
    let lines = c.configure_binary_build();
    let mut expected: Vec<String> = BASELINE.iter().map(|s| s.to_string()).collect();
    expected.extend([
        "cargo:rustc-cdylib-link-arg=/DRIVER".to_string(),
        "cargo:rustc-cdylib-link-arg=/NODEFAULTLIB".to_string(),
        "cargo:rustc-cdylib-link-arg=/SUBSYSTEM:NATIVE".to_string(),
        "cargo:rustc-cdylib-link-arg=/KERNEL".to_string(),
        "cargo:rustc-cdylib-link-arg=/ENTRY:DriverEntry".to_string(),
    ]);
    assert_eq!(lines, expected);
    assert!(!lines.contains(&"cargo:rustc-cdylib-link-arg=/SUBSYSTEM:WINDOWS".to_string()));
}

#[test]
fn binary_directives_for_kmdf_differ_only_in_the_entry_point() {
    let wdm = config_with(DriverConfig::WDM()).configure_binary_build();
    let kmdf = config_with(DriverConfig::KMDFConfig(KMDFConfig {
        kmdf_version_major: 1,
        kmdf_version_minor: 33,
    }))
    .configure_binary_build();
    assert_eq!(wdm.len(), kmdf.len());
    assert_eq!(wdm[..wdm.len() - 1], kmdf[..kmdf.len() - 1]);
    assert_eq!(wdm[wdm.len() - 1], "cargo:rustc-cdylib-link-arg=/ENTRY:DriverEntry");
    assert_eq!(kmdf[kmdf.len() - 1], "cargo:rustc-cdylib-link-arg=/ENTRY:FxDriverEntry");
}

#[test]
fn binary_directives_for_umdf() {
    let c = config_with(DriverConfig::UMDFConfig(UMDFConfig {
        umdf_version_major: 2,
        umdf_version_minor: 33,
    }));
    let lines = c.configure_binary_build();
    let mut expected: Vec<String> = BASELINE.iter().map(|s| s.to_string()).collect();
    expected.push("cargo:rustc-cdylib-link-arg=/SUBSYSTEM:WINDOWS".to_string());
    assert_eq!(lines, expected);
    assert!(!lines.contains(&"cargo:rustc-cdylib-link-arg=/SUBSYSTEM:NATIVE".to_string()));
    assert!(!lines.contains(&"cargo:rustc-cdylib-link-arg=/KERNEL".to_string()));
}

#[test]
fn library_directives_for_wdm() {
    let c = config_with(DriverConfig::WDM());
    let dirs = full_catalog(&c);
    let lines = c
        .configure_library_build(&dirs, SDK, "release")
        .expect("all directories exist");
    assert_eq!(
        lines,
        vec![
            "cargo:rustc-link-search=C:/wdk/Lib/10.0.22621.0/km/x64".to_string(),
            "cargo:rustc-link-lib=BufferOverflowFastFailK".to_string(),
            "cargo:rustc-link-lib=ntoskrnl".to_string(),
            "cargo:rustc-link-lib=hal".to_string(),
            "cargo:rustc-link-lib=wmilib".to_string(),
        ]
    );
}

#[test]
fn library_directives_for_kmdf_add_the_framework_loader() {
    let c = config_with(DriverConfig::KMDFConfig(KMDFConfig {
        kmdf_version_major: 1,
        kmdf_version_minor: 33,
    }));
    let dirs = full_catalog(&c);
    let lines = c
        .configure_library_build(&dirs, SDK, "debug")
        .expect("all directories exist");
    assert_eq!(
        lines,
        vec![
            "cargo:rustc-link-search=C:/wdk/Lib/10.0.22621.0/km/x64".to_string(),
            "cargo:rustc-link-search=C:/wdk/Lib/wdf/kmdf/x64/1.33".to_string(),
            "cargo:rustc-link-lib=BufferOverflowFastFailK".to_string(),
            "cargo:rustc-link-lib=ntoskrnl".to_string(),
            "cargo:rustc-link-lib=hal".to_string(),
            "cargo:rustc-link-lib=wmilib".to_string(),
            "cargo:rustc-link-lib=WdfLdr".to_string(),
            "cargo:rustc-link-lib=WdfDriverEntry".to_string(),
        ]
    );
}

#[test]
fn library_directives_for_umdf_follow_profile_and_version() {
    let c = config_with(DriverConfig::UMDFConfig(UMDFConfig {
        umdf_version_major: 2,
        umdf_version_minor: 33,
    }));
    let dirs = full_catalog(&c);

    let release = c
        .configure_library_build(&dirs, SDK, "release")
        .expect("all directories exist");
    assert_eq!(
        release,
        vec![
            "cargo:rustc-link-search=C:/wdk/Lib/10.0.22621.0/um/x64".to_string(),
            "cargo:rustc-link-search=C:/wdk/Lib/wdf/umdf/x64/2.33".to_string(),
            "cargo:rustc-link-lib=ucrt".to_string(),
            "cargo:rustc-link-lib=WdfDriverStubUm".to_string(),
            "cargo:rustc-link-lib=ntdll".to_string(),
            "cargo:rustc-link-lib=mincore".to_string(),
        ]
    );

    let debug = c
        .configure_library_build(&dirs, SDK, "debug")
        .expect("all directories exist");
    assert_eq!(debug[2], "cargo:rustc-link-lib=ucrtd");

    let early = config_with(DriverConfig::UMDFConfig(UMDFConfig {
        umdf_version_major: 1,
        umdf_version_minor: 5,
    }));
    let early_dirs = full_catalog(&early);
    let lines = early
        .configure_library_build(&early_dirs, SDK, "release")
        .expect("all directories exist");
    assert_eq!(
        lines,
        vec![
            "cargo:rustc-link-search=C:/wdk/Lib/10.0.22621.0/um/x64".to_string(),
            "cargo:rustc-link-search=C:/wdk/Lib/wdf/umdf/x64/1.5".to_string(),
            "cargo:rustc-link-lib=ucrt".to_string(),
            "cargo:rustc-link-lib=mincore".to_string(),
        ]
    );
}

#[test]
fn library_directives_propagate_missing_directories() {
    let c = config_with(DriverConfig::KMDFConfig(KMDFConfig {
        kmdf_version_major: 1,
        kmdf_version_minor: 33,
    }));
    let dirs = StrTable::new();
    match c.configure_library_build(&dirs, SDK, "release") {
        Err(ConfigError::DirectoryNotFound { directory }) => {
            assert_eq!(directory, "C:/wdk/Lib/10.0.22621.0/km/x64");
        }
        other => panic!("expected a missing directory, got {other:?}"),
    }
}
