use wdk_build::config::CPUArchitecture;
use wdk_build::config::Config;
use wdk_build::config::DriverConfig;
use wdk_build::config::KMDFConfig;
use wdk_build::config::UMDFConfig;

#[test]
fn default_options() {
    let wdk_build_options = Config::new("C:/wdk".to_string(), CPUArchitecture::AMD64);

    assert!(matches!(wdk_build_options.driver_config, DriverConfig::WDM()));
    assert_eq!(wdk_build_options.cpu_architecture, CPUArchitecture::AMD64);
}

#[test]
fn wdm_options() {
    let wdk_build_options = Config {
        driver_config: DriverConfig::WDM(),
        ..Config::new("C:/wdk".to_string(), CPUArchitecture::AMD64)
    };

    assert!(matches!(wdk_build_options.driver_config, DriverConfig::WDM()));
    assert_eq!(wdk_build_options.cpu_architecture, CPUArchitecture::AMD64);
}

#[test]
fn default_kmdf_options() {
    let wdk_build_options = Config {
        driver_config: DriverConfig::KMDFConfig(KMDFConfig::new()),
        ..Config::new("C:/wdk".to_string(), CPUArchitecture::AMD64)
    };

    assert!(matches!(
        wdk_build_options.driver_config,
        DriverConfig::KMDFConfig(KMDFConfig {
            kmdf_version_major: 1,
            kmdf_version_minor: 33
        })
    ));
    assert_eq!(wdk_build_options.cpu_architecture, CPUArchitecture::AMD64);
}

#[test]
fn kmdf_options() {
    let wdk_build_options = Config {
        driver_config: DriverConfig::KMDFConfig(KMDFConfig {
            kmdf_version_major: 1,
            kmdf_version_minor: 15,
        }),
        ..Config::new("C:/wdk".to_string(), CPUArchitecture::AMD64)
    };

    assert!(matches!(
        wdk_build_options.driver_config,
        DriverConfig::KMDFConfig(KMDFConfig {
            kmdf_version_major: 1,
            kmdf_version_minor: 15
        })
    ));
    assert_eq!(wdk_build_options.cpu_architecture, CPUArchitecture::AMD64);
}

#[test]
fn default_umdf_options() {
    let wdk_build_options = Config {
        driver_config: DriverConfig::UMDFConfig(UMDFConfig::new()),
        ..Config::new("C:/wdk".to_string(), CPUArchitecture::AMD64)
    };

    assert!(matches!(
        wdk_build_options.driver_config,
        DriverConfig::UMDFConfig(UMDFConfig {
            umdf_version_major: 2,
            umdf_version_minor: 33
        })
    ));
    assert_eq!(wdk_build_options.cpu_architecture, CPUArchitecture::AMD64);
}

#[test]
fn umdf_options() {
    let wdk_build_options = Config {
        driver_config: DriverConfig::UMDFConfig(UMDFConfig {
            umdf_version_major: 2,
            umdf_version_minor: 15,
        }),
        ..Config::new("C:/wdk".to_string(), CPUArchitecture::ARM64)
    };

    assert!(matches!(
        wdk_build_options.driver_config,
        DriverConfig::UMDFConfig(UMDFConfig {
            umdf_version_major: 2,
            umdf_version_minor: 15
        })
    ));
    assert_eq!(wdk_build_options.cpu_architecture, CPUArchitecture::ARM64);
}

#[test]
fn architecture_tokens() {
    assert_eq!(CPUArchitecture::AMD64.to_windows_str(), "x64");
    assert_eq!(CPUArchitecture::ARM64.to_windows_str(), "ARM64");
}

#[test]
fn structural_equality() {
    let a = Config {
        wdk_content_root: "C:/wdk".to_string(),
        driver_config: DriverConfig::KMDFConfig(KMDFConfig::new()),
        cpu_architecture: CPUArchitecture::AMD64,
    };
    let b = a.clone();
    assert!(a == b);

    let differs_in_root = Config {
        wdk_content_root: "D:/wdk".to_string(),
        ..a.clone()
    };
    assert!(a != differs_in_root);

    let differs_in_minor = Config {
        driver_config: DriverConfig::KMDFConfig(KMDFConfig {
            kmdf_version_major: 1,
            kmdf_version_minor: 15,
        }),
        ..a.clone()
    };
    assert!(a != differs_in_minor);

    let differs_in_arch = Config {
        cpu_architecture: CPUArchitecture::ARM64,
        ..a.clone()
    };
    assert!(a != differs_in_arch);
}
