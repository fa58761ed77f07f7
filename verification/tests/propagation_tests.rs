use wdk_build::config::CPUArchitecture;
use wdk_build::config::Config;
use wdk_build::config::DriverConfig;
use wdk_build::config::KMDFConfig;
use wdk_build::config::UMDFConfig;
use wdk_build::errors::ConfigFromEnvError;
use wdk_build::errors::ExportError;
use wdk_build::propagation::dep_key;
use wdk_build::record::deserialize_config;
use wdk_build::record::serialize_config;
use wdk_build::table::StrTable;

fn kmdf_config() -> Config {
    Config {
        wdk_content_root: "C:/Program Files (x86)/Windows Kits/10".to_string(),
        driver_config: DriverConfig::KMDFConfig(KMDFConfig {
            kmdf_version_major: 1,
            kmdf_version_minor: 33,
        }),
        cpu_architecture: CPUArchitecture::AMD64,
    }
}

#[test]
fn record_text_is_exact() {
    let c = Config {
        wdk_content_root: "C:/wdk".to_string(),
        driver_config: DriverConfig::KMDFConfig(KMDFConfig {
            kmdf_version_major: 1,
            kmdf_version_minor: 33,
        }),
        cpu_architecture: CPUArchitecture::AMD64,
    };
    assert_eq!(serialize_config(&c), "wdk-config/AMD64/KMDF-001.033/C:/wdk");

    let wdm = Config {
        wdk_content_root: "C:/wdk".to_string(),
        driver_config: DriverConfig::WDM(),
        cpu_architecture: CPUArchitecture::ARM64,
    };
    assert_eq!(serialize_config(&wdm), "wdk-config/ARM64/WDM/C:/wdk");

    let umdf = Config {
        wdk_content_root: "".to_string(),
        driver_config: DriverConfig::UMDFConfig(UMDFConfig {
            umdf_version_major: 2,
            umdf_version_minor: 15,
        }),
        cpu_architecture: CPUArchitecture::AMD64,
    };
    assert_eq!(serialize_config(&umdf), "wdk-config/AMD64/UMDF-002.015/");
}

#[test]
fn record_round_trips() {
    let roots = [
        "C:/wdk",
        "",
        "a root with spaces/and/slashes",
        "C:\\wdk\\10",
        "wdk-config/ARM64/WDM/a root that looks like a record",
    ];
    let kinds = [
        DriverConfig::WDM(),
        DriverConfig::KMDFConfig(KMDFConfig {
            kmdf_version_major: 1,
            kmdf_version_minor: 33,
        }),
        DriverConfig::UMDFConfig(UMDFConfig {
            umdf_version_major: 2,
            umdf_version_minor: 0,
        }),
    ];
    let archs = [CPUArchitecture::AMD64, CPUArchitecture::ARM64];
    for root in roots {
        for kind in kinds {
            for arch in archs {
                let c = Config {
                    wdk_content_root: root.to_string(),
                    driver_config: kind,
                    cpu_architecture: arch,
                };
                let record = serialize_config(&c);
                let back = deserialize_config(record.as_str()).expect("a record parses");
                assert!(back == c);
            }
        }
    }
}

#[test]
fn malformed_records_are_refused() {
    let bad = [
        "",
        "garbage",
        "wdk-config/",
        "wdk-config/X86/WDM/C:/wdk",
        "wdk-config/AMD64/",
        "wdk-config/AMD64/WDF/C:/wdk",
        "wdk-config/AMD64/KMDF-1.33/C:/wdk",
        "wdk-config/AMD64/KMDF-001033/C:/wdk",
        "wdk-config/AMD64/KMDF-001.33/C:/wdk",
        "wdk-config/AMD64/KMDF-300.001/C:/wdk",
        "wdk-config/AMD64/KMDF-001.033",
        "wdk-config/amd64/WDM/C:/wdk",
    ];
    for s in bad {
        assert!(deserialize_config(s).is_none(), "{s:?} must be refused");
    }
}

#[test]
fn dep_key_is_namespaced_and_uppercased() {
    assert_eq!(dep_key("my-driver"), "DEP_MY-DRIVER_WDK_CONFIG");
    assert_eq!(dep_key("wdk"), "DEP_WDK_WDK_CONFIG");
    assert_eq!(dep_key("wdk-sys"), "DEP_WDK-SYS_WDK_CONFIG");
    assert_eq!(dep_key("Already_UP42"), "DEP_ALREADY_UP42_WDK_CONFIG");
}

#[test]
fn publish_then_keyed_recovery_round_trips() {
    let c = kmdf_config();
    let mut env = StrTable::new();
    env.set(
        "CARGO_MANIFEST_LINKS".to_string(),
        "my-driver".to_string(),
    );
    let line = c.export_config(&mut env).expect("a links value is declared");
    assert_eq!(
        line,
        format!("cargo:wdk_config={}", serialize_config(&c))
    );
    let recovered = Config::from_env("my-driver", &env).expect("the published entry is present");
    assert!(recovered == c);

    // The link name is upper-cased into the key, so its spelling at the
    // recovery site does not matter.
    let recovered_upper =
        Config::from_env("My-Driver", &env).expect("the key derivation upper-cases");
    assert!(recovered_upper == c);
}

#[test]
fn export_without_links_value_fails() {
    let c = kmdf_config();
    let mut env = StrTable::new();
    let r = c.export_config(&mut env);
    assert!(matches!(r, Err(ExportError::MissingLinksValue)));
}

#[test]
fn keyed_recovery_of_absent_entry_fails() {
    let env = StrTable::new();
    match Config::from_env("my-driver", &env) {
        Err(ConfigFromEnvError::EnvError { key }) => {
            assert_eq!(key, "DEP_MY-DRIVER_WDK_CONFIG");
        }
        other => panic!("expected a missing-entry error, got {other:?}"),
    }
}

#[test]
fn keyed_recovery_of_malformed_entry_fails() {
    let mut env = StrTable::new();
    env.set(
        "DEP_MY-DRIVER_WDK_CONFIG".to_string(),
        "not a record".to_string(),
    );
    let r = Config::from_env("my-driver", &env);
    assert!(matches!(r, Err(ConfigFromEnvError::DeserializeError)));
}

#[test]
fn auto_recovery_with_both_sources_equal() {
    let c = kmdf_config();
    let mut env = StrTable::new();
    env.set("DEP_WDK_WDK_CONFIG".to_string(), serialize_config(&c));
    env.set("DEP_WDK-SYS_WDK_CONFIG".to_string(), serialize_config(&c));
    let r = Config::from_env_auto(&env).expect("equal sources agree");
    assert!(r == c);
}

#[test]
fn auto_recovery_with_differing_sources_is_a_mismatch() {
    let c1 = kmdf_config();
    let c2 = Config {
        cpu_architecture: CPUArchitecture::ARM64,
        ..kmdf_config()
    };
    let mut env = StrTable::new();
    env.set("DEP_WDK_WDK_CONFIG".to_string(), serialize_config(&c1));
    env.set("DEP_WDK-SYS_WDK_CONFIG".to_string(), serialize_config(&c2));
    match Config::from_env_auto(&env) {
        Err(ConfigFromEnvError::ConfigMismatch {
            config_1,
            config_1_source,
            config_2,
            config_2_source,
        }) => {
            assert!(config_1 == c1);
            assert_eq!(config_1_source, "DEP_WDK_WDK_CONFIG");
            assert!(config_2 == c2);
            assert_eq!(config_2_source, "DEP_WDK-SYS_WDK_CONFIG");
        }
        other => panic!("expected a mismatch, got {other:?}"),
    }
}

#[test]
fn auto_recovery_is_symmetric_in_the_present_source() {
    let c = kmdf_config();

    let mut env_first = StrTable::new();
    env_first.set("DEP_WDK_WDK_CONFIG".to_string(), serialize_config(&c));
    let from_first = Config::from_env_auto(&env_first).expect("one source is enough");

    let mut env_second = StrTable::new();
    env_second.set("DEP_WDK-SYS_WDK_CONFIG".to_string(), serialize_config(&c));
    let from_second = Config::from_env_auto(&env_second).expect("one source is enough");

    assert!(from_first == c);
    assert!(from_second == c);
    assert!(from_first == from_second);
}

#[test]
fn auto_recovery_with_no_source_fails() {
    let env = StrTable::new();
    let r = Config::from_env_auto(&env);
    assert!(matches!(r, Err(ConfigFromEnvError::ConfigNotFound)));
}

#[test]
fn auto_recovery_with_malformed_source_fails_immediately() {
    let c = kmdf_config();

    let mut env = StrTable::new();
    env.set("DEP_WDK_WDK_CONFIG".to_string(), "not a record".to_string());
    env.set("DEP_WDK-SYS_WDK_CONFIG".to_string(), serialize_config(&c));
    let r = Config::from_env_auto(&env);
    assert!(matches!(r, Err(ConfigFromEnvError::DeserializeError)));

    let mut env_single = StrTable::new();
    env_single.set("DEP_WDK-SYS_WDK_CONFIG".to_string(), "{}".to_string());
    let r = Config::from_env_auto(&env_single);
    assert!(matches!(r, Err(ConfigFromEnvError::DeserializeError)));
}
