//! Build-configuration resolver and toolchain-directive emitter for native
//! driver binaries.
//!
//! The crate models a driver build's configuration (driver kind, framework
//! version, target CPU architecture), resolves it onto a versioned directory
//! layout, propagates it between build units through a key-value channel, and
//! emits the linker and compiler directives the build orchestrator consumes.

pub mod config;
pub mod directives;
pub mod errors;
pub mod layout;
pub mod propagation;
pub mod record;
pub mod table;
pub mod text;

pub use errors::ConfigError;
pub use errors::ConfigFromEnvError;
pub use errors::ExportError;
pub use table::StrTable;

pub use config::CPUArchitecture;
pub use config::Config;
pub use config::DriverConfig;
pub use config::DriverType;
pub use config::KMDFConfig;
pub use config::UMDFConfig;
