//! Typed errors of the configuration protocol and the directory resolver.

use vstd::prelude::*;

use crate::config::Config;

verus! {

/// Failure of recovering a configuration from the propagation channel.
#[derive(Debug)]
pub enum ConfigFromEnvError {
    /// The channel has no entry under the key that was asked for.
    EnvError { key: String },
    /// The channel entry is present but is not the record of any
    /// configuration.
    DeserializeError,
    /// Two upstream sources published valid configurations that disagree.
    /// Carries both configurations and the channel keys they came from.
    ConfigMismatch {
        config_1: Config,
        config_1_source: String,
        config_2: Config,
        config_2_source: String,
    },
    /// Neither of the expected upstream sources published a configuration.
    ConfigNotFound,
}

/// Failure of publishing a configuration for downstream builds.
#[derive(Debug)]
pub enum ExportError {
    /// The publishing build unit declared no link-name, so nothing can be
    /// namespaced for its dependents.
    MissingLinksValue,
}

/// Failure of resolving or emitting for a configuration.
#[derive(Debug)]
pub enum ConfigError {
    /// A required directory of the resolved layout does not exist.  Carries
    /// the first missing directory in resolution order.
    DirectoryNotFound { directory: String },
    ConfigFromEnvError(ConfigFromEnvError),
    ExportError(ExportError),
}

} // verus!
