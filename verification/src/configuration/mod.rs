pub mod config_map;
pub mod laws;
pub mod resolve_config;
pub mod types;

pub use config_map::{
    ConfigKeyMap, ConfigKeyValue, ConfigurationDiagnostic, GlobalConfiguration, NewLineKind,
    ResolveConfigurationResult,
};
pub use resolve_config::resolve_config;
pub use types::{
    ConfigScalar, Configuration, FixLintErrors, IndentStyle, LineEnding, ParseConfigurationError,
    QuoteStyle,
};
