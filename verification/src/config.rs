//! Configuration data: which core plugins are on, parser features, dark mode,
//! and the errors of reading a configuration.
use vstd::prelude::*;

verus! {

/// Core plugins that can be switched on.
pub struct CorePlugins {
    pub preflight: bool,
}

impl CorePlugins {
    pub fn default() -> (r: CorePlugins)
        ensures
            !r.preflight,
    {
        CorePlugins { preflight: false }
    }
}

/// Parser features.
pub struct Features {
    /// Use a lexer to parse candidates.
    pub strict_mode: bool,
}

impl Features {
    pub fn default() -> (r: Features)
        ensures
            !r.strict_mode,
    {
        Features { strict_mode: false }
    }
}

/// General settings.
pub struct Config {
    /// How the `dark:` variant is made, `media` or `selector`.
    pub dark_mode: String,
    pub core_plugins: CorePlugins,
}

impl Config {
    pub fn default() -> (r: Config)
        ensures
            r.dark_mode@.len() == 0,
            !r.core_plugins.preflight,
    {
        Config { dark_mode: String::new(), core_plugins: CorePlugins::default() }
    }
}

/// The dark mode a configuration gets when it names none.
pub fn default_dark_mode() -> (r: String)
    ensures
        r@ == "media"@,
{
    "media".to_owned()
}

/// Why a configuration could not be read.
pub enum ArrowConfigError {
    /// The configuration file could not be read or parsed; the message says why.
    ConfigError(String),
}

impl ArrowConfigError {
    /// The message of the error.
    pub fn message(&self) -> (r: String)
        ensures
            match self {
                ArrowConfigError::ConfigError(m) => r@ == "Failed to read configuration file: "@ + m@,
            },
    {
        match self {
            ArrowConfigError::ConfigError(m) => {
                let mut out = "Failed to read configuration file: ".to_owned();
                crate::text::push_str(&mut out, m.as_str());
                out
            },
        }
    }
}

/// Whether a result was taken from the cache or generated anew.
#[derive(Clone, Copy, Debug, PartialEq, Eq, Structural)]
pub enum ResultKind {
    Cached,
    Generated,
}

} // verus!
