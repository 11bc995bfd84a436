//! The settings of the tool: their defaults, where they are kept, and what
//! happens when they cannot be loaded.

use std::path::PathBuf;
use vstd::prelude::*;
use vstd::string::StringExecFns;

verus! {

/// A sampling temperature, kept as the bit pattern of a single-precision
/// IEEE 754 number so that it can be compared and carried without rounding.
#[derive(Clone, Copy, Debug, PartialEq, Eq, Structural)]
pub struct Temperature {
    pub bits: u32,
}

/// The bit pattern of the number two.
pub const TEMPERATURE_MAX_BITS: u32 = 0x4000_0000;

/// The bit pattern of negative zero.
pub const TEMPERATURE_NEGATIVE_ZERO_BITS: u32 = 0x8000_0000;

/// The bit pattern of the default temperature, seven tenths.
pub const DEFAULT_TEMPERATURE_BITS: u32 = 0x3f33_3333;

/// The default cap on generated tokens.
pub const DEFAULT_MAX_TOKENS: u32 = 300;

impl Temperature {
    /// Whether the number lies between zero and two, both included. Among the
    /// patterns of numbers that are not negative, order by pattern is order by
    /// value, and every pattern above that of infinity is not a number.
    pub open spec fn in_range(self) -> bool {
        self.bits <= TEMPERATURE_MAX_BITS || self.bits == TEMPERATURE_NEGATIVE_ZERO_BITS
    }

    /// Decides `in_range`.
    pub fn is_in_range(&self) -> (r: bool)
        ensures
            r == self.in_range(),
    {
        self.bits <= TEMPERATURE_MAX_BITS || self.bits == TEMPERATURE_NEGATIVE_ZERO_BITS
    }
}

/// The settings of the completion endpoint.
#[derive(Clone, Debug, PartialEq, Eq)]
pub struct OpenAIConfig {
    pub api_key: Option<String>,
    pub model: String,
    pub temperature: Temperature,
    pub max_tokens: u32,
    pub system_prompt: String,
}

/// The mathematical value of an `OpenAIConfig`.
pub struct OpenAIConfigView {
    pub api_key: Option<Seq<char>>,
    pub model: Seq<char>,
    pub temperature: Temperature,
    pub max_tokens: u32,
    pub system_prompt: Seq<char>,
}

impl View for OpenAIConfig {
    type V = OpenAIConfigView;

    open spec fn view(&self) -> OpenAIConfigView {
        OpenAIConfigView {
            api_key: self.api_key.deep_view(),
            model: self.model@,
            temperature: self.temperature,
            max_tokens: self.max_tokens,
            system_prompt: self.system_prompt@,
        }
    }
}

/// All settings.
#[derive(Clone, Debug, PartialEq, Eq)]
pub struct Config {
    pub openai: OpenAIConfig,
}

/// The mathematical value of a `Config`.
pub struct ConfigView {
    pub openai: OpenAIConfigView,
}

impl View for Config {
    type V = ConfigView;

    open spec fn view(&self) -> ConfigView {
        ConfigView { openai: self.openai@ }
    }
}

impl ConfigView {
    /// Whether the settings are usable: a temperature between zero and two
    /// and a positive cap on tokens.
    pub open spec fn well_formed(self) -> bool {
        self.openai.temperature.in_range() && self.openai.max_tokens > 0
    }
}

/// The model asked for by default.
pub open spec fn default_model() -> Seq<char> {
    "gpt-3.5-turbo"@
}

/// The instructions given to the model by default.
pub open spec fn default_system_prompt() -> Seq<char> {
    "You are a helpful assistant who writes concise, professional Git commit messages. Given code changes, write a commit message with a clear single-line summary followed by a more detailed description in Markdown that explains what was changed and why."@
}

/// The settings of a first run.
pub open spec fn default_config() -> ConfigView {
    ConfigView {
        openai: OpenAIConfigView {
            api_key: None,
            model: default_model(),
            temperature: Temperature { bits: DEFAULT_TEMPERATURE_BITS },
            max_tokens: DEFAULT_MAX_TOKENS,
            system_prompt: default_system_prompt(),
        },
    }
}

impl Default for Config {
    fn default() -> (r: Self)
        ensures
            r@ == default_config(),
            r@.well_formed(),
    {
        Config {
            openai: OpenAIConfig {
                api_key: None,
                model: String::from_str("gpt-3.5-turbo"),
                temperature: Temperature { bits: DEFAULT_TEMPERATURE_BITS },
                max_tokens: DEFAULT_MAX_TOKENS,
                system_prompt: String::from_str(
                    "You are a helpful assistant who writes concise, professional Git commit messages. Given code changes, write a commit message with a clear single-line summary followed by a more detailed description in Markdown that explains what was changed and why.",
                ),
            },
        }
    }
}

/// Why no settings came from the settings file.
#[derive(Clone, Copy, Debug, PartialEq, Eq, Structural)]
pub enum ConfigError {
    /// No per-user configuration directory is known.
    NoConfigDir,
    /// The file could not be read.
    Unreadable,
    /// The file was read and is not a rendering of settings.
    Malformed,
}

/// The settings to run with, and whether they still have to be written out.
pub struct Startup {
    pub config: Config,
    pub persist: bool,
}

impl Config {
    /// Decides whether the settings are usable.
    pub fn is_well_formed(&self) -> (r: bool)
        ensures
            r == self@.well_formed(),
    {
        self.openai.temperature.is_in_range() && self.openai.max_tokens > 0
    }

    /// Settles the settings of this run from an attempt to load them: what was
    /// loaded, or, after any failure, the defaults, which are then to be
    /// written to the settings file.
    pub fn or_default(loaded: Result<Config, ConfigError>) -> (r: Startup)
        ensures
            match loaded {
                Ok(config) => r.config == config && !r.persist,
                Err(_) => r.config@ == default_config() && r.persist,
            },
    {
        match loaded {
            Ok(config) => Startup { config, persist: false },
            Err(_) => Startup { config: Config::default(), persist: true },
        }
    }
}

/// The directory, below the per-user configuration directory, that holds the
/// settings file.
pub open spec fn app_dir_name() -> Seq<char> {
    "brocode"@
}

/// The name of the settings file.
pub open spec fn config_file_name() -> Seq<char> {
    "config.toml"@
}

/// `std::path::PathBuf`, carried through as it is: nothing is known of what
/// a path holds.
#[verifier::external_type_specification]
#[verifier::external_body]
pub struct ExPathBuf(PathBuf);

/// The path that `PathBuf::push` leaves behind when `component` is pushed
/// onto `base`.
pub uninterp spec fn pushed(base: PathBuf, component: Seq<char>) -> PathBuf;

/// `PathBuf::push`: extends the path by one component. The path afterwards
/// is a function of the path before and of the component.
#[verifier::external_body]
fn push_component(path: &mut PathBuf, component: &str)
    ensures
        *final(path) == pushed(*old(path), component@),
{
    path.push(component);
}

/// `dirs::config_dir`: the per-user configuration directory, if the
/// environment names one. Nothing is claimed of the outcome.
#[verifier::external_body]
fn user_config_dir() -> (r: Option<PathBuf>)
{
    dirs::config_dir()
}

/// The settings file below a given configuration directory.
pub open spec fn config_path_below(config_dir: PathBuf) -> PathBuf {
    pushed(pushed(config_dir, app_dir_name()), config_file_name())
}

/// Where the settings file is kept, given the per-user configuration
/// directory: two components below it, or nowhere if there is no such
/// directory.
pub fn config_path_in(config_dir: Option<PathBuf>) -> (r: Result<PathBuf, ConfigError>)
    ensures
        match config_dir {
            Some(dir) => r == Ok::<PathBuf, ConfigError>(config_path_below(dir)),
            None => r == Err::<PathBuf, ConfigError>(ConfigError::NoConfigDir),
        },
{
    match config_dir {
        Some(dir) => {
            let mut path = dir;
            push_component(&mut path, "brocode");
            push_component(&mut path, "config.toml");
            Ok(path)
        },
        None => Err(ConfigError::NoConfigDir),
    }
}

/// Where the settings file of the current user is kept. Fails exactly when
/// the environment names no configuration directory.
pub fn get_config_path() -> (r: Result<PathBuf, ConfigError>)
    ensures
        match r {
            Ok(path) => exists|dir: PathBuf| path == config_path_below(dir),
            Err(e) => e == ConfigError::NoConfigDir,
        },
{
    config_path_in(user_config_dir())
}

} // verus!
