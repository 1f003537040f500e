//! Server configuration: the decision logic of assembling it from
//! environment values, with a configuration file as the fallback. Reading
//! the environment and the file — and writing the default file when none
//! exists — are outside concerns; the values read are handed in.

use vstd::prelude::*;
use vstd::string::StringExecFns;
use crate::parse::{parse_u16, parse_u16_spec};

verus! {

/// The bind port used when the environment names none.
pub const DEFAULT_BIND_PORT: u16 = 8888;

/// The server's configuration.
#[derive(Debug)]
pub struct Config {
    pub pihole_url: String,
    pub pihole_pass: String,
    pub bind_port: u16,
}

/// Why no configuration could be assembled.
#[derive(Clone, Copy, PartialEq, Eq, Structural, Debug)]
pub enum ConfigError {
    /// The file still holds a placeholder URL or password of the default
    /// file.
    PlaceholderConfig,
    /// Neither environment values nor a file: a default file is to be
    /// written and filled in.
    MissingConfigFile,
}

impl Default for Config {
    /// The contents of the default configuration file: placeholders that
    /// must be edited before the file counts.
    fn default() -> (c: Self)
        ensures
            c.pihole_url@ == "pihole_url"@,
            c.pihole_pass@ == "pihole_pass"@,
            c.bind_port == DEFAULT_BIND_PORT,
    {
        Config {
            pihole_url: String::from_str("pihole_url"),
            pihole_pass: String::from_str("pihole_pass"),
            bind_port: DEFAULT_BIND_PORT,
        }
    }
}

/// The environment alone configures the server: the upstream URL and
/// password are both set, and the bind port, if set, is a valid number.
pub open spec fn env_usable(
    env_url: Option<String>,
    env_pass: Option<String>,
    env_port: Option<String>,
) -> bool {
    env_url is Some && env_pass is Some && (env_port is None || parse_u16_spec(env_port.unwrap()@)
        is Some)
}

/// The bind port the environment yields.
pub open spec fn env_port_value(env_port: Option<String>) -> u16 {
    match env_port {
        Some(p) => parse_u16_spec(p@).unwrap(),
        None => DEFAULT_BIND_PORT,
    }
}

/// The parsed file still holds a placeholder value.
pub open spec fn file_is_placeholder(cfg: Config) -> bool {
    cfg.pihole_url@ == "pihole_url"@ || cfg.pihole_pass@ == "pihole_pass"@
}

/// Assembles the configuration: environment values win; otherwise the
/// file, unless it still holds a placeholder; with no file, the caller is
/// told to create the default one.
pub fn load_config(
    env_url: Option<String>,
    env_pass: Option<String>,
    env_port: Option<String>,
    file: Option<Config>,
) -> (r: Result<Config, ConfigError>)
    ensures
        env_usable(env_url, env_pass, env_port) ==> r is Ok && (r->Ok_0).pihole_url@
            == env_url.unwrap()@ && (r->Ok_0).pihole_pass@ == env_pass.unwrap()@ && (
        r->Ok_0).bind_port == env_port_value(env_port),
        !env_usable(env_url, env_pass, env_port) && file is Some && file_is_placeholder(
            file.unwrap(),
        ) ==> r == Err::<Config, ConfigError>(ConfigError::PlaceholderConfig),
        !env_usable(env_url, env_pass, env_port) && file is Some && !file_is_placeholder(
            file.unwrap(),
        ) ==> r == Ok::<Config, ConfigError>(file.unwrap()),
        !env_usable(env_url, env_pass, env_port) && file is None ==> r == Err::<
            Config,
            ConfigError,
        >(ConfigError::MissingConfigFile),
{
    match (env_url, env_pass) {
        (Some(url), Some(pass)) => {
            let port = match &env_port {
                Some(p) => parse_u16(p.as_str()),
                None => Some(DEFAULT_BIND_PORT),
            };
            match port {
                Some(bind_port) => Ok(
                    Config { pihole_url: url, pihole_pass: pass, bind_port },
                ),
                None => config_from_file(file),
            }
        },
        _ => config_from_file(file),
    }
}

/// The file fallback: the parsed file counts only once both placeholders
/// were edited.
fn config_from_file(file: Option<Config>) -> (r: Result<Config, ConfigError>)
    ensures
        file is Some && file_is_placeholder(file.unwrap()) ==> r == Err::<Config, ConfigError>(
            ConfigError::PlaceholderConfig,
        ),
        file is Some && !file_is_placeholder(file.unwrap()) ==> r == Ok::<Config, ConfigError>(
            file.unwrap(),
        ),
        file is None ==> r == Err::<Config, ConfigError>(ConfigError::MissingConfigFile),
{
    match file {
        Some(cfg) => {
            if cfg.pihole_url == String::from_str("pihole_url") || cfg.pihole_pass
                == String::from_str("pihole_pass") {
                Err(ConfigError::PlaceholderConfig)
            } else {
                Ok(cfg)
            }
        },
        None => Err(ConfigError::MissingConfigFile),
    }
}

} // verus!
