//! Agent configuration: the decision logic of assembling it from
//! environment values, with a configuration file as the fallback. Reading
//! the environment and the file — and writing the default file when none
//! exists — are outside concerns; the values read are handed in.

use vstd::prelude::*;
use vstd::string::StringExecFns;
use crate::parse::{parse_u16, parse_u16_spec};

verus! {

/// The bind port used when the environment names none.
pub const DEFAULT_BIND_PORT: u16 = 8887;

/// The agent's configuration.
#[derive(Debug)]
pub struct Config {
    pub piwatch_server_url: String,
    pub listening_interface: String,
    pub bind_port: u16,
}

/// Why no configuration could be assembled.
#[derive(Clone, Copy, PartialEq, Eq, Structural, Debug)]
pub enum ConfigError {
    /// The file still holds the placeholder server URL of the default file.
    PlaceholderConfig,
    /// Neither environment values nor a file: a default file is to be
    /// written and filled in.
    MissingConfigFile,
}

impl Default for Config {
    /// The contents of the default configuration file: a placeholder URL
    /// that must be edited before the file counts.
    fn default() -> (c: Self)
        ensures
            c.piwatch_server_url@ == "piwatch_server_url"@,
            c.listening_interface@ == "eth0"@,
            c.bind_port == DEFAULT_BIND_PORT,
    {
        Config {
            piwatch_server_url: String::from_str("piwatch_server_url"),
            listening_interface: String::from_str("eth0"),
            bind_port: DEFAULT_BIND_PORT,
        }
    }
}

/// The environment alone configures the agent: the server URL is set, and
/// the bind port, if set, is a valid number.
pub open spec fn env_usable(env_url: Option<String>, env_port: Option<String>) -> bool {
    env_url is Some && (env_port is None || parse_u16_spec(env_port.unwrap()@) is Some)
}

/// The bind port the environment yields.
pub open spec fn env_port_value(env_port: Option<String>) -> u16 {
    match env_port {
        Some(p) => parse_u16_spec(p@).unwrap(),
        None => DEFAULT_BIND_PORT,
    }
}

/// The listening interface the environment yields.
pub open spec fn env_interface_text(env_interface: Option<String>) -> Seq<char> {
    match env_interface {
        Some(s) => s@,
        None => "eth0"@,
    }
}

/// Assembles the configuration: environment values win; otherwise the
/// file, unless it still holds the placeholder URL; with no file, the
/// caller is told to create the default one.
pub fn load_config(
    env_url: Option<String>,
    env_interface: Option<String>,
    env_port: Option<String>,
    file: Option<Config>,
) -> (r: Result<Config, ConfigError>)
    ensures
        env_usable(env_url, env_port) ==> r is Ok && (r->Ok_0).piwatch_server_url@
            == env_url.unwrap()@ && (r->Ok_0).listening_interface@ == env_interface_text(
            env_interface,
        ) && (r->Ok_0).bind_port == env_port_value(env_port),
        !env_usable(env_url, env_port) && file is Some && file.unwrap().piwatch_server_url@
            == "piwatch_server_url"@ ==> r == Err::<Config, ConfigError>(
            ConfigError::PlaceholderConfig,
        ),
        !env_usable(env_url, env_port) && file is Some && file.unwrap().piwatch_server_url@
            != "piwatch_server_url"@ ==> r == Ok::<Config, ConfigError>(file.unwrap()),
        !env_usable(env_url, env_port) && file is None ==> r == Err::<Config, ConfigError>(
            ConfigError::MissingConfigFile,
        ),
{
    match env_url {
        Some(url) => {
            let port = match &env_port {
                Some(p) => parse_u16(p.as_str()),
                None => Some(DEFAULT_BIND_PORT),
            };
            match port {
                Some(bind_port) => {
                    let listening_interface = match env_interface {
                        Some(s) => s,
                        None => String::from_str("eth0"),
                    };
                    Ok(Config { piwatch_server_url: url, listening_interface, bind_port })
                },
                None => config_from_file(file),
            }
        },
        None => config_from_file(file),
    }
}

/// The file fallback: the parsed file counts only once its placeholder URL
/// was edited.
fn config_from_file(file: Option<Config>) -> (r: Result<Config, ConfigError>)
    ensures
        file is Some && file.unwrap().piwatch_server_url@ == "piwatch_server_url"@ ==> r == Err::<
            Config,
            ConfigError,
        >(ConfigError::PlaceholderConfig),
        file is Some && file.unwrap().piwatch_server_url@ != "piwatch_server_url"@ ==> r == Ok::<
            Config,
            ConfigError,
        >(file.unwrap()),
        file is None ==> r == Err::<Config, ConfigError>(ConfigError::MissingConfigFile),
{
    match file {
        Some(cfg) => {
            if cfg.piwatch_server_url == String::from_str("piwatch_server_url") {
                Err(ConfigError::PlaceholderConfig)
            } else {
                Ok(cfg)
            }
        },
        None => Err(ConfigError::MissingConfigFile),
    }
}

} // verus!
