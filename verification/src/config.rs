//! Server configuration and its validation rules.
use vstd::prelude::*;
use vstd::utf8::encode_utf8;

use crate::text::{trim, trim_span, chars_of};

verus! {

pub const DEFAULT_SERVER_NAME: &'static str = "FeatherMC";
pub const DEFAULT_MOTD: &'static str = "A FeatherMC Server";
pub const DEFAULT_MAX_PLAYERS: u32 = 20;
pub const DEFAULT_LISTEN_ADDRESS: &'static str = "0.0.0.0";
pub const DEFAULT_JAVA_PORT: u16 = 25565;

/// Longest server name, in UTF-8 bytes.
pub const MAX_NAME_BYTES: usize = 64;
/// Longest message of the day, in UTF-8 bytes.
pub const MAX_MOTD_BYTES: usize = 256;

/// Everything the server reads from its configuration file.
#[derive(Debug, Clone, PartialEq, Eq)]
pub struct Config {
    pub server: ServerConfig,
    pub network: NetworkConfig,
}

#[derive(Debug, Clone, PartialEq, Eq)]
pub struct ServerConfig {
    pub name: String,
    pub motd: String,
    pub max_players: u32,
}

#[derive(Debug, Clone, PartialEq, Eq)]
pub struct NetworkConfig {
    pub address: String,
    pub java_port: u16,
}

impl Default for ServerConfig {
    fn default() -> (r: Self)
        ensures
            r.name@ == DEFAULT_SERVER_NAME@,
            r.motd@ == DEFAULT_MOTD@,
            r.max_players == DEFAULT_MAX_PLAYERS,
    {
        ServerConfig {
            name: String::from_str(DEFAULT_SERVER_NAME),
            motd: String::from_str(DEFAULT_MOTD),
            max_players: DEFAULT_MAX_PLAYERS,
        }
    }
}

impl Default for NetworkConfig {
    fn default() -> (r: Self)
        ensures
            r.address@ == DEFAULT_LISTEN_ADDRESS@,
            r.java_port == DEFAULT_JAVA_PORT,
    {
        NetworkConfig { address: String::from_str(DEFAULT_LISTEN_ADDRESS), java_port: DEFAULT_JAVA_PORT }
    }
}

impl Default for Config {
    fn default() -> (r: Self)
        ensures
            r.server.name@ == DEFAULT_SERVER_NAME@,
            r.server.motd@ == DEFAULT_MOTD@,
            r.server.max_players == DEFAULT_MAX_PLAYERS,
            r.network.address@ == DEFAULT_LISTEN_ADDRESS@,
            r.network.java_port == DEFAULT_JAVA_PORT,
    {
        Config { server: ServerConfig::default(), network: NetworkConfig::default() }
    }
}

/// Which rule a configuration breaks.
#[derive(Debug, Clone, Copy, PartialEq, Eq, Structural)]
pub enum ConfigError {
    EmptyName,
    NameTooLong,
    MotdTooLong,
    NoPlayers,
    InvalidAddress,
    ZeroPort,
}

/// The operator-facing explanation of each broken rule.
pub open spec fn config_error_message(e: ConfigError) -> Seq<char> {
    match e {
        ConfigError::EmptyName => "server.name must not be empty"@,
        ConfigError::NameTooLong => "server.name must be at most 64 characters"@,
        ConfigError::MotdTooLong => "server.motd must be at most 256 characters"@,
        ConfigError::NoPlayers => "server.max_players must not be 0"@,
        ConfigError::InvalidAddress => "network.address must be a valid IP address"@,
        ConfigError::ZeroPort => "network.java_port must not be 0"@,
    }
}

impl ConfigError {
    /// The operator-facing explanation.
    #[must_use]
    pub fn message(self) -> (r: &'static str)
        ensures
            r@ == config_error_message(self),
    {
        match self {
            ConfigError::EmptyName => "server.name must not be empty",
            ConfigError::NameTooLong => "server.name must be at most 64 characters",
            ConfigError::MotdTooLong => "server.motd must be at most 256 characters",
            ConfigError::NoPlayers => "server.max_players must not be 0",
            ConfigError::InvalidAddress => "network.address must be a valid IP address",
            ConfigError::ZeroPort => "network.java_port must not be 0",
        }
    }
}

/// The first rule the configuration breaks, checked in this order: a
/// blank name, a name over 64 bytes, a motd over 256 bytes, no player
/// slots, an address that is not an IP, port 0.
pub open spec fn config_error(config: Config, address_is_ip: bool) -> Option<ConfigError> {
    if trim(config.server.name@).len() == 0 {
        Some(ConfigError::EmptyName)
    } else if encode_utf8(config.server.name@).len() > MAX_NAME_BYTES {
        Some(ConfigError::NameTooLong)
    } else if encode_utf8(config.server.motd@).len() > MAX_MOTD_BYTES {
        Some(ConfigError::MotdTooLong)
    } else if config.server.max_players == 0 {
        Some(ConfigError::NoPlayers)
    } else if !address_is_ip {
        Some(ConfigError::InvalidAddress)
    } else if config.network.java_port == 0 {
        Some(ConfigError::ZeroPort)
    } else {
        None
    }
}

/// Whether std's IP address parser (`IpAddr::from_str`) accepts `text` as
/// an IPv4 or IPv6 address.
pub uninterp spec fn is_ip_address(text: Seq<char>) -> bool;

/// Calls `IpAddr::from_str` and reports whether it accepted the text; the
/// grammar is std's and is not stated here.
#[verifier::external_body]
fn parses_as_ip(text: &str) -> (r: bool)
    ensures
        r == is_ip_address(text@),
{
    text.parse::<core::net::IpAddr>().is_ok()
}

impl Config {
    /// Checks the rules, in order (see `config_error`); the address must
    /// parse as an IP address.
    pub fn validate(&self) -> (r: Result<(), ConfigError>)
        ensures
            match config_error(*self, is_ip_address(self.network.address@)) {
                Some(e) => r == Err::<(), ConfigError>(e),
                None => r is Ok,
            },
    {
        let name = chars_of(self.server.name.as_str());
        let (start, end) = trim_span(name.as_slice());
        if start == end {
            return Err(ConfigError::EmptyName);
        }
        if self.server.name.as_str().as_bytes().len() > MAX_NAME_BYTES {
            return Err(ConfigError::NameTooLong);
        }
        if self.server.motd.as_str().as_bytes().len() > MAX_MOTD_BYTES {
            return Err(ConfigError::MotdTooLong);
        }
        if self.server.max_players == 0 {
            return Err(ConfigError::NoPlayers);
        }
        if !parses_as_ip(self.network.address.as_str()) {
            return Err(ConfigError::InvalidAddress);
        }
        if self.network.java_port == 0 {
            return Err(ConfigError::ZeroPort);
        }
        Ok(())
    }
}

} // verus!
