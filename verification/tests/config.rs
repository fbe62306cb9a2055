use spironmc::config::{Config, ConfigError, NetworkConfig, ServerConfig};

#[test]
fn default_config_is_valid() {
    Config::default().validate().unwrap();
}

#[test]
fn rejects_empty_name() {
    let config = Config {
        server: ServerConfig { name: "   ".to_owned(), motd: "Hi".to_owned(), max_players: 20 },
        network: NetworkConfig::default(),
    };
    assert!(config.validate().is_err());
}

#[test]
fn rejects_invalid_network_settings() {
    let mut config = Config::default();
    config.network.address = "not-an-ip".to_owned();
    assert_eq!(config.validate(), Err(ConfigError::InvalidAddress));
    config.network.address = "::1".to_owned();
    assert!(config.validate().is_ok());
    config.network.address = "256.0.0.1".to_owned();
    assert_eq!(config.validate(), Err(ConfigError::InvalidAddress));

    let mut config = Config::default();
    config.network.java_port = 0;
    assert_eq!(config.validate(), Err(ConfigError::ZeroPort));

    let mut config = Config::default();
    config.server.max_players = 0;
    assert_eq!(config.validate(), Err(ConfigError::NoPlayers));
}

#[test]
fn default_network_config_listens_on_java_port() {
    let network = NetworkConfig::default();
    assert_eq!(network.address, "0.0.0.0");
    assert_eq!(network.java_port, 25565);
}

#[test]
fn long_names_and_motds_are_rejected_by_bytes() {
    let mut config = Config::default();
    config.server.name = "é".repeat(33);
    assert_eq!(config.validate(), Err(ConfigError::NameTooLong));
    let mut config = Config::default();
    config.server.motd = "m".repeat(257);
    assert_eq!(config.validate(), Err(ConfigError::MotdTooLong));
    config.server.motd = "m".repeat(256);
    assert!(config.validate().is_ok());
    assert_eq!(ConfigError::ZeroPort.message(), "network.java_port must not be 0");
}
