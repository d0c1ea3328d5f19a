use garyapi::config::{Config, ConfigBuilder, ConfigError};

#[test]
fn test_config_default() {
    let config = Config::default();
    assert_eq!(config.port, 8080);
    assert_eq!(config.bind_address, "0.0.0.0");
    assert_eq!(config.gary_dir.as_str(), "gary_images");
}

#[test]
fn test_config_validation() {
    let mut config = Config::default();
    assert!(config.validate().is_ok());

    config.port = 0;
    assert!(config.validate().is_err());
}

#[test]
fn test_config_builder() {
    let config = ConfigBuilder::new()
        .port(9090)
        .gary_dir("custom_gary")
        .build();

    assert_eq!(config.port, 9090);
    assert_eq!(config.gary_dir.as_str(), "custom_gary");
    assert_eq!(config.goober_dir.as_str(), "goober_images"); // Default
}

#[test]
fn test_server_address() {
    let config = Config::default();
    assert_eq!(config.server_address(), "0.0.0.0:8080");
}

#[test]
fn test_server_address_digits() {
    let config = ConfigBuilder::new().port(7).bind_address("localhost").build();
    assert_eq!(config.server_address(), "localhost:7");
    let config = ConfigBuilder::new().port(65535).build();
    assert_eq!(config.server_address(), "0.0.0.0:65535");
}

#[test]
fn test_validation_messages() {
    let mut config = Config::default();
    config.bind_address = String::new();
    match config.validate() {
        Err(ConfigError::InvalidConfiguration(m)) => {
            assert_eq!(m, "Bind address cannot be empty");
        }
        _ => panic!("Expected an invalid-configuration error"),
    }
    let config = ConfigBuilder::new().quotes_file("").build();
    match config.validate() {
        Err(ConfigError::InvalidConfiguration(m)) => {
            assert_eq!(m, "Quotes file cannot be empty");
        }
        _ => panic!("Expected an invalid-configuration error"),
    }
}

#[test]
fn test_builder_defaults_everywhere() {
    let config = ConfigBuilder::new().build();
    assert_eq!(config.quotes_file, "quotes.json");
    assert_eq!(config.jokes_file, "jokes.json");
    assert_eq!(config.goober_dir.as_str(), "goober_images");
    assert_eq!(config.gary_base_url.as_bytes(), b"http://localhost:8080/Gary");
    assert_eq!(
        config.goober_base_url.as_bytes(),
        b"http://localhost:8080/Goober"
    );
}
