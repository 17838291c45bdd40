use sstm_checkin::config::{ConfigError, RawSettings, RunConfig};

fn text(s: &str) -> Option<String> {
    Some(s.to_string())
}

fn complete() -> RawSettings {
    RawSettings {
        driver_type: text("chrome"),
        driver_path: text("/usr/bin/chromedriver"),
        driver_port: text("9515"),
        username: text("alice"),
        password: text("s3cret"),
        wait_secs: text("3"),
        profile_url: text("https://sstm.moe/profile/1-alice/"),
    }
}

#[test]
fn complete_settings_load() {
    let config = RunConfig::load(complete()).unwrap();
    assert_eq!(config.driver_path, "/usr/bin/chromedriver");
    assert_eq!(config.driver_port, 9515);
    assert_eq!(config.username, "alice");
    assert_eq!(config.password, "s3cret");
    assert_eq!(config.wait_secs, 3);
    assert_eq!(config.profile_url.as_deref(), Some("https://sstm.moe/profile/1-alice/"));
}

#[test]
fn profile_address_is_optional() {
    let mut raw = complete();
    raw.profile_url = None;
    let config = RunConfig::load(raw).unwrap();
    assert_eq!(config.profile_url, None);
}

#[test]
fn missing_driver_type_is_a_fault() {
    let mut raw = complete();
    raw.driver_type = None;
    assert_eq!(RunConfig::load(raw).unwrap_err(), ConfigError::MissingDriverType);
}

#[test]
fn other_driver_is_a_fault() {
    for other in ["firefox", "Chrome", "chrome ", ""] {
        let mut raw = complete();
        raw.driver_type = text(other);
        assert_eq!(RunConfig::load(raw).unwrap_err(), ConfigError::UnsupportedDriver);
    }
}

#[test]
fn missing_driver_path_is_a_fault() {
    let mut raw = complete();
    raw.driver_path = None;
    assert_eq!(RunConfig::load(raw).unwrap_err(), ConfigError::MissingDriverPath);
}

#[test]
fn missing_driver_port_is_a_fault() {
    let mut raw = complete();
    raw.driver_port = None;
    assert_eq!(RunConfig::load(raw).unwrap_err(), ConfigError::MissingDriverPort);
}

#[test]
fn malformed_driver_port_is_a_fault() {
    for bad in ["", "port", "-1", "95.15", "4294967296", " 9515"] {
        let mut raw = complete();
        raw.driver_port = text(bad);
        assert_eq!(RunConfig::load(raw).unwrap_err(), ConfigError::InvalidDriverPort);
    }
}

#[test]
fn missing_username_is_a_fault() {
    let mut raw = complete();
    raw.username = None;
    assert_eq!(RunConfig::load(raw).unwrap_err(), ConfigError::MissingUsername);
}

#[test]
fn missing_password_is_a_fault() {
    let mut raw = complete();
    raw.password = None;
    assert_eq!(RunConfig::load(raw).unwrap_err(), ConfigError::MissingPassword);
}

#[test]
fn missing_wait_time_is_a_fault() {
    let mut raw = complete();
    raw.wait_secs = None;
    assert_eq!(RunConfig::load(raw).unwrap_err(), ConfigError::MissingWaitTime);
}

#[test]
fn malformed_wait_time_is_a_fault() {
    for bad in ["", "soon", "-3", "1.5", "18446744073709551616"] {
        let mut raw = complete();
        raw.wait_secs = text(bad);
        assert_eq!(RunConfig::load(raw).unwrap_err(), ConfigError::InvalidWaitTime);
    }
}

#[test]
fn the_first_fault_is_reported() {
    let mut raw = complete();
    raw.driver_port = text("x");
    raw.username = None;
    raw.wait_secs = None;
    assert_eq!(RunConfig::load(raw).unwrap_err(), ConfigError::InvalidDriverPort);
    let nothing = RawSettings {
        driver_type: None,
        driver_path: None,
        driver_port: None,
        username: None,
        password: None,
        wait_secs: None,
        profile_url: None,
    };
    assert_eq!(RunConfig::load(nothing).unwrap_err(), ConfigError::MissingDriverType);
}

#[test]
fn every_single_missing_setting_is_rejected() {
    for field in 0..6 {
        let mut raw = complete();
        match field {
            0 => raw.driver_type = None,
            1 => raw.driver_path = None,
            2 => raw.driver_port = None,
            3 => raw.username = None,
            4 => raw.password = None,
            _ => raw.wait_secs = None,
        }
        assert!(RunConfig::load(raw).is_err());
    }
}

#[test]
fn fault_messages_name_the_setting() {
    assert_eq!(ConfigError::MissingDriverType.message(), "WEB_DRIVER_TYPE must be set.");
    assert_eq!(ConfigError::UnsupportedDriver.message(), "Only Chrome is supported for now.");
    assert_eq!(ConfigError::MissingDriverPath.message(), "WEB_DRIVER_PATH must be set.");
    assert_eq!(ConfigError::MissingDriverPort.message(), "WEB_DRIVER_PORT must be set.");
    assert_eq!(ConfigError::InvalidDriverPort.message(), "WEB_DRIVER_PORT must be a number.");
    assert_eq!(ConfigError::MissingUsername.message(), "SSTM_USERNAME must be set.");
    assert_eq!(ConfigError::MissingPassword.message(), "SSTM_PASSWORD must be set.");
    assert_eq!(ConfigError::MissingWaitTime.message(), "DEFAULT_WAIT_TIME_SECS must be set.");
    assert_eq!(
        ConfigError::InvalidWaitTime.message(),
        "DEFAULT_WAIT_TIME_SECS must be a number."
    );
}

#[test]
fn endpoint_and_port_argument_carry_the_port() {
    let config = RunConfig::load(complete()).unwrap();
    assert_eq!(config.endpoint(), "http://localhost:9515");
    assert_eq!(config.port_argument(), "--port=9515");
    let mut raw = complete();
    raw.driver_port = text("+0080");
    let config = RunConfig::load(raw).unwrap();
    assert_eq!(config.driver_port, 80);
    assert_eq!(config.endpoint(), "http://localhost:80");
    assert_eq!(config.port_argument(), "--port=80");
}
