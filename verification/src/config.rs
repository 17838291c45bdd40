//! The settings of one run: what the environment supplies as text, and the
//! validated configuration made from it.

use vstd::prelude::*;
use vstd::string::StringExecFns;
use crate::decimal::{decimal, parse_u32, parse_u64, parsed_number, push_decimal};
use crate::text::{same_text, text_of};

verus! {

/// The settings as found, each one present or not.
#[derive(Clone, Debug)]
pub struct RawSettings {
    pub driver_type: Option<String>,
    pub driver_path: Option<String>,
    pub driver_port: Option<String>,
    pub username: Option<String>,
    pub password: Option<String>,
    pub wait_secs: Option<String>,
    pub profile_url: Option<String>,
}

/// The mathematical content of [`RawSettings`].
pub ghost struct RawSettingsView {
    pub driver_type: Option<Seq<char>>,
    pub driver_path: Option<Seq<char>>,
    pub driver_port: Option<Seq<char>>,
    pub username: Option<Seq<char>>,
    pub password: Option<Seq<char>>,
    pub wait_secs: Option<Seq<char>>,
    pub profile_url: Option<Seq<char>>,
}

impl View for RawSettings {
    type V = RawSettingsView;

    open spec fn view(&self) -> RawSettingsView {
        RawSettingsView {
            driver_type: text_of(self.driver_type),
            driver_path: text_of(self.driver_path),
            driver_port: text_of(self.driver_port),
            username: text_of(self.username),
            password: text_of(self.password),
            wait_secs: text_of(self.wait_secs),
            profile_url: text_of(self.profile_url),
        }
    }
}

/// Why a set of raw settings is not a configuration.
#[derive(Clone, Copy, Debug, PartialEq, Eq, Structural)]
pub enum ConfigError {
    MissingDriverType,
    UnsupportedDriver,
    MissingDriverPath,
    MissingDriverPort,
    InvalidDriverPort,
    MissingUsername,
    MissingPassword,
    MissingWaitTime,
    InvalidWaitTime,
}

/// A validated configuration.
#[derive(Clone, Debug)]
pub struct RunConfig {
    pub driver_path: String,
    pub driver_port: u32,
    pub username: String,
    pub password: String,
    pub wait_secs: u64,
    pub profile_url: Option<String>,
}

/// The mathematical content of [`RunConfig`].
pub ghost struct RunConfigView {
    pub driver_path: Seq<char>,
    pub driver_port: u32,
    pub username: Seq<char>,
    pub password: Seq<char>,
    pub wait_secs: u64,
    pub profile_url: Option<Seq<char>>,
}

impl View for RunConfig {
    type V = RunConfigView;

    open spec fn view(&self) -> RunConfigView {
        RunConfigView {
            driver_path: self.driver_path@,
            driver_port: self.driver_port,
            username: self.username@,
            password: self.password@,
            wait_secs: self.wait_secs,
            profile_url: text_of(self.profile_url),
        }
    }
}

/// The only browser engine that is driven.
pub open spec fn supported_driver() -> Seq<char> {
    "chrome"@
}

/// The first thing wrong with `raw`, in the order in which the settings are
/// examined, or `None` when every required setting is present and well formed.
/// The profile address is optional and never a fault.
pub open spec fn fault_of(raw: RawSettingsView) -> Option<ConfigError> {
    if raw.driver_type is None {
        Some(ConfigError::MissingDriverType)
    } else if raw.driver_type->0 != supported_driver() {
        Some(ConfigError::UnsupportedDriver)
    } else if raw.driver_path is None {
        Some(ConfigError::MissingDriverPath)
    } else if raw.driver_port is None {
        Some(ConfigError::MissingDriverPort)
    } else if parsed_number(raw.driver_port->0, u32::MAX as nat) is None {
        Some(ConfigError::InvalidDriverPort)
    } else if raw.username is None {
        Some(ConfigError::MissingUsername)
    } else if raw.password is None {
        Some(ConfigError::MissingPassword)
    } else if raw.wait_secs is None {
        Some(ConfigError::MissingWaitTime)
    } else if parsed_number(raw.wait_secs->0, u64::MAX as nat) is None {
        Some(ConfigError::InvalidWaitTime)
    } else {
        None
    }
}

/// The configuration that faultless raw settings denote.
pub open spec fn settled(raw: RawSettingsView) -> RunConfigView
    recommends
        fault_of(raw) is None,
{
    RunConfigView {
        driver_path: raw.driver_path->0,
        driver_port: parsed_number(raw.driver_port->0, u32::MAX as nat)->0 as u32,
        username: raw.username->0,
        password: raw.password->0,
        wait_secs: parsed_number(raw.wait_secs->0, u64::MAX as nat)->0 as u64,
        profile_url: raw.profile_url,
    }
}

/// The address at which the driver listening on `port` is reached.
pub open spec fn endpoint_text(port: u32) -> Seq<char> {
    "http://localhost:"@ + decimal(port as nat)
}

/// The argument that tells the driver to listen on `port`.
pub open spec fn port_argument_text(port: u32) -> Seq<char> {
    "--port="@ + decimal(port as nat)
}

impl ConfigError {
    /// The message shown to the operator for this fault.
    pub open spec fn message_text(self) -> Seq<char> {
        match self {
            ConfigError::MissingDriverType => "WEB_DRIVER_TYPE must be set."@,
            ConfigError::UnsupportedDriver => "Only Chrome is supported for now."@,
            ConfigError::MissingDriverPath => "WEB_DRIVER_PATH must be set."@,
            ConfigError::MissingDriverPort => "WEB_DRIVER_PORT must be set."@,
            ConfigError::InvalidDriverPort => "WEB_DRIVER_PORT must be a number."@,
            ConfigError::MissingUsername => "SSTM_USERNAME must be set."@,
            ConfigError::MissingPassword => "SSTM_PASSWORD must be set."@,
            ConfigError::MissingWaitTime => "DEFAULT_WAIT_TIME_SECS must be set."@,
            ConfigError::InvalidWaitTime => "DEFAULT_WAIT_TIME_SECS must be a number."@,
        }
    }

    /// The message shown to the operator for this fault.
    pub fn message(&self) -> (m: String)
        ensures
            m@ == self.message_text(),
    {
        let text = match self {
            ConfigError::MissingDriverType => "WEB_DRIVER_TYPE must be set.",
            ConfigError::UnsupportedDriver => "Only Chrome is supported for now.",
            ConfigError::MissingDriverPath => "WEB_DRIVER_PATH must be set.",
            ConfigError::MissingDriverPort => "WEB_DRIVER_PORT must be set.",
            ConfigError::InvalidDriverPort => "WEB_DRIVER_PORT must be a number.",
            ConfigError::MissingUsername => "SSTM_USERNAME must be set.",
            ConfigError::MissingPassword => "SSTM_PASSWORD must be set.",
            ConfigError::MissingWaitTime => "DEFAULT_WAIT_TIME_SECS must be set.",
            ConfigError::InvalidWaitTime => "DEFAULT_WAIT_TIME_SECS must be a number.",
        };
        String::from_str(text)
    }
}

impl RunConfig {
    /// Validates raw settings. Fails with the first fault found, in the order
    /// of [`fault_of`]; succeeds exactly when there is none.
    pub fn load(raw: RawSettings) -> (r: Result<RunConfig, ConfigError>)
        ensures
            match r {
                Ok(config) => fault_of(raw@) is None && config@ == settled(raw@),
                Err(fault) => fault_of(raw@) == Some(fault),
            },
    {
        let driver_type = match raw.driver_type {
            Some(v) => v,
            None => {
                return Err(ConfigError::MissingDriverType);
            },
        };
        if !same_text(driver_type.as_str(), "chrome") {
            return Err(ConfigError::UnsupportedDriver);
        }
        let driver_path = match raw.driver_path {
            Some(v) => v,
            None => {
                return Err(ConfigError::MissingDriverPath);
            },
        };
        let port_text = match raw.driver_port {
            Some(v) => v,
            None => {
                return Err(ConfigError::MissingDriverPort);
            },
        };
        let driver_port = match parse_u32(port_text.as_str()) {
            Some(n) => n,
            None => {
                return Err(ConfigError::InvalidDriverPort);
            },
        };
        let username = match raw.username {
            Some(v) => v,
            None => {
                return Err(ConfigError::MissingUsername);
            },
        };
        let password = match raw.password {
            Some(v) => v,
            None => {
                return Err(ConfigError::MissingPassword);
            },
        };
        let wait_text = match raw.wait_secs {
            Some(v) => v,
            None => {
                return Err(ConfigError::MissingWaitTime);
            },
        };
        let wait_secs = match parse_u64(wait_text.as_str()) {
            Some(n) => n,
            None => {
                return Err(ConfigError::InvalidWaitTime);
            },
        };
        Ok(
            RunConfig {
                driver_path,
                driver_port,
                username,
                password,
                wait_secs,
                profile_url: raw.profile_url,
            },
        )
    }

    /// The address at which the driver is reached.
    pub fn endpoint(&self) -> (url: String)
        ensures
            url@ == endpoint_text(self.driver_port),
    {
        let mut url = String::from_str("http://localhost:");
        push_decimal(&mut url, self.driver_port as u64);
        url
    }

    /// The argument that tells the driver which port to listen on.
    pub fn port_argument(&self) -> (arg: String)
        ensures
            arg@ == port_argument_text(self.driver_port),
    {
        let mut arg = String::from_str("--port=");
        push_decimal(&mut arg, self.driver_port as u64);
        arg
    }
}

} // verus!
