//! Errors of configuration loading and of the relay.

use crate::config::Config;
use crate::signal::Signal;
use vstd::prelude::*;

verus! {

/// Why a configuration could not be loaded.
#[derive(Debug)]
pub enum ConfigError {
    /// The configuration text is not a valid configuration document.
    Deserialize(toml::de::Error),
    /// Fields that give conflicting values.
    ConflictFields(Vec<&'static str>),
    /// A field whose value could not be read, with the reason.
    InvalidValue(&'static str, String),
    /// A field that is required and absent.
    MissingField(&'static str),
}

/// What a configuration error says.
pub enum ConfigErrorView {
    Deserialize,
    ConflictFields(Seq<Seq<char>>),
    InvalidValue(Seq<char>, Seq<char>),
    MissingField(Seq<char>),
}

impl View for ConfigError {
    type V = ConfigErrorView;

    open spec fn view(&self) -> ConfigErrorView {
        match self {
            ConfigError::Deserialize(_) => ConfigErrorView::Deserialize,
            ConfigError::ConflictFields(fields) => ConfigErrorView::ConflictFields(
                fields@.map_values(|f: &'static str| f@),
            ),
            ConfigError::InvalidValue(field, reason) => ConfigErrorView::InvalidValue(field@, reason@),
            ConfigError::MissingField(field) => ConfigErrorView::MissingField(field@),
        }
    }
}

/// The view of an outcome whose error is a configuration error.
pub open spec fn config_outcome<T>(r: std::result::Result<T, ConfigError>) -> std::result::Result<
    T,
    ConfigErrorView,
> {
    match r {
        Ok(v) => Ok(v),
        Err(e) => Err(e@),
    }
}

/// Errors of the relay server.
#[derive(Debug)]
pub enum ServerError {
    /// The server was asked to listen while already listening.
    AlreadyStarted(Config),
    /// A socket operation failed.
    Io(std::io::Error),
    /// The WebSocket connection failed.
    WebSocket(tungstenite::Error),
    /// A UDP client operation was refused, with the reason.
    Udp(String),
    /// A signal could not be handed to the WebSocket sender; it is given back.
    Channel(Signal),
    /// The configuration is invalid.
    Config(ConfigError),
}

/// The outcome of a relay operation.
pub type Result<T> = std::result::Result<T, ServerError>;

} // verus!
