//! The server's settings, as given on the command line and in the
//! environment.
use crate::text::{join, decimal_u16, parse_u16, str_eq};
use vstd::prelude::*;
use vstd::string::*;

verus! {

/// The protocol version that the server prefers.
pub const DEFAULT_PROTOCOL_VERSION: &'static str = "2025-03-26";

/// The one other protocol version that the server accepts.
pub const FALLBACK_PROTOCOL_VERSION: &'static str = "2025-06-18";

/// The name under which the server introduces itself.
pub const SERVER_NAME: &'static str = "time-mcp-server";

/// The version under which the server introduces itself.
pub const SERVER_VERSION: &'static str = "1.0.0";

/// The host that is bound where none is given.
pub const DEFAULT_HOST: &'static str = "localhost";

/// The port that is bound where none is given, or where what is given is no
/// port number.
pub const DEFAULT_PORT: u16 = 8080;

/// How the server talks to its clients.
#[derive(Clone, Debug)]
pub enum TransportType {
    /// Line by line over standard input and output.
    Stdio,
    /// Over HTTP, bound to a host and a port.
    Http { host: String, port: u16 },
}

impl TransportType {
    /// Whether this is the transport that `name` stands for, bound to the
    /// given host and port where it is bound at all.
    pub open spec fn is_named(self, name: Seq<char>, host: Seq<char>, port: u16) -> bool {
        match self {
            TransportType::Stdio => name == "stdio"@,
            TransportType::Http { host: bound_host, port: bound_port } => {
                &&& name == "http"@
                &&& bound_host@ == host
                &&& bound_port == port
            },
        }
    }
}

/// The server's settings.
#[derive(Clone, Debug)]
pub struct ServerConfig {
    pub transport: TransportType,
    pub host: String,
    pub port: u16,
    pub auth_enabled: bool,
}

/// What the command line gave for each option, as text.
pub struct Matches {
    pub transport: Option<String>,
    pub host: Option<String>,
    pub port: Option<String>,
}

/// Why the settings could not be made.
#[derive(Debug)]
pub enum ConfigError {
    /// No transport was named.
    TransportRequired,
    /// A transport was named that is neither `stdio` nor `http`.
    InvalidTransport(String),
}

impl ConfigError {
    /// The error in words.
    pub open spec fn text(self) -> Seq<char> {
        match self {
            ConfigError::TransportRequired => "Transport type required"@,
            ConfigError::InvalidTransport(name) => "Invalid transport type: "@ + name@,
        }
    }

    /// The error in words.
    pub fn to_string(&self) -> (text: String)
        ensures
            text@ == self.text(),
    {
        match self {
            ConfigError::TransportRequired => "Transport type required".to_owned(),
            ConfigError::InvalidTransport(name) => join(
                "Invalid transport type: ",
                name.as_str(),
            ),
        }
    }
}

/// The port to bind: the one given where it is a port number, the default
/// port otherwise.
pub open spec fn chosen_port(given: Option<Seq<char>>) -> u16 {
    match given {
        Some(text) => match decimal_u16(text) {
            Some(port) => port,
            None => DEFAULT_PORT,
        },
        None => DEFAULT_PORT,
    }
}

/// The host to bind: the one given, or the default host.
pub open spec fn chosen_host(given: Option<Seq<char>>) -> Seq<char> {
    match given {
        Some(text) => text,
        None => DEFAULT_HOST@,
    }
}

/// The characters of an optional string.
pub open spec fn option_view(text: Option<String>) -> Option<Seq<char>> {
    match text {
        Some(t) => Some(t@),
        None => None,
    }
}

impl ServerConfig {
    /// The settings for what the command line gave and for the value of the
    /// environment's authentication switch, if it is set.
    pub fn from_matches(matches: &Matches, auth_switch: Option<&str>) -> (result: Result<
        ServerConfig,
        ConfigError,
    >)
        ensures
            match result {
                Ok(config) => {
                    &&& matches.transport matches Some(name) && config.transport.is_named(
                        name@,
                        config.host@,
                        config.port,
                    )
                    &&& config.host@ == chosen_host(option_view(matches.host))
                    &&& config.port == chosen_port(option_view(matches.port))
                    &&& config.auth_enabled == (auth_switch matches Some(v) && v@ == "true"@)
                },
                Err(ConfigError::TransportRequired) => matches.transport is None,
                Err(ConfigError::InvalidTransport(given)) => {
                    &&& matches.transport matches Some(name)
                    &&& given@ == name@
                    &&& name@ != "stdio"@
                    &&& name@ != "http"@
                },
            },
    {
        let name = match &matches.transport {
            Some(name) => name.as_str(),
            None => {
                return Err(ConfigError::TransportRequired);
            },
        };
        let host = match &matches.host {
            Some(host) => host.clone(),
            None => DEFAULT_HOST.to_owned(),
        };
        let port = match &matches.port {
            Some(text) => match parse_u16(text.as_str()) {
                Some(port) => port,
                None => DEFAULT_PORT,
            },
            None => DEFAULT_PORT,
        };
        let transport = if str_eq(name, "stdio") {
            TransportType::Stdio
        } else if str_eq(name, "http") {
            TransportType::Http { host: host.clone(), port }
        } else {
            return Err(ConfigError::InvalidTransport(name.to_owned()));
        };
        let auth_enabled = match auth_switch {
            Some(value) => str_eq(value, "true"),
            None => false,
        };
        Ok(ServerConfig { transport, host, port, auth_enabled })
    }
}

} // verus!
