//! Process configuration.

use vstd::prelude::*;

verus! {

/// The port to listen on where none is configured.
pub const DEFAULT_HTTP_PORT: u16 = 8080;

/// What `str::parse::<u16>` makes of a text: the number it reads, or nothing
/// where it refuses the text.
pub uninterp spec fn parsed_u16(text: Seq<char>) -> Option<u16>;

/// Calls `str::parse::<u16>`.
///
/// Trusted: the outcome is a function of the text alone. Which texts are
/// accepted, and with what value, is left to the standard library.
#[verifier::external_body]
fn parse_u16(text: &str) -> (r: Option<u16>)
    ensures
        r == parsed_u16(text@),
{
    match text.parse::<u16>() {
        Ok(port) => Some(port),
        Err(_) => None,
    }
}

/// The configuration of the process.
#[derive(Debug, Clone, Copy, PartialEq, Eq)]
pub struct Config {
    pub http_port: u16,
}

impl Config {
    /// The port a parse of the configured text gives, else the default.
    pub open spec fn port_of(parsed: Option<u16>) -> u16 {
        match parsed {
            Some(port) => port,
            None => DEFAULT_HTTP_PORT,
        }
    }

    /// The configuration for the outcome of parsing the configured port.
    pub fn from_parsed_port(parsed: Option<u16>) -> (config: Self)
        ensures
            config.http_port == Self::port_of(parsed),
    {
        match parsed {
            Some(port) => Config { http_port: port },
            None => Config { http_port: DEFAULT_HTTP_PORT },
        }
    }

    /// The configuration for the value of the `HTTP_PORT` variable: the port it
    /// spells, or the default where it is not set or spells none.
    pub fn from_port_value(value: Option<&str>) -> (config: Self)
        ensures
            config.http_port == match value {
                Some(text) => Self::port_of(parsed_u16(text@)),
                None => DEFAULT_HTTP_PORT,
            },
    {
        match value {
            Some(text) => Self::from_parsed_port(parse_u16(text)),
            None => Self::from_parsed_port(None),
        }
    }
}

} // verus!
