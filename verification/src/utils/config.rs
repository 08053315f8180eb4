//! Where the dashboard finds its services, and where it listens.

use vstd::prelude::*;
use vstd::string::StringExecFns;
use vstd::utf8::encode_utf8;
use crate::encoding::{parse_u64, parsed_u64};

verus! {

/// Settings of the dashboard.
#[derive(Clone, Debug)]
pub struct AppConfig {
    pub mcp_api_url: String,
    pub mcp_api_key: Option<String>,
    pub lnd_host: String,
    pub lnd_port: u16,
    pub lnd_macaroon_path: String,
    pub lnd_tls_cert_path: String,
    pub server_port: u16,
}

/// Port of the node's interface where none is set.
pub const DEFAULT_LND_PORT: u16 = 10009;

/// Port that the dashboard listens on where none is set.
pub const DEFAULT_SERVER_PORT: u16 = 3000;

/// What is set in the environment, each value as it stands there.
#[derive(Clone, Debug)]
pub struct ConfigValues {
    pub mcp_api_url: Option<String>,
    pub mcp_api_key: Option<String>,
    pub lnd_host: Option<String>,
    pub lnd_port: Option<String>,
    pub lnd_macaroon_path: Option<String>,
    pub lnd_tls_cert_path: Option<String>,
    pub server_port: Option<String>,
}

/// The port that `text` denotes, or `fallback` where there is no text or it
/// denotes no port.
pub open spec fn port_or(text: Option<Seq<u8>>, fallback: u16) -> u16 {
    match text {
        Some(text) => match parsed_u64(text) {
            Some(number) => if number <= u16::MAX {
                number as u16
            } else {
                fallback
            },
            None => fallback,
        },
        None => fallback,
    }
}

/// Reads a port, with a fallback.
pub fn read_port(text: &Option<String>, fallback: u16) -> (port: u16)
    ensures
        port == port_or(
            match *text {
                Some(text) => Some(encode_utf8(text@)),
                None => None,
            },
            fallback,
        ),
{
    match text {
        Some(text) => match parse_u64(text.as_str().as_bytes()) {
            Some(number) => if number <= 65535 {
                number as u16
            } else {
                fallback
            },
            None => fallback,
        },
        None => fallback,
    }
}

/// A value that is set, or the text that stands in for it.
fn text_or(value: Option<String>, fallback: &str) -> (text: String)
    ensures
        text@ == match value {
            Some(value) => value@,
            None => fallback@,
        },
{
    match value {
        Some(value) => value,
        None => String::from_str(fallback),
    }
}

impl Default for AppConfig {
    /// The settings where nothing is set.
    fn default() -> (config: Self)
        ensures
            config.mcp_api_url@ == "https://api.dazno.de"@,
            config.mcp_api_key is None,
            config.lnd_host@ == "localhost"@,
            config.lnd_port == DEFAULT_LND_PORT,
            config.lnd_macaroon_path@ == "/lnd/admin.macaroon"@,
            config.lnd_tls_cert_path@ == "/lnd/tls.cert"@,
            config.server_port == DEFAULT_SERVER_PORT,
    {
        AppConfig {
            mcp_api_url: String::from_str("https://api.dazno.de"),
            mcp_api_key: None,
            lnd_host: String::from_str("localhost"),
            lnd_port: DEFAULT_LND_PORT,
            lnd_macaroon_path: String::from_str("/lnd/admin.macaroon"),
            lnd_tls_cert_path: String::from_str("/lnd/tls.cert"),
            server_port: DEFAULT_SERVER_PORT,
        }
    }
}

impl AppConfig {
    /// The settings for what is set in the environment: each value that is
    /// set is taken, each that is missing falls back to the default, and so
    /// does a port that is no number between 0 and 65535.
    pub fn from_values(values: ConfigValues) -> (config: Self)
        ensures
            config.mcp_api_url@ == match values.mcp_api_url {
                Some(url) => url@,
                None => "https://api.dazno.de"@,
            },
            match values.mcp_api_key {
                Some(key) => config.mcp_api_key matches Some(kept) && kept@ == key@,
                None => config.mcp_api_key is None,
            },
            config.lnd_host@ == match values.lnd_host {
                Some(host) => host@,
                None => "localhost"@,
            },
            config.lnd_port == port_or(
                match values.lnd_port {
                    Some(text) => Some(encode_utf8(text@)),
                    None => None,
                },
                DEFAULT_LND_PORT,
            ),
            config.lnd_macaroon_path@ == match values.lnd_macaroon_path {
                Some(path) => path@,
                None => "/lnd/admin.macaroon"@,
            },
            config.lnd_tls_cert_path@ == match values.lnd_tls_cert_path {
                Some(path) => path@,
                None => "/lnd/tls.cert"@,
            },
            config.server_port == port_or(
                match values.server_port {
                    Some(text) => Some(encode_utf8(text@)),
                    None => None,
                },
                DEFAULT_SERVER_PORT,
            ),
    {
        let lnd_port = read_port(&values.lnd_port, DEFAULT_LND_PORT);
        let server_port = read_port(&values.server_port, DEFAULT_SERVER_PORT);
        AppConfig {
            mcp_api_url: text_or(values.mcp_api_url, "https://api.dazno.de"),
            mcp_api_key: values.mcp_api_key,
            lnd_host: text_or(values.lnd_host, "localhost"),
            lnd_port,
            lnd_macaroon_path: text_or(values.lnd_macaroon_path, "/lnd/admin.macaroon"),
            lnd_tls_cert_path: text_or(values.lnd_tls_cert_path, "/lnd/tls.cert"),
            server_port,
        }
    }
}

} // verus!
