//! The client's configuration: server connection, output and display
//! preferences.

use vstd::prelude::*;

verus! {

/// Connection settings.
#[derive(Debug, Clone, PartialEq, Eq)]
pub struct ServerConfig {
    pub url: String,
    pub api_key: String,
}

/// Output preferences; `format` is unset until configured.
#[derive(Debug, Clone, PartialEq, Eq)]
pub struct OutputConfig {
    pub format: Option<String>,
}

/// Display preferences; `no_color` is unset until configured.
#[derive(Debug, Clone, PartialEq, Eq)]
pub struct DisplayConfig {
    pub no_color: Option<bool>,
}

/// The whole configuration file.
#[derive(Debug, Clone, PartialEq, Eq)]
pub struct AppConfig {
    pub server: ServerConfig,
    pub output: OutputConfig,
    pub display: DisplayConfig,
}

impl AppConfig {
    /// A configuration for `url` and `api_key` with every preference unset.
    pub fn new(url: String, api_key: String) -> (c: Self)
        ensures
            c.server.url == url,
            c.server.api_key == api_key,
            c.output.format is None,
            c.display.no_color is None,
    {
        AppConfig {
            server: ServerConfig { url, api_key },
            output: OutputConfig { format: None },
            display: DisplayConfig { no_color: None },
        }
    }
}

} // verus!
