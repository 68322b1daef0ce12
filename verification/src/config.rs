//! Settings of the service, built once at start-up and handed by reference
//! to whatever needs them.

use vstd::prelude::*;
use vstd::string::*;

verus! {

pub struct ServerConfig {
    pub port: u16,
    pub database_url: String,
    pub register_enabled: bool,
    pub max_file_size_bytes: u64,
    pub file_name_length: u8,
    pub base_url: String,
}

/// What the pipeline reads of the settings.
pub struct ConfigView {
    pub max_file_size_bytes: u64,
    pub file_name_length: u8,
    pub base_url: Seq<char>,
}

impl View for ServerConfig {
    type V = ConfigView;

    open spec fn view(&self) -> ConfigView {
        ConfigView {
            max_file_size_bytes: self.max_file_size_bytes,
            file_name_length: self.file_name_length,
            base_url: self.base_url@,
        }
    }
}

/// The part of the settings that any client may read.
#[derive(Clone, Copy, Debug, PartialEq, Eq, Structural)]
pub struct Settings {
    pub register_enabled: bool,
    pub max_file_size_bytes: u64,
}

impl Default for ServerConfig {
    fn default() -> (cfg: Self)
        ensures
            cfg.port == 7000,
            cfg.database_url@ == Seq::<char>::empty(),
            cfg.register_enabled,
            cfg.max_file_size_bytes == 100_000_000,
            cfg.file_name_length == 12,
            cfg.base_url@ == "http://localhost:7000"@,
    {
        ServerConfig {
            port: 7000,
            database_url: String::new(),
            register_enabled: true,
            max_file_size_bytes: 100_000_000,
            file_name_length: 12,
            base_url: String::from_str("http://localhost:7000"),
        }
    }
}

impl ServerConfig {
    /// A configuration can be served from once it names a database.
    pub fn is_filled(&self) -> (filled: bool)
        ensures
            filled == (self.database_url@.len() > 0),
    {
        !self.database_url.as_str().is_empty()
    }
}

/// The public settings of `cfg`.
pub fn return_settings(cfg: &ServerConfig) -> (settings: Settings)
    ensures
        settings.register_enabled == cfg.register_enabled,
        settings.max_file_size_bytes == cfg.max_file_size_bytes,
{
    Settings {
        register_enabled: cfg.register_enabled,
        max_file_size_bytes: cfg.max_file_size_bytes,
    }
}

} // verus!
