//! The runtime's configuration: vault mounts, event wiring, internals,
//! and the plugins to load.

use vstd::prelude::*;

verus! {

/// One vault: a named root directory of documents.
#[derive(Debug, Clone, PartialEq, Eq)]
pub struct VaultConfig {
    /// The directory the vault is mounted from.
    pub mount: String,
    /// The plugins enabled for this vault.
    pub plugins: Vec<String>,
}

/// Internal paths of the runtime.
#[derive(Debug, Clone, PartialEq, Eq)]
pub struct Internals {
    /// Where the embedded store keeps its data.
    pub database_path: String,
}

/// One plugin to load.
#[derive(Debug, Clone, PartialEq, Eq)]
pub struct PluginConfig {
    pub name: String,
    /// A headless plugin exposes no views.
    pub headless: bool,
    /// Where the plugin's module comes from.
    pub uri: String,
    pub remote: Option<RemoteConfig>,
}

/// Presentation metadata of a remotely distributed plugin.
#[derive(Debug, Clone, PartialEq, Eq)]
pub struct RemoteConfig {
    pub friendly_name: String,
    pub description: String,
    pub icon: String,
    pub documentation: Option<String>,
}

/// Where an event originates.
#[derive(Debug, Clone, PartialEq, Eq)]
pub enum EventSource {
    Cron(String),
    Plugin(String),
}

/// An application mount of the presentation layer.
#[derive(Debug, Clone, PartialEq, Eq)]
pub struct AppConfig {
    pub mount: String,
    pub plugins: Vec<String>,
}

/// The runtime's configuration.
#[derive(Debug, Clone, PartialEq, Eq)]
pub struct Config {
    /// The vaults, keyed by name; names are unique.
    pub vaults: Vec<(String, VaultConfig)>,
    /// Event wiring, keyed by event name.
    pub events: Vec<(String, Vec<String>)>,
    pub internals: Internals,
    pub plugins: Vec<PluginConfig>,
}

impl Config {
    /// Check the configuration's dependency wiring. Every configuration
    /// passes: dependency validation is not yet enforced.
    pub fn validate(&self) -> (r: Result<(), String>)
        ensures
            r is Ok,
    {
        Ok(())
    }
}

/// One configured plugin, from its config-file entry: a missing
/// `headless` flag means not headless, and the remote descriptor only
/// ever comes from a remote source later.
pub fn plugin_config_from_entry(name: String, headless: Option<bool>, uri: String) -> (r:
    PluginConfig)
    ensures
        r.name == name,
        r.uri == uri,
        r.headless == (headless matches Some(true)),
        r.remote is None,
{
    PluginConfig {
        name,
        headless: match headless {
            Some(b) => b,
            None => false,
        },
        uri,
        remote: None,
    }
}

} // verus!
