//! The standalone configuration file: the Git remote and the
//! synchronisation settings, kept outside the vault because they need no
//! encryption.

use vstd::prelude::*;
use vstd::string::*;
use crate::models::SyncConfig;
use crate::text::path_exists;

verus! {

/// What the configuration file holds.
#[derive(Debug, Clone)]
pub struct SyncConfigFile {
    pub remote_url: Option<String>,
    pub sync_config: Option<SyncConfig>,
}

/// The mathematical content of a `SyncConfigFile`.
pub ghost struct SyncConfigFileView {
    pub remote_url: Option<Seq<char>>,
    pub sync_config: Option<SyncConfig>,
}

impl DeepView for SyncConfigFile {
    type V = SyncConfigFileView;

    open spec fn deep_view(&self) -> SyncConfigFileView {
        SyncConfigFileView {
            remote_url: self.remote_url.deep_view(),
            sync_config: self.sync_config,
        }
    }
}

impl Default for SyncConfigFile {
    /// The configuration of a missing file: no remote, no settings.
    fn default() -> (r: Self)
        ensures
            r.deep_view() == (SyncConfigFileView { remote_url: None, sync_config: None }),
    {
        SyncConfigFile { remote_url: None, sync_config: None }
    }
}

/// Where the configuration file lives.
pub struct ConfigManager {
    config_path: String,
}

impl View for ConfigManager {
    type V = Seq<char>;

    closed spec fn view(&self) -> Seq<char> {
        self.config_path@
    }
}

impl ConfigManager {
    /// A manager for the configuration file at `path`.
    pub fn with_path(path: &str) -> (r: Self)
        ensures
            r@ == path@,
    {
        ConfigManager { config_path: String::from_str(path) }
    }

    /// The path of the configuration file.
    pub fn path(&self) -> (r: &str)
        ensures
            r@ == self@,
    {
        self.config_path.as_str()
    }

    /// Whether the configuration file exists. The answer is the file
    /// system's.
    pub fn file_exists(&self) -> (r: bool) {
        path_exists(self.config_path.as_str())
    }

    /// The configuration to write back after the remote URL changed to
    /// `url`: `config` as it was loaded, with the new URL.
    pub fn update_remote_url(&self, config: SyncConfigFile, url: Option<String>) -> (r:
        SyncConfigFile)
        ensures
            r.deep_view() == (SyncConfigFileView {
                remote_url: url.deep_view(),
                sync_config: config.sync_config,
            }),
    {
        SyncConfigFile { remote_url: url, sync_config: config.sync_config }
    }

    /// The configuration to write back after the synchronisation settings
    /// changed to `sync_config`: `config` as it was loaded, with the new
    /// settings.
    pub fn update_sync_config(&self, config: SyncConfigFile, sync_config: Option<SyncConfig>) -> (r:
        SyncConfigFile)
        ensures
            r.deep_view() == (SyncConfigFileView {
                remote_url: config.remote_url.deep_view(),
                sync_config,
            }),
    {
        SyncConfigFile { remote_url: config.remote_url, sync_config }
    }
}

} // verus!
