//! Configuration for the presence plugin.

use vstd::prelude::*;

verus! {

/// Configuration for the RPC plugin.
#[derive(Debug, Copy, Clone, PartialEq, Eq, Structural)]
pub struct RPCConfig {
    /// The Discord application ID.
    pub app_id: u64,
    /// Whether to show the current time in the activity.
    pub show_time: bool,
}

/// The application ID used when no configuration is supplied.
pub const DEFAULT_APP_ID: u64 = 425407036495495169;

impl Default for RPCConfig {
    /// The default configuration: the stock application ID, with the
    /// elapsed-time marker switched on.
    fn default() -> (r: Self)
        ensures
            r.app_id == DEFAULT_APP_ID,
            r.show_time,
    {
        Self { app_id: DEFAULT_APP_ID, show_time: true }
    }
}

/// The main RPC plugin.
///
/// The vital field is `app_id`: the Discord interactions cannot work
/// without it.
pub struct RPCPlugin {
    /// The Discord config used by the plugin.
    pub config: RPCConfig,
}

impl RPCPlugin {
    /// Create a new plugin instance from config values.
    pub fn new(app_id: u64, show_time: bool) -> (r: Self)
        ensures
            r.config.app_id == app_id,
            r.config.show_time == show_time,
    {
        Self { config: RPCConfig { app_id, show_time } }
    }

    /// Create a new plugin instance from the given config.
    ///
    /// Alias of [`RPCPlugin::from`].
    pub fn from_config(config: RPCConfig) -> (r: Self)
        ensures
            r.config == config,
    {
        Self::from(config)
    }
}

impl From<RPCConfig> for RPCPlugin {
    fn from(config: RPCConfig) -> (r: Self)
        ensures
            r.config == config,
    {
        Self { config }
    }
}

impl vstd::std_specs::convert::FromSpecImpl<RPCConfig> for RPCPlugin {
    open spec fn obeys_from_spec() -> bool {
        true
    }

    open spec fn from_spec(config: RPCConfig) -> Self {
        RPCPlugin { config }
    }
}

} // verus!
