//! User preferences of the sync client.

use vstd::prelude::*;
use vstd::string::StringExecFns;

verus! {

/// Which kinds of content take part in synchronisation.
#[derive(Debug, Clone)]
pub struct SyncTypes {
    pub text: bool,
    pub screenshot: bool,
    pub file: bool,
}

/// Keyboard shortcuts, in the accelerator syntax of the shell that hosts the engine.
#[derive(Debug, Clone)]
pub struct Shortcuts {
    pub manual_sync: String,
    pub toggle_window: String,
}

/// Application configuration.
#[derive(Debug, Clone)]
pub struct AppConfig {
    /// Base address of the remote store.
    pub server_url: String,
    /// Whether the periodic pull starts enabled.
    pub auto_sync: bool,
    /// Seconds between two periodic pulls.
    pub sync_interval: u64,
    /// Whether the client starts with the system.
    pub auto_start: bool,
    pub sync_types: SyncTypes,
    pub shortcuts: Shortcuts,
}

impl AppConfig {
    /// The values a fresh installation starts with.
    pub open spec fn is_default(&self) -> bool {
        &&& self.server_url@ == "https://gcopy.llaoj.cn"@
        &&& self.auto_sync
        &&& self.sync_interval == 3
        &&& !self.auto_start
        &&& self.sync_types.text
        &&& self.sync_types.screenshot
        &&& self.sync_types.file
        &&& self.shortcuts.manual_sync@ == "CmdOrCtrl+Shift+V"@
        &&& self.shortcuts.toggle_window@ == "CmdOrCtrl+Shift+G"@
    }
}

impl Default for AppConfig {
    fn default() -> (config: AppConfig)
        ensures
            config.is_default(),
    {
        AppConfig {
            server_url: String::from_str("https://gcopy.llaoj.cn"),
            auto_sync: true,
            sync_interval: 3,
            auto_start: false,
            sync_types: SyncTypes { text: true, screenshot: true, file: true },
            shortcuts: Shortcuts {
                manual_sync: String::from_str("CmdOrCtrl+Shift+V"),
                toggle_window: String::from_str("CmdOrCtrl+Shift+G"),
            },
        }
    }
}

} // verus!
