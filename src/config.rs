//! Settings: the command line's options and the configuration file's values.
//!
//! The program merges built-in defaults, the configuration file and the
//! command line into one `Config`; this module holds the types and defaults.
use vstd::prelude::*;

verus! {

/// Where a restored window is placed.
#[derive(Clone, Copy, Debug, PartialEq, Eq, Structural)]
pub enum RestoreTarget {
    /// The workspace the user is on now.
    Active,
    /// The workspace the window was minimized from.
    Original,
}

/// The command line's options.
#[derive(Clone, Debug)]
pub struct Args {
    pub launcher: Option<String>,
    pub window_address: Option<String>,
    pub restore_to: Option<RestoreTarget>,
    pub stack_base_directory: Option<String>,
    pub workspace: Option<String>,
    pub poll_interval_seconds: Option<u64>,
    pub auto_unminimize_on_focus: bool,
    pub restore_last: bool,
    pub generate_config_file: bool,
    pub menu: bool,
}

/// The settings in effect.
#[derive(Clone, Debug)]
pub struct Config {
    pub launcher: Option<String>,
    pub stack_base_directory: Option<String>,
    pub workspace: Option<String>,
    pub restore_to: Option<RestoreTarget>,
    pub poll_interval_ms: Option<u64>,
    pub auto_unminimize_on_focus: Option<bool>,
}

/// The launcher used when none is configured.
pub fn default_launcher() -> (r: String)
    ensures
        r@ == "wofi -dmenu"@,
{
    String::from_str("wofi -dmenu")
}

/// The directory of the stack file when none is configured.
pub fn default_stack_base_directory() -> (r: String)
    ensures
        r@ == "/tmp"@,
{
    String::from_str("/tmp")
}

/// The workspace that holds minimized windows when none is configured.
pub fn default_workspace() -> (r: String)
    ensures
        r@ == "special:minimized"@,
{
    String::from_str("special:minimized")
}

/// Restored windows go to the active workspace unless configured otherwise.
pub fn default_restore_target() -> (r: RestoreTarget)
    ensures
        r == RestoreTarget::Active,
{
    RestoreTarget::Active
}

/// The interval of the window-state poll, in milliseconds, when none is
/// configured.
pub fn default_poll_interval() -> (r: u64)
    ensures
        r == 2000,
{
    2000
}

/// Whether focusing a minimized window restores it, when not configured.
pub fn default_unminimize_on_focus() -> (r: bool)
    ensures
        r == false,
{
    false
}

impl Default for Config {
    fn default() -> (r: Config)
        ensures
            r.launcher matches Some(l) && l@ == "wofi -dmenu"@,
            r.stack_base_directory matches Some(d) && d@ == "/tmp"@,
            r.workspace matches Some(w) && w@ == "special:minimized"@,
            r.restore_to == Some(RestoreTarget::Active),
            r.poll_interval_ms == Some(2000u64),
            r.auto_unminimize_on_focus == Some(false),
    {
        Config {
            launcher: Some(default_launcher()),
            stack_base_directory: Some(default_stack_base_directory()),
            workspace: Some(default_workspace()),
            restore_to: Some(default_restore_target()),
            poll_interval_ms: Some(default_poll_interval()),
            auto_unminimize_on_focus: Some(default_unminimize_on_focus()),
        }
    }
}

impl Config {
    /// Where restored windows go: the configured target, else the default.
    pub fn restore_target(&self) -> (r: RestoreTarget)
        ensures
            r == match self.restore_to {
                Some(t) => t,
                None => RestoreTarget::Active,
            },
    {
        match self.restore_to {
            Some(t) => t,
            None => default_restore_target(),
        }
    }

    /// The workspace that holds minimized windows: the configured one, else
    /// the default.
    pub fn minimized_workspace(&self) -> (r: String)
        ensures
            r@ == match self.workspace {
                Some(w) => w@,
                None => "special:minimized"@,
            },
    {
        match &self.workspace {
            Some(w) => w.clone(),
            None => default_workspace(),
        }
    }

    /// The interval of the window-state poll in milliseconds: the configured
    /// one, else the default.
    pub fn poll_interval(&self) -> (r: u64)
        ensures
            r == match self.poll_interval_ms {
                Some(p) => p,
                None => 2000,
            },
    {
        match self.poll_interval_ms {
            Some(p) => p,
            None => default_poll_interval(),
        }
    }
}

} // verus!
