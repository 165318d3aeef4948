//! Starting the agent with Windows: where it is installed and what the
//! settings ask of the registry.
use vstd::prelude::*;

use crate::config::{is_path_join, is_verbatim, join_path};

verus! {

/// What the registry's autostart entry should become.
#[derive(Clone, Copy, Debug, PartialEq, Eq, Structural)]
pub enum AutostartPlan {
    /// Point the entry at the installed executable, copying the executable
    /// and its settings there first when `install` is set.
    Enable { install: bool },
    /// Remove the entry.
    Disable,
}

/// What the registry should become when autostart is `autostart`: enabled,
/// with an installation first unless the agent already runs from its
/// installed location; or removed.
pub fn plan_autostart(autostart: bool, runs_from_install_dir: bool) -> (p: AutostartPlan)
    ensures
        autostart ==> p == (AutostartPlan::Enable { install: !runs_from_install_dir }),
        !autostart ==> p == AutostartPlan::Disable,
{
    if autostart {
        AutostartPlan::Enable { install: !runs_from_install_dir }
    } else {
        AutostartPlan::Disable
    }
}

/// The path of the installed executable `kuma_agent.exe` in the
/// application data directory `app_data_dir`.
pub fn installed_exe_path(app_data_dir: &str) -> (p: String)
    ensures
        !is_verbatim(app_data_dir@) ==> is_path_join(p@, app_data_dir@, "kuma_agent.exe"@),
{
    proof {
        reveal_strlit("kuma_agent.exe");
        reveal_strlit(".");
        reveal_strlit("..");
    }
    join_path(app_data_dir, "kuma_agent.exe")
}

} // verus!
