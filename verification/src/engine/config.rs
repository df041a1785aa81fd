//! The settings a fresh install starts with. Resolving the config directory and reading and
//! writing the files in it are the caller's part.
use vstd::prelude::*;

use crate::protocol::settings::Settings;

verus! {

/// Default listen port.
pub const DEFAULT_PORT: u16 = 47654;

/// The settings a fresh install starts with: the default port, the machine's name, shell
/// actions off (only the panel can switch them on), telemetry on every second, and auto-start.
pub fn default_settings(host_name: String) -> (r: Settings)
    ensures
        r.port == DEFAULT_PORT,
        r.host_name == host_name,
        !r.shell_actions_enabled,
        r.telemetry_enabled,
        r.telemetry_interval_ms == 1000,
        r.autostart,
{
    Settings {
        port: DEFAULT_PORT,
        host_name,
        shell_actions_enabled: false,
        telemetry_enabled: true,
        telemetry_interval_ms: 1000,
        autostart: true,
    }
}

} // verus!
