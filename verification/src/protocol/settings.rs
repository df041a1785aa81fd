//! Engine settings.
use vstd::prelude::*;

verus! {

/// The full settings object, as returned by `settings.get`.
#[derive(Debug, PartialEq, Eq)]
pub struct Settings {
    pub port: u16,
    pub host_name: String,
    pub shell_actions_enabled: bool,
    pub telemetry_enabled: bool,
    pub telemetry_interval_ms: u32,
    pub autostart: bool,
}

/// Settings as plain values.
pub struct SettingsView {
    pub port: u16,
    pub host_name: Seq<char>,
    pub shell_actions_enabled: bool,
    pub telemetry_enabled: bool,
    pub telemetry_interval_ms: u32,
    pub autostart: bool,
}

impl View for Settings {
    type V = SettingsView;

    open spec fn view(&self) -> SettingsView {
        SettingsView {
            port: self.port,
            host_name: self.host_name@,
            shell_actions_enabled: self.shell_actions_enabled,
            telemetry_enabled: self.telemetry_enabled,
            telemetry_interval_ms: self.telemetry_interval_ms,
            autostart: self.autostart,
        }
    }
}

impl Clone for Settings {
    fn clone(&self) -> (r: Self)
        ensures
            r@ == self@,
    {
        Settings {
            port: self.port,
            host_name: self.host_name.clone(),
            shell_actions_enabled: self.shell_actions_enabled,
            telemetry_enabled: self.telemetry_enabled,
            telemetry_interval_ms: self.telemetry_interval_ms,
            autostart: self.autostart,
        }
    }
}

/// The settings a patch leaves: present keys replaced, absent keys untouched.
pub open spec fn apply_patch(patch: SettingsPatch, s: SettingsView) -> SettingsView {
    SettingsView {
        port: patched(patch.port, s.port),
        host_name: match patch.host_name {
            Some(h) => h@,
            None => s.host_name,
        },
        shell_actions_enabled: patched(patch.shell_actions_enabled, s.shell_actions_enabled),
        telemetry_enabled: patched(patch.telemetry_enabled, s.telemetry_enabled),
        telemetry_interval_ms: patched(patch.telemetry_interval_ms, s.telemetry_interval_ms),
        autostart: patched(patch.autostart, s.autostart),
    }
}

/// `settings.set` request: only the keys present are changed.
#[derive(Debug, Clone, PartialEq, Eq, Default)]
pub struct SettingsPatch {
    pub port: Option<u16>,
    pub host_name: Option<String>,
    pub shell_actions_enabled: Option<bool>,
    pub telemetry_enabled: Option<bool>,
    pub telemetry_interval_ms: Option<u32>,
    pub autostart: Option<bool>,
}

/// The value a patch field leaves: the new one when present, the old one otherwise.
pub open spec fn patched<T>(new: Option<T>, old: T) -> T {
    match new {
        Some(v) => v,
        None => old,
    }
}

impl SettingsPatch {
    /// Only `port` needs a daemon restart to take effect.
    pub fn requires_restart(&self) -> (r: bool)
        ensures
            r == self.port is Some,
    {
        self.port.is_some()
    }

    /// The settings after this patch: present keys replaced, absent keys untouched.
    pub fn apply_to(&self, settings: &Settings) -> (r: Settings)
        ensures
            r@ == apply_patch(*self, settings@),
            r.port == patched(self.port, settings.port),
            r.host_name@ == match self.host_name {
                Some(h) => h@,
                None => settings.host_name@,
            },
            r.shell_actions_enabled == patched(
                self.shell_actions_enabled,
                settings.shell_actions_enabled,
            ),
            r.telemetry_enabled == patched(self.telemetry_enabled, settings.telemetry_enabled),
            r.telemetry_interval_ms == patched(
                self.telemetry_interval_ms,
                settings.telemetry_interval_ms,
            ),
            r.autostart == patched(self.autostart, settings.autostart),
    {
        Settings {
            port: match self.port {
                Some(p) => p,
                None => settings.port,
            },
            host_name: match &self.host_name {
                Some(h) => h.clone(),
                None => settings.host_name.clone(),
            },
            shell_actions_enabled: match self.shell_actions_enabled {
                Some(v) => v,
                None => settings.shell_actions_enabled,
            },
            telemetry_enabled: match self.telemetry_enabled {
                Some(v) => v,
                None => settings.telemetry_enabled,
            },
            telemetry_interval_ms: match self.telemetry_interval_ms {
                Some(v) => v,
                None => settings.telemetry_interval_ms,
            },
            autostart: match self.autostart {
                Some(v) => v,
                None => settings.autostart,
            },
        }
    }
}

#[derive(Debug, Clone, Copy, PartialEq, Eq)]
pub struct SettingsSetResponse {
    pub restart_required: bool,
}

} // verus!
