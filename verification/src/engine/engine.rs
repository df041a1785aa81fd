//! The engine's shared state: identity, settings, the device registry, the pairing window, the
//! live connections, the layouts and the named actions. The caller holds it behind a lock and
//! writes back whatever a request changed.
use vstd::prelude::*;

use crate::engine::actions::{actions_delete_contract, actions_set_contract, ActionStore};
use crate::engine::error::{is_wire_error, EngineError};
use crate::engine::identity::Identity;
use crate::engine::pairing::PairingWindow;
use crate::engine::registry::{
    contains_id, ids_of, is_device_listing, registry_insert_contract, registry_touch_contract,
    Registry, StoredDeviceView,
};
use crate::engine::session::{HandshakeFacts, IpAddress};
use crate::engine::store::{
    active_id_spec, store_activate_contract, store_delete_contract, store_set_contract, Store,
    StoreView,
};
use crate::input::{BackendCapabilities, InputError};
use crate::protocol::action::{Action, ActionView};
use crate::protocol::profile::Profile;
use crate::protocol::envelope::ErrorCode;
use crate::protocol::pairing::{DeviceInfo, TTL_MAX_SECONDS, TTL_MIN_SECONDS};
use crate::protocol::session::{Capabilities, HostPlatform, Platform, Role};
use crate::protocol::settings::{apply_patch, Settings, SettingsPatch, SettingsView};
use crate::text::{decimal, decimal_spec, owned, str_eq};

verus! {

/// A pairing window as plain values.
pub struct WindowView {
    pub code: Seq<char>,
    pub expires_at: i64,
    pub ttl: u32,
}

pub open spec fn window_view(w: PairingWindow) -> WindowView {
    WindowView { code: w.code_spec(), expires_at: w.expires_at_spec(), ttl: w.ttl_spec() }
}

/// The engine's state as plain values.
pub struct EngineView {
    pub identity: Identity,
    pub settings: SettingsView,
    pub devices: Map<Seq<char>, StoredDeviceView>,
    pub pairing: Option<WindowView>,
    pub connected: Set<Seq<char>>,
    pub store: StoreView,
    pub actions: Map<Seq<char>, ActionView>,
    pub port: u16,
    pub engine_version: Seq<char>,
    pub host_platform: HostPlatform,
}

/// What this host can actually do right now. A backend that fails its preflight reports
/// nothing available, whatever it claims: on a host with no input access every input button
/// should be visibly dead rather than optimistically enabled.
pub open spec fn capabilities_spec(usable: bool, backend: BackendCapabilities, shell: bool) -> Capabilities {
    Capabilities {
        text_unicode: usable && backend.text_unicode,
        media_keys: usable && backend.media_keys,
        mouse: usable && backend.mouse,
        shell_actions: shell,
    }
}

/// What the handshake sees of this engine, given the input backend's state.
pub open spec fn handshake_facts(e: EngineView, usable: bool, backend: BackendCapabilities) -> HandshakeFacts {
    HandshakeFacts {
        host_id: e.identity.host_id_spec(),
        admin_token: e.identity.admin_token_spec(),
        devices: e.devices,
        host_name: e.settings.host_name,
        engine_version: e.engine_version,
        active_profile_id: active_id_spec(e.store),
        host_platform: e.host_platform,
        capabilities: capabilities_spec(usable, backend, e.settings.shell_actions_enabled),
    }
}

/// Dotted-quad text of an IPv4 address.
pub open spec fn ipv4_text(o: Seq<u8>) -> Seq<char> {
    decimal_spec(o[0] as nat) + "."@ + decimal_spec(o[1] as nat) + "."@ + decimal_spec(o[2] as nat)
        + "."@ + decimal_spec(o[3] as nat)
}

/// The first interface address that is IPv4 and not loopback, if any.
pub open spec fn first_lan_ipv4(ifaces: Seq<IpAddress>) -> Option<int> {
    if exists|i: int|
        0 <= i < ifaces.len() && #[trigger] lan_ipv4_at(ifaces, i) && forall|j: int|
            0 <= j < i ==> !#[trigger] lan_ipv4_at(ifaces, j) {
        Some(
            choose|i: int|
                0 <= i < ifaces.len() && #[trigger] lan_ipv4_at(ifaces, i) && forall|j: int|
                    0 <= j < i ==> !#[trigger] lan_ipv4_at(ifaces, j),
        )
    } else {
        None
    }
}

/// Interface `i` is an IPv4 address other than loopback.
pub open spec fn lan_ipv4_at(ifaces: Seq<IpAddress>, i: int) -> bool {
    ifaces[i] matches IpAddress::V4(o) && o@[0] != 127
}

/// `<ip>:<port>` for the QR payload: the first non-loopback IPv4 interface address, or
/// `127.0.0.1` when there is none, which is useless for a real phone but keeps the payload
/// well-formed rather than empty.
pub open spec fn advertised_addr_spec(ifaces: Seq<IpAddress>, port: u16) -> Seq<char> {
    let ip = match first_lan_ipv4(ifaces) {
        Some(i) => match ifaces[i] {
            IpAddress::V4(o) => ipv4_text(o@),
            IpAddress::V6(_) => "127.0.0.1"@,
        },
        None => "127.0.0.1"@,
    };
    ip + ":"@ + decimal_spec(port as nat)
}

/// The index of the first non-loopback IPv4 interface address, if any.
fn first_lan(ifaces: &[IpAddress]) -> (r: Option<usize>)
    ensures
        match r {
            Some(k) => first_lan_ipv4(ifaces@) == Some(k as int),
            None => first_lan_ipv4(ifaces@) is None,
        },
{
    let mut i: usize = 0;
    while i < ifaces.len()
        invariant
            i <= ifaces@.len(),
            forall|j: int| 0 <= j < i ==> !#[trigger] lan_ipv4_at(ifaces@, j),
        decreases ifaces@.len() - i,
    {
        let lan = match ifaces[i] {
            IpAddress::V4(o) => o[0] != 127,
            IpAddress::V6(_) => false,
        };
        if lan {
            proof {
                let k = i as int;
                assert(lan_ipv4_at(ifaces@, k));
                let w = choose|w: int|
                    0 <= w < ifaces@.len() && #[trigger] lan_ipv4_at(ifaces@, w) && forall|j: int|
                        0 <= j < w ==> !#[trigger] lan_ipv4_at(ifaces@, j);
                if w < k {
                    assert(!lan_ipv4_at(ifaces@, w));
                }
                if k < w {
                    assert(!lan_ipv4_at(ifaces@, k));
                }
            }
            return Some(i);
        }
        i = i + 1;
    }
    None
}

/// The address a phone should dial, from the host's interface addresses.
pub fn advertised_addr(ifaces: &[IpAddress], port: u16) -> (r: String)
    ensures
        r@ == advertised_addr_spec(ifaces@, port),
{
    let mut s = match first_lan(ifaces) {
        Some(k) => match ifaces[k] {
            IpAddress::V4(o) => {
                let mut t = decimal(o[0] as u64);
                t.append(".");
                t.append(decimal(o[1] as u64).as_str());
                t.append(".");
                t.append(decimal(o[2] as u64).as_str());
                t.append(".");
                t.append(decimal(o[3] as u64).as_str());
                t
            },
            IpAddress::V6(_) => owned("127.0.0.1"),
        },
        None => owned("127.0.0.1"),
    };
    s.append(":");
    s.append(decimal(port as u64).as_str());
    s
}

/// State shared by every socket, plus the identity and settings loaded at startup.
pub struct Engine {
    identity: Identity,
    settings: Settings,
    registry: Registry,
    pairing: Option<PairingWindow>,
    /// Device IDs with a live authenticated socket right now. Not persisted.
    connected: Vec<String>,
    store: Store,
    actions: ActionStore,
    /// The port actually bound, which differs from the configured one when binding to 0.
    port: u16,
    engine_version: String,
    host_platform: HostPlatform,
}

impl View for Engine {
    type V = EngineView;

    closed spec fn view(&self) -> EngineView {
        EngineView {
            identity: self.identity,
            settings: self.settings@,
            devices: self.registry@,
            pairing: match self.pairing {
                Some(w) => Some(window_view(w)),
                None => None,
            },
            connected: ids_of(self.connected@),
            store: self.store@,
            actions: self.actions@,
            port: self.port,
            engine_version: self.engine_version@,
            host_platform: self.host_platform,
        }
    }
}

pub open spec fn preflight_spec(preflight: Result<(), InputError>) -> Result<(), (ErrorCode, Seq<char>)> {
    match preflight {
        Ok(()) => Ok(()),
        Err(e) => Err((ErrorCode::InjectionFailed, e.message_spec())),
    }
}

impl Engine {
    /// The engine over the state loaded at startup, with no pairing window and nothing
    /// connected.
    pub fn new(
        identity: Identity,
        settings: Settings,
        registry: Registry,
        store: Store,
        actions: ActionStore,
        engine_version: String,
        host_platform: HostPlatform,
    ) -> (r: Self)
        ensures
            r@.identity == identity,
            r@.settings == settings@,
            r@.devices == registry@,
            r@.pairing is None,
            r@.connected == Set::<Seq<char>>::empty(),
            r@.store == store@,
            r@.actions == actions@,
            r@.port == settings.port,
            r@.engine_version == engine_version@,
            r@.host_platform == host_platform,
    {
        let port = settings.port;
        let r = Engine {
            identity,
            settings,
            registry,
            pairing: None,
            connected: Vec::new(),
            store,
            actions,
            port,
            engine_version,
            host_platform,
        };
        assert(ids_of(r.connected@) =~= Set::<Seq<char>>::empty());
        r
    }

    pub fn identity(&self) -> (r: &Identity)
        ensures
            *r == self@.identity,
    {
        &self.identity
    }

    pub fn settings(&self) -> (r: Settings)
        ensures
            r@ == self@.settings,
    {
        self.settings.clone()
    }

    pub fn host_name(&self) -> (r: String)
        ensures
            r@ == self@.settings.host_name,
    {
        self.settings.host_name.clone()
    }

    pub fn port(&self) -> (r: u16)
        ensures
            r == self@.port,
    {
        self.port
    }

    pub fn set_bound_port(&mut self, port: u16)
        ensures
            final(self)@ == (EngineView { port, ..old(self)@ }),
    {
        self.port = port;
    }

    /// Replaces the settings. Writing `settings.json` is the caller's part.
    pub fn update_settings(&mut self, settings: Settings)
        ensures
            final(self)@ == (EngineView { settings: settings@, ..old(self)@ }),
    {
        self.settings = settings;
    }

    pub fn engine_version(&self) -> (r: &str)
        ensures
            r@ == self@.engine_version,
    {
        self.engine_version.as_str()
    }

    pub fn host_platform(&self) -> (r: HostPlatform)
        ensures
            r == self@.host_platform,
    {
        self.host_platform
    }

    /// What this build can actually do right now, given whether the input backend passes its
    /// preflight and what it claims to support. Reported in the `Ready` payload so a client
    /// greys out buttons rather than watching them fail at press time.
    pub fn capabilities(&self, usable: bool, backend: BackendCapabilities) -> (r: Capabilities)
        ensures
            r == capabilities_spec(usable, backend, self@.settings.shell_actions_enabled),
    {
        Capabilities {
            text_unicode: usable && backend.text_unicode,
            media_keys: usable && backend.media_keys,
            mouse: usable && backend.mouse,
            shell_actions: self.settings.shell_actions_enabled,
        }
    }

    /// Why input injection is unavailable, if it is, as the wire error the control panel shows
    /// with the backend's remediation message.
    pub fn preflight(&self, backend_preflight: Result<(), InputError>) -> (r: Result<(), EngineError>)
        ensures
            match preflight_spec(backend_preflight) {
                Ok(()) => r is Ok,
                Err((code, message)) => r matches Err(e) && is_wire_error(e, code, message),
            },
    {
        match backend_preflight {
            Ok(()) => Ok(()),
            Err(e) => Err(EngineError::wire(ErrorCode::InjectionFailed, e.message())),
        }
    }

    /// The profile a newly connected deck should display.
    pub fn active_profile_id(&self) -> (r: String)
        ensures
            r@ == active_id_spec(self@.store),
    {
        self.store.active_id()
    }

    pub fn store(&self) -> (r: &Store)
        ensures
            r@ == self@.store,
    {
        &self.store
    }

    pub fn registry(&self) -> (r: &Registry)
        ensures
            r@ == self@.devices,
    {
        &self.registry
    }

    pub fn actions(&self) -> (r: &ActionStore)
        ensures
            r@ == self@.actions,
    {
        &self.actions
    }

    /// Every paired device, with whether it has a live socket right now.
    pub fn list_devices(&self) -> (r: Vec<DeviceInfo>)
        ensures
            is_device_listing(r@, self@.devices, self@.connected),
    {
        self.registry.list(self.connected.as_slice())
    }

    pub fn mark_connected(&mut self, device_id: &str)
        ensures
            final(self)@ == (EngineView {
                connected: old(self)@.connected.insert(device_id@),
                ..old(self)@
            }),
    {
        let ghost before = self.connected@;
        if !contains_id(self.connected.as_slice(), device_id) {
            self.connected.push(owned(device_id));
            proof {
                assert forall|s: Seq<char>| #[trigger] ids_of(self.connected@).contains(s) == ids_of(
                    before,
                ).insert(device_id@).contains(s) by {
                    if ids_of(before).contains(s) {
                        let j = choose|j: int| 0 <= j < before.len() && #[trigger] before[j]@ == s;
                        assert(self.connected@[j] == before[j]);
                    }
                    if s == device_id@ {
                        assert(self.connected@[before.len() as int]@ == s);
                    }
                    if ids_of(self.connected@).contains(s) && s != device_id@ {
                        let j = choose|j: int|
                            0 <= j < self.connected@.len() && #[trigger] self.connected@[j]@ == s;
                        assert(j < before.len());
                        assert(before[j] == self.connected@[j]);
                    }
                }
                assert(ids_of(self.connected@) =~= ids_of(before).insert(device_id@));
            }
        } else {
            assert(ids_of(before).insert(device_id@) =~= ids_of(before));
        }
    }

    pub fn mark_disconnected(&mut self, device_id: &str)
        ensures
            final(self)@ == (EngineView {
                connected: old(self)@.connected.remove(device_id@),
                ..old(self)@
            }),
    {
        let ghost before = self.connected@;
        let mut kept: Vec<String> = Vec::new();
        let mut i: usize = 0;
        while i < self.connected.len()
            invariant
                before == self.connected@,
                i <= before.len(),
                forall|s: Seq<char>|
                    #[trigger] ids_of(kept@).contains(s) <==> (s != device_id@ && exists|j: int|
                        0 <= j < i && #[trigger] before[j]@ == s),
            decreases before.len() - i,
        {
            let ghost k0 = kept@;
            if !str_eq(self.connected[i].as_str(), device_id) {
                kept.push(self.connected[i].clone());
            }
            proof {
                assert forall|s: Seq<char>| #[trigger] ids_of(kept@).contains(s) <==> (s
                    != device_id@ && exists|j: int| 0 <= j < i + 1 && #[trigger] before[j]@ == s) by {
                    if ids_of(kept@).contains(s) {
                        let j = choose|j: int| 0 <= j < kept@.len() && #[trigger] kept@[j]@ == s;
                        if j < k0.len() {
                            assert(k0[j] == kept@[j]);
                            assert(ids_of(k0).contains(s));
                        }
                    }
                    if s != device_id@ && exists|j: int| 0 <= j < i + 1 && #[trigger] before[j]@ == s {
                        let j = choose|j: int| 0 <= j < i + 1 && #[trigger] before[j]@ == s;
                        if j < i {
                            assert(ids_of(k0).contains(s));
                            let m = choose|m: int| 0 <= m < k0.len() && #[trigger] k0[m]@ == s;
                            assert(kept@[m] == k0[m]);
                        } else {
                            assert(kept@[k0.len() as int]@ == s);
                        }
                    }
                }
            }
            i = i + 1;
        }
        self.connected = kept;
        proof {
            assert(ids_of(self.connected@) =~= ids_of(before).remove(device_id@));
        }
    }

    /// Opens a pairing window, replacing any existing one.
    pub fn open_pairing(&mut self, ttl_seconds: Option<u32>) -> (r: Result<PairingWindow, EngineError>)
        requires
            ttl_seconds matches Some(t) ==> TTL_MIN_SECONDS <= t <= TTL_MAX_SECONDS,
        ensures
            r is Err ==> final(self)@ == old(self)@,
            r matches Ok(w) ==> final(self)@ == (EngineView {
                pairing: Some(window_view(w)),
                ..old(self)@
            }) && w.code_spec().len() == 6 && w.ttl_spec() == match ttl_seconds {
                Some(t) => t,
                None => crate::protocol::pairing::DEFAULT_TTL_SECONDS,
            },
            r matches Err(e) ==> e is Entropy,
    {
        let window = match PairingWindow::open(ttl_seconds) {
            Ok(w) => w,
            Err(e) => {
                return Err(e);
            },
        };
        self.pairing = Some(window.clone());
        Ok(window)
    }

    pub fn close_pairing(&mut self)
        ensures
            final(self)@ == (EngineView { pairing: None, ..old(self)@ }),
    {
        self.pairing = None;
    }

    /// The held window as it stands `elapsed` whole seconds after it was opened: the window
    /// itself while its time to live lasts, and nothing once it has run out or when none is held.
    pub fn pairing_window_after(&self, elapsed: u64) -> (r: Option<PairingWindow>)
        ensures
            match self@.pairing {
                Some(v) => if elapsed < v.ttl {
                    r matches Some(w) && window_view(w) == v
                } else {
                    r is None
                },
                None => r is None,
            },
    {
        match &self.pairing {
            Some(w) => {
                if w.is_open_after(elapsed) {
                    Some(w.clone())
                } else {
                    None
                }
            },
            None => None,
        }
    }

    /// The current window, if one is open and unexpired. Expiry is read off the monotonic
    /// clock and handed to [`Self::pairing_window_after`]; what is promised is that any window
    /// returned is the one held, and that none is returned when none is held.
    pub fn pairing_window(&self) -> (r: Option<PairingWindow>)
        ensures
            r matches Some(w) ==> self@.pairing == Some(window_view(w)),
            self@.pairing is None ==> r is None,
    {
        match &self.pairing {
            Some(w) => {
                let elapsed = w.seconds_open();
                self.pairing_window_after(elapsed)
            },
            None => None,
        }
    }

    /// Registers a device; see [`Registry::insert`].
    pub fn insert_device(&mut self, pubkey_bytes: &[u8], name: String, platform: Platform) -> (r:
        Result<String, EngineError>)
        ensures
            registry_insert_contract(
                old(self)@.devices,
                final(self)@.devices,
                pubkey_bytes@,
                name@,
                platform,
                r,
            ),
            final(self)@ == (EngineView { devices: final(self)@.devices, ..old(self)@ }),
    {
        self.registry.insert(pubkey_bytes, name, platform)
    }

    /// Records that a device was seen now; see [`Registry::touch`].
    pub fn touch_device(&mut self, device_id: &str) -> (r: bool)
        ensures
            registry_touch_contract(old(self)@.devices, final(self)@.devices, device_id@, r),
            final(self)@ == (EngineView { devices: final(self)@.devices, ..old(self)@ }),
    {
        self.registry.touch(device_id)
    }

    /// Removes a device and says whether it was there; see [`Registry::revoke`].
    pub fn revoke_device(&mut self, device_id: &str) -> (r: bool)
        ensures
            r == old(self)@.devices.dom().contains(device_id@),
            final(self)@ == (EngineView {
                devices: old(self)@.devices.remove(device_id@),
                ..old(self)@
            }),
    {
        self.registry.revoke(device_id)
    }

    /// Validates and stores a profile; see [`Store::set`].
    pub fn set_profile(&mut self, profile: Profile, role: Role) -> (r: Result<(), EngineError>)
        ensures
            store_set_contract(old(self)@.store, final(self)@.store, profile@, role, r),
            final(self)@ == (EngineView { store: final(self)@.store, ..old(self)@ }),
    {
        self.store.set(profile, role)
    }

    /// Points the active profile elsewhere; see [`Store::activate`].
    pub fn activate_profile(&mut self, profile_id: &str) -> (r: Result<(), EngineError>)
        ensures
            store_activate_contract(old(self)@.store, final(self)@.store, profile_id@, r),
            final(self)@ == (EngineView { store: final(self)@.store, ..old(self)@ }),
    {
        self.store.activate(profile_id)
    }

    /// Deletes a profile; see [`Store::delete`].
    pub fn delete_profile(&mut self, profile_id: &str) -> (r: Result<(), EngineError>)
        ensures
            store_delete_contract(old(self)@.store, final(self)@.store, profile_id@, r),
            final(self)@ == (EngineView { store: final(self)@.store, ..old(self)@ }),
    {
        self.store.delete(profile_id)
    }

    /// Defines or replaces a named action; see [`ActionStore::set`].
    pub fn set_action(&mut self, action: Action) -> (r: Result<(), EngineError>)
        ensures
            actions_set_contract(old(self)@.actions, final(self)@.actions, action@, r),
            final(self)@ == (EngineView { actions: final(self)@.actions, ..old(self)@ }),
    {
        self.actions.set(action)
    }

    /// Deletes a named action; see [`ActionStore::delete`].
    pub fn delete_action(&mut self, action_id: &str) -> (r: Result<(), EngineError>)
        ensures
            actions_delete_contract(old(self)@.actions, final(self)@.actions, action_id@, r),
            final(self)@ == (EngineView { actions: final(self)@.actions, ..old(self)@ }),
    {
        self.actions.delete(action_id)
    }

    /// Applies a `settings.set` patch: present keys replaced, absent keys untouched. Writing
    /// `settings.json` is the caller's part.
    pub fn apply_settings(&mut self, patch: &SettingsPatch)
        ensures
            final(self)@ == (EngineView {
                settings: apply_patch(*patch, old(self)@.settings),
                ..old(self)@
            }),
    {
        let settings = patch.apply_to(&self.settings);
        self.settings = settings;
    }
}

} // verus!
