//! The paired-device registry: the devices allowed to authenticate, keyed by device ID. Reading
//! and writing `devices.json` is the caller's part; this is the state and its rules.
use vstd::prelude::*;
use vstd::utf8::encode_utf8;

use crate::engine::error::{is_wire_error, EngineError};
use crate::engine::identity::{id_from_pubkey_bytes, id_spec};
use crate::keyed::{as_map, find, key_lt, lemma_map_at, remove_at, sorted, upsert, Keyed};
use crate::primitives::{
    base64_decode, base64_encode, base64_standard_decode, base64_standard_encode,
    ed25519_key_is_valid, ed25519_point_decodes, lemma_base64_round_trip, unix_now,
};
use crate::protocol::envelope::ErrorCode;
use crate::protocol::pairing::DeviceInfo;
use crate::protocol::session::Platform;
use crate::text::{owned, str_eq};

verus! {

/// What is persisted per device. The live `connected` flag is not: it belongs to the server, and
/// persisting it would leave every device looking connected after a crash.
#[derive(Debug, Clone)]
pub struct StoredDevice {
    pub device_id: String,
    pub name: String,
    pub platform: Platform,
    /// Ed25519 public key, 32 bytes, base64.
    pub pubkey: String,
    pub paired_at: i64,
    pub last_seen: i64,
}

/// A stored device as plain values.
pub struct StoredDeviceView {
    pub device_id: Seq<char>,
    pub name: Seq<char>,
    pub platform: Platform,
    pub pubkey: Seq<char>,
    pub paired_at: i64,
    pub last_seen: i64,
}

impl View for StoredDevice {
    type V = StoredDeviceView;

    open spec fn view(&self) -> StoredDeviceView {
        StoredDeviceView {
            device_id: self.device_id@,
            name: self.name@,
            platform: self.platform,
            pubkey: self.pubkey@,
            paired_at: self.paired_at,
            last_seen: self.last_seen,
        }
    }
}

impl Keyed for StoredDevice {
    open spec fn key_spec(&self) -> Seq<char> {
        self.device_id@
    }

    fn key(&self) -> (r: &str) {
        self.device_id.as_str()
    }
}

/// The message every malformed stored or offered key is reported with.
pub open spec fn device_key_what() -> Seq<char> {
    "device public key"@
}

/// The key a stored base64 text stands for: its decoding, when that is 32 bytes and an Ed25519
/// point.
pub open spec fn stored_key_spec(pubkey: Seq<char>) -> Option<Seq<u8>> {
    match base64_standard_decode(encode_utf8(pubkey)) {
        Some(bytes) => if bytes.len() == 32 && ed25519_point_decodes(bytes) {
            Some(bytes)
        } else {
            None
        },
        None => None,
    }
}

/// `e` reports a malformed device key.
pub open spec fn is_corrupt_device_key(e: EngineError) -> bool {
    e matches EngineError::CorruptIdentity { what } && what@ == device_key_what()
}

impl StoredDevice {
    /// The key this device authenticates with.
    pub fn verifying_key(&self) -> (r: Result<Vec<u8>, EngineError>)
        ensures
            match stored_key_spec(self.pubkey@) {
                Some(key) => r matches Ok(v) && v@ == key,
                None => r matches Err(e) && is_corrupt_device_key(e),
            },
    {
        let bytes = match base64_decode(self.pubkey.as_str()) {
            Ok(b) => b,
            Err(_) => {
                return Err(EngineError::CorruptIdentity { what: "device public key" });
            },
        };
        if bytes.len() != 32 || !ed25519_key_is_valid(bytes.as_slice()) {
            return Err(EngineError::CorruptIdentity { what: "device public key" });
        }
        Ok(bytes)
    }
}

/// What `insert` stores for a key: the derived ID, the name and platform given, the key in
/// base64, the first pairing time kept from an earlier entry under the same ID, and `now` as
/// the last sighting.
pub open spec fn inserted_device(
    before: Map<Seq<char>, StoredDeviceView>,
    key: Seq<u8>,
    name: Seq<char>,
    platform: Platform,
    now: i64,
) -> StoredDeviceView {
    let id = id_spec("d_"@, key);
    StoredDeviceView {
        device_id: id,
        name,
        platform,
        pubkey: base64_standard_encode(key),
        paired_at: if before.dom().contains(id) {
            before[id].paired_at
        } else {
            now
        },
        last_seen: now,
    }
}

/// Whether `insert` accepts these bytes: 32 of them, forming an Ed25519 point.
pub open spec fn acceptable_device_key(key: Seq<u8>) -> bool {
    key.len() == 32 && ed25519_point_decodes(key)
}

/// The wire message for a device ID the registry does not hold.
pub open spec fn unknown_device_message() -> Seq<char> {
    "device is not paired with this host"@
}

/// The set of devices allowed to authenticate, kept in device-ID order.
pub struct Registry {
    devices: Vec<StoredDevice>,
}

impl View for Registry {
    type V = Map<Seq<char>, StoredDeviceView>;

    closed spec fn view(&self) -> Map<Seq<char>, StoredDeviceView> {
        as_map(self.devices@).map_values(|d: StoredDevice| d@)
    }
}

impl Registry {
    /// The devices in device-ID order.
    pub closed spec fn entries(&self) -> Seq<StoredDevice> {
        self.devices@
    }

    /// Entries in strictly increasing ID order, hence one per ID.
    #[verifier::type_invariant]
    spec fn inv(&self) -> bool {
        sorted(self.devices@)
    }

    /// An empty registry: a fresh install.
    pub fn new() -> (r: Self)
        ensures
            r@ == Map::<Seq<char>, StoredDeviceView>::empty(),
            r.entries().len() == 0,
    {
        let r = Registry { devices: Vec::new() };
        assert(r@ =~= Map::<Seq<char>, StoredDeviceView>::empty());
        r
    }

    /// A registry holding what `devices.json` held. Under an ID listed twice, the later entry
    /// wins, as when the file's map is read.
    pub fn from_devices(devices: &[StoredDevice]) -> (r: Self)
        ensures
            forall|k: Seq<char>|
                #[trigger] r@.dom().contains(k) <==> exists|i: int|
                    0 <= i < devices@.len() && #[trigger] devices@[i].device_id@ == k,
            forall|k: Seq<char>|
                #[trigger] r@.dom().contains(k) ==> exists|i: int|
                    0 <= i < devices@.len() && #[trigger] devices@[i].device_id@ == k && r@[k]
                        == devices@[i]@ && forall|j: int|
                        i < j < devices@.len() ==> #[trigger] devices@[j].device_id@ != k,
    {
        let mut out: Vec<StoredDevice> = Vec::new();
        let mut i: usize = 0;
        while i < devices.len()
            invariant
                i <= devices@.len(),
                sorted(out@),
                forall|k: Seq<char>|
                    #[trigger] as_map(out@).dom().contains(k) <==> exists|j: int|
                        0 <= j < i && #[trigger] devices@[j].device_id@ == k,
                forall|k: Seq<char>|
                    #[trigger] as_map(out@).dom().contains(k) ==> exists|j: int|
                        0 <= j < i && #[trigger] devices@[j].device_id@ == k && as_map(out@)[k]@
                            == devices@[j]@ && forall|l: int|
                            j < l < i ==> #[trigger] devices@[l].device_id@ != k,
            decreases devices@.len() - i,
        {
            let ghost before = as_map(out@);
            let copy = devices[i].clone_device();
            upsert(&mut out, copy);
            proof {
                let after = as_map(out@);
                assert(after == before.insert(copy.device_id@, copy));
                assert forall|k: Seq<char>|
                    #[trigger] after.dom().contains(k) <==> exists|j: int|
                        0 <= j < i + 1 && #[trigger] devices@[j].device_id@ == k by {
                    if k != copy.device_id@ && after.dom().contains(k) {
                        assert(before.dom().contains(k));
                    }
                    if k == copy.device_id@ {
                        assert(devices@[i as int].device_id@ == k);
                    }
                }
                assert forall|k: Seq<char>| #[trigger] after.dom().contains(k) implies exists|j: int|
                    0 <= j < i + 1 && #[trigger] devices@[j].device_id@ == k && after[k]@
                        == devices@[j]@ && forall|l: int|
                        j < l < i + 1 ==> #[trigger] devices@[l].device_id@ != k by {
                    if k == copy.device_id@ {
                        assert(devices@[i as int].device_id@ == k);
                    } else {
                        assert(before.dom().contains(k));
                        let j = choose|j: int|
                            0 <= j < i && #[trigger] devices@[j].device_id@ == k && before[k]@
                                == devices@[j]@ && forall|l: int|
                                j < l < i ==> #[trigger] devices@[l].device_id@ != k;
                        assert(after[k] == before[k]);
                        assert forall|l: int| j < l < i + 1 implies #[trigger] devices@[l].device_id@
                            != k by {
                            if l == i {
                                assert(devices@[l].device_id@ == copy.device_id@);
                            }
                        }
                    }
                }
            }
            i = i + 1;
        }
        let r = Registry { devices: out };
        proof {
            assert forall|k: Seq<char>| #[trigger] r@.dom().contains(k) implies exists|j: int|
                0 <= j < devices@.len() && #[trigger] devices@[j].device_id@ == k && r@[k]
                    == devices@[j]@ && forall|l: int|
                    j < l < devices@.len() ==> #[trigger] devices@[l].device_id@ != k by {
                assert(as_map(out@).dom().contains(k));
            }
        }
        r
    }

    /// Registers a device and returns its ID, stamping it with the current time.
    ///
    /// Pairing the same key twice is not an error: it re-registers under the same derived ID,
    /// refreshing the name and keeping the first pairing time.
    pub fn insert(&mut self, pubkey_bytes: &[u8], name: String, platform: Platform) -> (r: Result<
        String,
        EngineError,
    >)
        ensures
            registry_insert_contract(old(self)@, final(self)@, pubkey_bytes@, name@, platform, r),
    {
        let now = unix_now();
        let r = self.insert_at(pubkey_bytes, name, platform, now);
        proof {
            if r is Ok {
                assert(final(self)@ == old(self)@.insert(
                    id_spec("d_"@, pubkey_bytes@),
                    inserted_device(old(self)@, pubkey_bytes@, name@, platform, now),
                ));
            }
        }
        r
    }

    /// Registers a device at time `now` and returns its ID.
    ///
    /// The key is validated as a real Ed25519 point before it is stored: a registry that can
    /// store a key it cannot later load would turn a bad write into a mystery authentication
    /// failure days afterwards.
    pub fn insert_at(
        &mut self,
        pubkey_bytes: &[u8],
        name: String,
        platform: Platform,
        now: i64,
    ) -> (r: Result<String, EngineError>)
        ensures
            acceptable_device_key(pubkey_bytes@) <==> r is Ok,
            r matches Err(e) ==> (is_corrupt_device_key(e) && final(self)@ == old(self)@),
            r matches Ok(id) ==> {
                &&& id@ == id_spec("d_"@, pubkey_bytes@)
                &&& final(self)@ == old(self)@.insert(
                    id@,
                    inserted_device(old(self)@, pubkey_bytes@, name@, platform, now),
                )
                &&& stored_key_spec(final(self)@[id@].pubkey) == Some(pubkey_bytes@)
            },
    {
        proof {
            use_type_invariant(&*self);
        }
        if pubkey_bytes.len() != 32 || !ed25519_key_is_valid(pubkey_bytes) {
            return Err(EngineError::CorruptIdentity { what: "device public key" });
        }
        let device_id = id_from_pubkey_bytes("d_", pubkey_bytes);
        let paired_at = match find(&self.devices, device_id.as_str()) {
            Some(i) => self.devices[i].paired_at,
            None => now,
        };
        let pubkey = base64_encode(pubkey_bytes);
        let device = StoredDevice {
            device_id: owned(device_id.as_str()),
            name,
            platform,
            pubkey,
            paired_at,
            last_seen: now,
        };
        let ghost before = self.devices@;
        let ghost dv = device@;
        let mut devices: Vec<StoredDevice> = Vec::new();
        std::mem::swap(&mut devices, &mut self.devices);
        upsert(&mut devices, device);
        self.devices = devices;
        proof {
            let m0 = as_map(before);
            let m1 = as_map(self.devices@);
            assert(m1 == m0.insert(device_id@, device));
            assert(self@ =~= old(self)@.insert(device_id@, dv));
            vstd::utf8::encode_utf8_decode_utf8(dv.pubkey);
            lemma_base64_round_trip(pubkey_bytes@);
        }
        Ok(device_id)
    }

    /// The device stored under `device_id`, if any.
    pub fn get(&self, device_id: &str) -> (r: Option<&StoredDevice>)
        ensures
            match r {
                Some(d) => self@.dom().contains(device_id@) && d@ == self@[device_id@],
                None => !self@.dom().contains(device_id@),
            },
    {
        proof {
            use_type_invariant(self);
        }
        match find(&self.devices, device_id) {
            Some(i) => Some(&self.devices[i]),
            None => None,
        }
    }

    /// The key a device authenticates with, or the wire error to answer with.
    pub fn verifying_key(&self, device_id: &str) -> (r: Result<Vec<u8>, EngineError>)
        ensures
            !self@.dom().contains(device_id@) ==> (r matches Err(e) && is_wire_error(
                e,
                ErrorCode::UnknownDevice,
                unknown_device_message(),
            )),
            self@.dom().contains(device_id@) ==> match stored_key_spec(self@[device_id@].pubkey) {
                Some(key) => r matches Ok(v) && v@ == key,
                None => r matches Err(e) && is_corrupt_device_key(e),
            },
    {
        match self.get(device_id) {
            Some(device) => device.verifying_key(),
            None => Err(
                EngineError::wire(
                    ErrorCode::UnknownDevice,
                    String::from_str("device is not paired with this host"),
                ),
            ),
        }
    }

    /// Removes a device and says whether it was there. Closing its live socket is the caller's
    /// part: the registry has no view of connections.
    pub fn revoke(&mut self, device_id: &str) -> (r: bool)
        ensures
            r == old(self)@.dom().contains(device_id@),
            final(self)@ == old(self)@.remove(device_id@),
    {
        proof {
            use_type_invariant(&*self);
        }
        match find(&self.devices, device_id) {
            Some(i) => {
                let ghost before = self.devices@;
                let mut devices: Vec<StoredDevice> = Vec::new();
                std::mem::swap(&mut devices, &mut self.devices);
                let removed = remove_at(&mut devices, i);
                self.devices = devices;
                proof {
                    assert(self@ =~= old(self)@.remove(device_id@));
                }
                true
            },
            None => {
                proof {
                    assert(self@ =~= old(self)@.remove(device_id@));
                }
                false
            },
        }
    }

    /// Records that a device was seen now. An unknown ID changes nothing.
    pub fn touch(&mut self, device_id: &str) -> (r: bool)
        ensures
            registry_touch_contract(old(self)@, final(self)@, device_id@, r),
    {
        let now = unix_now();
        let r = self.touch_at(device_id, now);
        proof {
            if r {
                assert(final(self)@ == old(self)@.insert(
                    device_id@,
                    seen_at(old(self)@[device_id@], now),
                ));
            }
        }
        r
    }

    /// Records that a device was seen at `now`. An unknown ID changes nothing.
    pub fn touch_at(&mut self, device_id: &str, now: i64) -> (r: bool)
        ensures
            r == old(self)@.dom().contains(device_id@),
            r ==> final(self)@ == old(self)@.insert(
                device_id@,
                seen_at(old(self)@[device_id@], now),
            ),
            !r ==> final(self)@ == old(self)@,
    {
        proof {
            use_type_invariant(&*self);
        }
        match find(&self.devices, device_id) {
            Some(i) => {
                let ghost before = self.devices@;
                let old_device = &self.devices[i];
                let device = StoredDevice {
                    device_id: old_device.device_id.clone(),
                    name: old_device.name.clone(),
                    platform: old_device.platform,
                    pubkey: old_device.pubkey.clone(),
                    paired_at: old_device.paired_at,
                    last_seen: now,
                };
                let ghost dv = device@;
                let mut devices: Vec<StoredDevice> = Vec::new();
                std::mem::swap(&mut devices, &mut self.devices);
                upsert(&mut devices, device);
                self.devices = devices;
                proof {
                    lemma_map_at(before, i as int);
                    assert(self@ =~= old(self)@.insert(device_id@, dv));
                }
                true
            },
            None => false,
        }
    }

    /// The `pair.list_devices` payload in device-ID order, with live connection state layered
    /// on: a device is connected when its ID is among `connected`.
    pub fn list(&self, connected: &[String]) -> (r: Vec<DeviceInfo>)
        ensures
            is_device_listing(r@, self@, ids_of(connected@)),
    {
        proof {
            use_type_invariant(self);
        }
        let mut out: Vec<DeviceInfo> = Vec::new();
        let mut i: usize = 0;
        while i < self.devices.len()
            invariant
                sorted(self.devices@),
                i <= self.devices@.len(),
                out@.len() == i,
                forall|k: int|
                    0 <= k < i ==> {
                        let d = #[trigger] self.devices@[k];
                        &&& out@[k].device_id@ == d.device_id@
                        &&& out@[k].name@ == d.name@
                        &&& out@[k].platform == d.platform
                        &&& out@[k].paired_at == d.paired_at
                        &&& out@[k].last_seen == d.last_seen
                        &&& out@[k].connected == ids_of(connected@).contains(d.device_id@)
                    },
            decreases self.devices@.len() - i,
        {
            let d = &self.devices[i];
            let live = contains_id(connected, d.device_id.as_str());
            out.push(
                DeviceInfo {
                    device_id: d.device_id.clone(),
                    name: d.name.clone(),
                    platform: d.platform,
                    paired_at: d.paired_at,
                    last_seen: d.last_seen,
                    connected: live,
                },
            );
            i = i + 1;
        }
        proof {
            let m = self@;
            let live = ids_of(connected@);
            assert forall|a: int, b: int| 0 <= a < b < out@.len() implies key_lt(
                #[trigger] out@[a].device_id@,
                #[trigger] out@[b].device_id@,
            ) by {
                let da = self.devices@[a];
                let db = self.devices@[b];
                assert(key_lt(da.key_spec(), db.key_spec()));
            }
            assert forall|a: int| 0 <= a < out@.len() implies #[trigger] lists_device(out@[a], m, live) by {
                let d = self.devices@[a];
                lemma_map_at(self.devices@, a);
            }
            assert forall|k: Seq<char>| #[trigger] m.dom().contains(k) implies exists|a: int|
                0 <= a < out@.len() && #[trigger] out@[a].device_id@ == k by {
                crate::keyed::lemma_map_dom(self.devices@, k);
                let a = choose|a: int|
                    0 <= a < self.devices@.len() && #[trigger] self.devices@[a].key_spec() == k;
                let d = self.devices@[a];
                assert(out@[a].device_id@ == k);
            }
        }
        out
    }

    /// Whether no device is paired.
    pub fn is_empty(&self) -> (r: bool)
        ensures
            r == (self@.dom() == Set::<Seq<char>>::empty()),
            r == (self.entries().len() == 0),
    {
        proof {
            use_type_invariant(self);
            if self.devices@.len() > 0 {
                lemma_map_at(self.devices@, 0);
                assert(self@.dom().contains(self.devices@[0].device_id@));
            } else {
                assert(self@.dom() =~= Set::<Seq<char>>::empty());
            }
        }
        self.devices.len() == 0
    }

    /// The devices in ID order, for writing `devices.json`.
    pub fn devices(&self) -> (r: &[StoredDevice])
        ensures
            r@ == self.entries(),
    {
        self.devices.as_slice()
    }
}

/// What `insert` does, whatever the clock read: a key that is not 32 bytes forming an Ed25519
/// point is refused and nothing changes; otherwise the device is stored under the ID derived
/// from the key, stamped with one reading of the clock.
pub open spec fn registry_insert_contract(
    before: Map<Seq<char>, StoredDeviceView>,
    after: Map<Seq<char>, StoredDeviceView>,
    key: Seq<u8>,
    name: Seq<char>,
    platform: Platform,
    r: Result<String, EngineError>,
) -> bool {
    &&& acceptable_device_key(key) <==> r is Ok
    &&& r matches Err(e) ==> (is_corrupt_device_key(e) && after == before)
    &&& r matches Ok(id) ==> (id@ == id_spec("d_"@, key) && exists|now: i64|
        after == before.insert(id@, #[trigger] inserted_device(before, key, name, platform, now)))
}

/// What `touch` does, whatever the clock read: a known device's last sighting moves to one
/// reading of the clock; an unknown ID changes nothing.
pub open spec fn registry_touch_contract(
    before: Map<Seq<char>, StoredDeviceView>,
    after: Map<Seq<char>, StoredDeviceView>,
    device_id: Seq<char>,
    r: bool,
) -> bool {
    &&& r == before.dom().contains(device_id)
    &&& r ==> exists|now: i64|
        after == before.insert(device_id, #[trigger] seen_at(before[device_id], now))
    &&& !r ==> after == before
}

/// The IDs among `ids`.
pub open spec fn ids_of(ids: Seq<String>) -> Set<Seq<char>> {
    Set::new(|s: Seq<char>| exists|j: int| 0 <= j < ids.len() && #[trigger] ids[j]@ == s)
}

/// `info` is the listing of the device it names: its stored fields, and whether it is live.
pub open spec fn lists_device(
    info: DeviceInfo,
    m: Map<Seq<char>, StoredDeviceView>,
    live: Set<Seq<char>>,
) -> bool {
    let d = m[info.device_id@];
    &&& m.dom().contains(info.device_id@)
    &&& info.name@ == d.name
    &&& info.platform == d.platform
    &&& info.paired_at == d.paired_at
    &&& info.last_seen == d.last_seen
    &&& info.connected == live.contains(info.device_id@)
}

/// `r` is the `pair.list_devices` listing of `m`: every device once, in device-ID order, with
/// its live flag from `live`.
pub open spec fn is_device_listing(
    r: Seq<DeviceInfo>,
    m: Map<Seq<char>, StoredDeviceView>,
    live: Set<Seq<char>>,
) -> bool {
    &&& forall|a: int, b: int|
        0 <= a < b < r.len() ==> key_lt(#[trigger] r[a].device_id@, #[trigger] r[b].device_id@)
    &&& forall|a: int| 0 <= a < r.len() ==> #[trigger] lists_device(r[a], m, live)
    &&& forall|k: Seq<char>|
        #[trigger] m.dom().contains(k) ==> exists|a: int| 0 <= a < r.len() && #[trigger] r[a].device_id@ == k
}

/// `d` seen again at `now`.
pub open spec fn seen_at(d: StoredDeviceView, now: i64) -> StoredDeviceView {
    StoredDeviceView { last_seen: now, ..d }
}

/// Whether `id` is among `ids`.
pub fn contains_id(ids: &[String], id: &str) -> (r: bool)
    ensures
        r == exists|j: int| 0 <= j < ids@.len() && #[trigger] ids@[j]@ == id@,
        r == ids_of(ids@).contains(id@),
{
    let mut j: usize = 0;
    while j < ids.len()
        invariant
            j <= ids@.len(),
            forall|k: int| 0 <= k < j ==> #[trigger] ids@[k]@ != id@,
        decreases ids@.len() - j,
    {
        if str_eq(ids[j].as_str(), id) {
            return true;
        }
        j = j + 1;
    }
    false
}

impl StoredDevice {
    /// A copy of every field.
    pub fn clone_device(&self) -> (r: StoredDevice)
        ensures
            r@ == self@,
    {
        StoredDevice {
            device_id: self.device_id.clone(),
            name: self.name.clone(),
            platform: self.platform,
            pubkey: self.pubkey.clone(),
            paired_at: self.paired_at,
            last_seen: self.last_seen,
        }
    }
}

/// Pairing a key that is already paired updates that device in place: the ID, derived from the
/// key, is the same; no second entry appears; the name and platform are the new ones; and the
/// time of the first pairing is kept.
pub proof fn law_repairing_a_key_updates_it_in_place(
    m0: Map<Seq<char>, StoredDeviceView>,
    m1: Map<Seq<char>, StoredDeviceView>,
    m2: Map<Seq<char>, StoredDeviceView>,
    key: Seq<u8>,
    name1: Seq<char>,
    platform1: Platform,
    r1: Result<String, EngineError>,
    name2: Seq<char>,
    platform2: Platform,
    r2: Result<String, EngineError>,
)
    requires
        registry_insert_contract(m0, m1, key, name1, platform1, r1),
        registry_insert_contract(m1, m2, key, name2, platform2, r2),
        r1 is Ok,
    ensures
        r2 is Ok,
        r1->Ok_0@ == r2->Ok_0@,
        m2.dom() == m1.dom(),
        m2[r2->Ok_0@].name == name2,
        m2[r2->Ok_0@].platform == platform2,
        m2[r2->Ok_0@].paired_at == m1[r1->Ok_0@].paired_at,
{
    let id = id_spec("d_"@, key);
    let now1 = choose|now: i64| m1 == m0.insert(id, #[trigger] inserted_device(m0, key, name1, platform1, now));
    let now2 = choose|now: i64| m2 == m1.insert(id, #[trigger] inserted_device(m1, key, name2, platform2, now));
    assert(m1.dom().contains(id));
    assert(m2.dom() =~= m1.dom());
}

} // verus!
