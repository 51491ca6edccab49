//! Device discovery: the protocol message and the registry of discovered peers.
//!
//! The registry keeps three views of the LAN: the committed device list served by the
//! API, a session-scoped address book of verified playback URLs, and, while a manual
//! scan is running, a scan buffer plus a backup of the committed list. Overlapping
//! scans share one transaction; the last caller to finish commits or rolls it back.
//! Time enters as milliseconds on a monotonic clock supplied by the caller.
use vstd::prelude::*;
use crate::text::{decimal, push_decimal, push_str, str_eq, string_of};

verus! {

/// Devices seen within this many milliseconds survive a successful scan they missed.
pub const DISCOVERY_LIVENESS_GRACE_MS: u64 = 30000;


/// `std::time::SystemTime::now().duration_since(UNIX_EPOCH)`: `Ok` with the
/// whole seconds and the nanoseconds past them when the clock is at or after the
/// Unix epoch, `Err` with how far before it otherwise. The reading depends on
/// the clock; std documents only that the nanosecond part is below one billion.
#[verifier::external_body]
fn clock_reading() -> (r: Result<(u64, u32), (u64, u32)>)
    ensures
        match r {
            Ok((_, n)) => n < 1_000_000_000,
            Err((_, n)) => n < 1_000_000_000,
        },
{
    match std::time::SystemTime::now().duration_since(std::time::UNIX_EPOCH) {
        Ok(d) => Ok((d.as_secs(), d.subsec_nanos())),
        Err(e) => Err((e.duration().as_secs(), e.duration().subsec_nanos())),
    }
}

/// `chrono::DateTime::<Utc>::from_timestamp(secs, nsecs)` followed by
/// `timestamp_millis`. chrono documents that the value round-trips through
/// `timestamp` and `timestamp_subsec_nanos`, so a result is `secs * 1000` plus the
/// whole milliseconds of `nsecs`; it is `None` for an invalid nanosecond part or
/// seconds outside the dates chrono holds (years -262143 to 262142), which
/// include every second within 8 * 10^12 of the epoch.
#[verifier::external_body]
fn chrono_timestamp_millis(secs: i64, nsecs: u32) -> (r: Option<i64>)
    ensures
        r matches Some(m) ==> m == secs * 1000 + nsecs / 1_000_000,
        nsecs < 1_000_000_000 && -8_000_000_000_000 <= secs <= 8_000_000_000_000 ==> r is Some,
{
    chrono::DateTime::from_timestamp(secs, nsecs).map(|d| d.timestamp_millis())
}

/// The signed nanoseconds since the Unix epoch that a clock reading stands for.
pub open spec fn reading_nanos(reading: Result<(u64, u32), (u64, u32)>) -> int {
    match reading {
        Ok((s, n)) => s * 1_000_000_000 + n,
        Err((s, n)) => -(s * 1_000_000_000 + n),
    }
}

/// A reading's whole seconds lie within 8 * 10^12 of the epoch.
pub open spec fn reading_in_range(reading: Result<(u64, u32), (u64, u32)>) -> bool {
    match reading {
        Ok((s, n)) => s <= 8_000_000_000_000 && n < 1_000_000_000,
        Err((s, n)) => s < 8_000_000_000_000 && n < 1_000_000_000,
    }
}

/// The Unix timestamp in milliseconds of a clock reading: the milliseconds since
/// the epoch, rounded down, so negative before the epoch (what chrono's UTC time
/// of that instant reports). `None` only where chrono holds no date for the
/// instant, which never happens within 8 * 10^12 seconds of the epoch.
pub fn timestamp_from_clock(reading: Result<(u64, u32), (u64, u32)>) -> (r: Option<i64>)
    ensures
        r matches Some(m) ==> m == reading_nanos(reading) / 1_000_000,
        reading_in_range(reading) ==> r is Some,
{
    let (secs, nsecs): (i64, u32) = match reading {
        Ok((s, n)) => {
            if s > 8_000_000_000_000 || n >= 1_000_000_000 {
                return None;
            }
            (s as i64, n)
        },
        Err((s, n)) => {
            if s >= 8_000_000_000_000 || n >= 1_000_000_000 {
                return None;
            }
            if n == 0 {
                (-(s as i64), 0)
            } else {
                (-(s as i64) - 1, 1_000_000_000 - n)
            }
        },
    };
    let r = chrono_timestamp_millis(secs, nsecs);
    proof {
        if r is Some {
            lemma_millis_floor(reading, secs as int, nsecs as int);
        }
    }
    r
}

/// Splitting a reading into seconds and a nanosecond part below one billion,
/// as `timestamp_from_clock` does, gives the floor of its milliseconds.
proof fn lemma_millis_floor(reading: Result<(u64, u32), (u64, u32)>, secs: int, nsecs: int)
    requires
        0 <= nsecs < 1_000_000_000,
        secs * 1_000_000_000 + nsecs == reading_nanos(reading),
    ensures
        secs * 1000 + nsecs / 1_000_000 == reading_nanos(reading) / 1_000_000,
{
    let t = reading_nanos(reading);
    assert(t == (secs * 1000) * 1_000_000 + nsecs) by (nonlinear_arith)
        requires
            secs * 1_000_000_000 + nsecs == t,
    ;
    assert(((secs * 1000) * 1_000_000 + nsecs) / 1_000_000 == secs * 1000 + nsecs / 1_000_000) by (nonlinear_arith)
        requires
            0 <= nsecs < 1_000_000_000,
    ;
}

/// The timestamp put on a message: the current time as [`timestamp_from_clock`]
/// gives it, or 0 in the one case where that gives none. It depends on the
/// clock, so nothing is claimed of its value.
fn unix_time_millis() -> (r: i64) {
    match timestamp_from_clock(clock_reading()) {
        Some(ms) => ms,
        None => 0,
    }
}

/// A Kaulan Discovery Protocol message (sent as JSON over UDP).
pub struct DiscoveryMessage {
    /// Message type identifier (`type` on the wire).
    pub message_type: String,
    /// Protocol version.
    pub version: String,
    /// Unique device identifier (required for responses and identified requests).
    pub device_id: Option<String>,
    /// Human-readable device name (required for responses and identified requests).
    pub device_name: Option<String>,
    /// HTTP API port (required for responses and identified requests).
    pub api_port: Option<u16>,
    /// Unix timestamp in milliseconds.
    pub timestamp: i64,
}

/// Why a discovery message or socket operation was rejected.
pub enum DiscoveryError {
    InvalidType(String),
    UnsupportedVersion(String),
    MissingField(String),
    InvalidDeviceName,
    InvalidPort,
    SocketUnavailable,
    MessageTooLarge,
    JsonError(String),
}

/// The characters of an optional string, empty when absent.
pub open spec fn opt_chars(o: Option<String>) -> Seq<char> {
    match o {
        Some(s) => s@,
        None => Seq::empty(),
    }
}

impl DiscoveryMessage {
    /// Maximum message size in bytes.
    pub const MAX_SIZE: usize = 1024;

    /// Request message type identifier.
    pub const REQUEST_TYPE: &'static str = "kaulan-discovery-request";

    /// Response message type identifier.
    pub const RESPONSE_TYPE: &'static str = "kaulan-discovery-response";

    /// Expected protocol version.
    pub const EXPECTED_VERSION: &'static str = "1.1";

    /// An anonymous request: no identity fields.
    pub fn new_request() -> (m: DiscoveryMessage)
        ensures
            m.message_type@ == Self::REQUEST_TYPE@,
            m.version@ == Self::EXPECTED_VERSION@,
            m.device_id is None,
            m.device_name is None,
            m.api_port is None,
    {
        DiscoveryMessage {
            message_type: Self::REQUEST_TYPE.to_owned(),
            version: Self::EXPECTED_VERSION.to_owned(),
            device_id: None,
            device_name: None,
            api_port: None,
            timestamp: unix_time_millis(),
        }
    }

    /// A request that lets receivers discover the requester directly.
    pub fn new_identified_request(device_id: String, device_name: String, api_port: u16) -> (m:
        DiscoveryMessage)
        ensures
            m.message_type@ == Self::REQUEST_TYPE@,
            m.version@ == Self::EXPECTED_VERSION@,
            m.device_id == Some(device_id),
            m.device_name == Some(device_name),
            m.api_port == Some(api_port),
    {
        DiscoveryMessage {
            message_type: Self::REQUEST_TYPE.to_owned(),
            version: Self::EXPECTED_VERSION.to_owned(),
            device_id: Some(device_id),
            device_name: Some(device_name),
            api_port: Some(api_port),
            timestamp: unix_time_millis(),
        }
    }

    /// A response carrying this device's service metadata.
    pub fn new_response(device_id: String, device_name: String, api_port: u16) -> (m:
        DiscoveryMessage)
        ensures
            m.message_type@ == Self::RESPONSE_TYPE@,
            m.version@ == Self::EXPECTED_VERSION@,
            m.device_id == Some(device_id),
            m.device_name == Some(device_name),
            m.api_port == Some(api_port),
    {
        DiscoveryMessage {
            message_type: Self::RESPONSE_TYPE.to_owned(),
            version: Self::EXPECTED_VERSION.to_owned(),
            device_id: Some(device_id),
            device_name: Some(device_name),
            api_port: Some(api_port),
            timestamp: unix_time_millis(),
        }
    }

    /// The identity fields are complete: a non-empty id, a name of 1 to 64
    /// characters, and a non-zero port.
    pub open spec fn identity_valid(&self) -> bool {
        &&& opt_chars(self.device_id).len() > 0
        &&& opt_chars(self.device_name).len() > 0
        &&& opt_chars(self.device_name).len() <= 64
        &&& (self.api_port matches Some(p) && p != 0)
    }

    /// The request carries no identity field at all.
    pub open spec fn is_anonymous(&self) -> bool {
        self.device_id is None && self.device_name is None && self.api_port is None
    }

    /// The message is acceptable: version 1.1, and either an anonymous request or a
    /// request/response with complete identity fields.
    pub open spec fn is_valid(&self) -> bool {
        &&& self.version@ == Self::EXPECTED_VERSION@
        &&& ((self.message_type@ == Self::REQUEST_TYPE@ && self.is_anonymous())
            || ((self.message_type@ == Self::REQUEST_TYPE@ || self.message_type@
            == Self::RESPONSE_TYPE@) && self.identity_valid()))
    }

    /// Validates this discovery message. The version is checked first, then the
    /// type, then (for identified messages) the id, the name and the port, in that order.
    pub fn validate(&self) -> (r: Result<(), DiscoveryError>)
        ensures
            r is Ok <==> self.is_valid(),
            self.version@ != Self::EXPECTED_VERSION@ ==> (r matches Err(
                DiscoveryError::UnsupportedVersion(v),
            ) && v@ == self.version@),
            self.version@ == Self::EXPECTED_VERSION@ && self.message_type@ != Self::REQUEST_TYPE@
                && self.message_type@ != Self::RESPONSE_TYPE@ ==> (r matches Err(
                DiscoveryError::InvalidType(t),
            ) && t@ == self.message_type@),
            self.version@ == Self::EXPECTED_VERSION@ && (self.message_type@ == Self::REQUEST_TYPE@
                || self.message_type@ == Self::RESPONSE_TYPE@) && !(self.message_type@
                == Self::REQUEST_TYPE@ && self.is_anonymous()) ==> self.identity_outcome(r),
    {
        if !str_eq(self.version.as_str(), Self::EXPECTED_VERSION) {
            return Err(DiscoveryError::UnsupportedVersion(self.version.clone()));
        }
        if str_eq(self.message_type.as_str(), Self::REQUEST_TYPE) {
            let is_anonymous = self.device_id.is_none() && self.device_name.is_none()
                && self.api_port.is_none();
            if is_anonymous {
                return Ok(());
            }
            self.validate_identity()
        } else if str_eq(self.message_type.as_str(), Self::RESPONSE_TYPE) {
            self.validate_identity()
        } else {
            Err(DiscoveryError::InvalidType(self.message_type.clone()))
        }
    }

    /// `r` is the outcome of checking the identity fields in the order id, name,
    /// port: the first failing check decides the error.
    pub open spec fn identity_outcome(&self, r: Result<(), DiscoveryError>) -> bool {
        if opt_chars(self.device_id).len() == 0 {
            r matches Err(DiscoveryError::MissingField(f)) && f@ == "device_id"@
        } else if opt_chars(self.device_name).len() == 0 || opt_chars(self.device_name).len() > 64 {
            r matches Err(DiscoveryError::InvalidDeviceName)
        } else if !(self.api_port matches Some(p) && p != 0) {
            r matches Err(DiscoveryError::InvalidPort)
        } else {
            r is Ok
        }
    }

    fn validate_identity(&self) -> (r: Result<(), DiscoveryError>)
        ensures
            r is Ok <==> self.identity_valid(),
            self.identity_outcome(r),
    {
        let id_empty = match &self.device_id {
            Some(id) => id.as_str().is_empty(),
            None => true,
        };
        if id_empty {
            return Err(DiscoveryError::MissingField("device_id".to_owned()));
        }
        let name_ok = match &self.device_name {
            Some(name) => name.as_str().unicode_len() > 0 && name.as_str().unicode_len() <= 64,
            None => false,
        };
        if !name_ok {
            return Err(DiscoveryError::InvalidDeviceName);
        }
        let port = match self.api_port {
            Some(p) => p,
            None => 0,
        };
        if port == 0 {
            return Err(DiscoveryError::InvalidPort);
        }
        Ok(())
    }
}

/// A peer seen on the LAN.
pub struct DiscoveredDevice {
    pub device_id: String,
    pub device_name: String,
    /// Full HTTP base URL, e.g. `http://192.168.1.100:2080/api`.
    pub api_url: String,
    /// Monotonic time (milliseconds) at which the device was last seen.
    pub last_seen_ms: u64,
    /// Textual IP address the announcement came from.
    pub ip: String,
    /// Source port of the announcement.
    pub port: u16,
}

/// The mathematical value of a [`DiscoveredDevice`].
pub struct DeviceView {
    pub device_id: Seq<char>,
    pub device_name: Seq<char>,
    pub api_url: Seq<char>,
    pub last_seen_ms: u64,
    pub ip: Seq<char>,
    pub port: u16,
}

impl View for DiscoveredDevice {
    type V = DeviceView;

    open spec fn view(&self) -> DeviceView {
        DeviceView {
            device_id: self.device_id@,
            device_name: self.device_name@,
            api_url: self.api_url@,
            last_seen_ms: self.last_seen_ms,
            ip: self.ip@,
            port: self.port,
        }
    }
}

/// The API URL under which a peer at `ip` serves on `api_port`.
pub open spec fn api_url_for(ip: Seq<char>, api_port: u16) -> Seq<char> {
    "http://"@ + ip + ":"@ + decimal(api_port as nat) + "/api"@
}

/// Builds `http://{ip}:{port}/api`.
fn build_api_url(ip: &str, port: u16) -> (r: String)
    ensures
        r@ == api_url_for(ip@, port),
{
    let mut out: Vec<char> = Vec::new();
    push_str(&mut out, "http://");
    push_str(&mut out, ip);
    push_str(&mut out, ":");
    push_decimal(&mut out, port as u64);
    push_str(&mut out, "/api");
    string_of(&out)
}

impl DiscoveredDevice {
    /// A device entry for a peer at `ip`:`port` announcing `api_port`, seen at `now_ms`.
    pub fn new(
        device_id: String,
        device_name: String,
        ip: String,
        port: u16,
        api_port: u16,
        now_ms: u64,
    ) -> (d: DiscoveredDevice)
        ensures
            d@ == (DeviceView {
                device_id: device_id@,
                device_name: device_name@,
                api_url: api_url_for(ip@, api_port),
                last_seen_ms: now_ms,
                ip: ip@,
                port: port,
            }),
    {
        let api_url = build_api_url(ip.as_str(), api_port);
        DiscoveredDevice { device_id, device_name, api_url, last_seen_ms: now_ms, ip, port }
    }

    /// An equal copy of this entry.
    pub fn duplicate(&self) -> (r: DiscoveredDevice)
        ensures
            r@ == self@,
    {
        DiscoveredDevice {
            device_id: self.device_id.clone(),
            device_name: self.device_name.clone(),
            api_url: self.api_url.clone(),
            last_seen_ms: self.last_seen_ms,
            ip: self.ip.clone(),
            port: self.port,
        }
    }
}

/// A verified playback address for a device.
pub struct ResolvedEntry {
    pub device_id: String,
    pub api_url: String,
}

/// The views of a vector of devices.
pub open spec fn devices_view(v: Seq<DiscoveredDevice>) -> Seq<DeviceView> {
    v.map_values(|d: DiscoveredDevice| d@)
}

/// The views of a vector of resolved entries, as `(device_id, api_url)` pairs.
pub open spec fn resolved_view(v: Seq<ResolvedEntry>) -> Seq<(Seq<char>, Seq<char>)> {
    v.map_values(|e: ResolvedEntry| (e.device_id@, e.api_url@))
}

/// No two devices share an id.
pub open spec fn unique_ids(s: Seq<DeviceView>) -> bool {
    forall|i: int, j: int|
        0 <= i < s.len() && 0 <= j < s.len() && s[i].device_id == s[j].device_id ==> i == j
}

/// Some device has id `id`.
pub open spec fn has_device(s: Seq<DeviceView>, id: Seq<char>) -> bool {
    exists|i: int| 0 <= i < s.len() && s[i].device_id == id
}

/// The position of the device with id `id` (meaningful when [`has_device`]).
pub open spec fn device_index(s: Seq<DeviceView>, id: Seq<char>) -> int {
    choose|i: int| 0 <= i < s.len() && s[i].device_id == id
}

/// The device with id `id`, if any.
pub open spec fn lookup_device(s: Seq<DeviceView>, id: Seq<char>) -> Option<DeviceView> {
    if has_device(s, id) {
        Some(s[device_index(s, id)])
    } else {
        None
    }
}

/// Inserts `d`, replacing the entry with the same id (map insertion).
pub open spec fn upsert_device(s: Seq<DeviceView>, d: DeviceView) -> Seq<DeviceView> {
    if has_device(s, d.device_id) {
        s.update(device_index(s, d.device_id), d)
    } else {
        s.push(d)
    }
}

/// A device seen at most the liveness grace before `now_ms`.
pub open spec fn is_fresh(d: DeviceView, now_ms: u64) -> bool {
    now_ms <= d.last_seen_ms || now_ms - d.last_seen_ms <= DISCOVERY_LIVENESS_GRACE_MS
}

/// `next` plus every fresh device of `backup` whose id `next` lacks.
pub open spec fn keep_fresh(next: Seq<DeviceView>, backup: Seq<DeviceView>, now_ms: u64) -> Seq<
    DeviceView,
>
    decreases backup.len(),
{
    if backup.len() == 0 {
        next
    } else {
        let b = backup[0];
        let n2 = if is_fresh(b, now_ms) && !has_device(next, b.device_id) {
            next.push(b)
        } else {
            next
        };
        keep_fresh(n2, backup.drop_first(), now_ms)
    }
}

/// `base` with every device of `over` upserted in order (map extension).
pub open spec fn overlay(base: Seq<DeviceView>, over: Seq<DeviceView>) -> Seq<DeviceView>
    decreases over.len(),
{
    if over.len() == 0 {
        base
    } else {
        overlay(upsert_device(base, over[0]), over.drop_first())
    }
}

/// No two resolved entries share a device id.
pub open spec fn unique_keys(s: Seq<(Seq<char>, Seq<char>)>) -> bool {
    forall|i: int, j: int| 0 <= i < s.len() && 0 <= j < s.len() && s[i].0 == s[j].0 ==> i == j
}

/// Some resolved entry has key `k`.
pub open spec fn has_key(s: Seq<(Seq<char>, Seq<char>)>, k: Seq<char>) -> bool {
    exists|i: int| 0 <= i < s.len() && s[i].0 == k
}

/// The position of key `k` (meaningful when [`has_key`]).
pub open spec fn key_index(s: Seq<(Seq<char>, Seq<char>)>, k: Seq<char>) -> int {
    choose|i: int| 0 <= i < s.len() && s[i].0 == k
}

/// The URL resolved for `k`, if any.
pub open spec fn lookup_url(s: Seq<(Seq<char>, Seq<char>)>, k: Seq<char>) -> Option<Seq<char>> {
    if has_key(s, k) {
        Some(s[key_index(s, k)].1)
    } else {
        None
    }
}

/// Records `url` for `k`, replacing any earlier URL (map insertion).
pub open spec fn upsert_url(s: Seq<(Seq<char>, Seq<char>)>, k: Seq<char>, url: Seq<char>) -> Seq<
    (Seq<char>, Seq<char>),
> {
    if has_key(s, k) {
        s.update(key_index(s, k), (k, url))
    } else {
        s.push((k, url))
    }
}

pub proof fn lemma_lookup_unique(s: Seq<DeviceView>, i: int)
    requires
        unique_ids(s),
        0 <= i < s.len(),
    ensures
        has_device(s, s[i].device_id),
        device_index(s, s[i].device_id) == i,
        lookup_device(s, s[i].device_id) == Some(s[i]),
{
    assert(has_device(s, s[i].device_id));
}

pub proof fn lemma_upsert_device(s: Seq<DeviceView>, d: DeviceView)
    requires
        unique_ids(s),
    ensures
        unique_ids(upsert_device(s, d)),
        has_device(upsert_device(s, d), d.device_id),
        forall|k: Seq<char>|
            #![trigger lookup_device(upsert_device(s, d), k)]
            lookup_device(upsert_device(s, d), k) == if k == d.device_id {
                Some(d)
            } else {
                lookup_device(s, k)
            },
{
    let t = upsert_device(s, d);
    if has_device(s, d.device_id) {
        let idx = device_index(s, d.device_id);
        assert(t[idx] == d);
    } else {
        assert(t[s.len() as int] == d);
    }
    assert(unique_ids(t));
    assert forall|k: Seq<char>|
        #![trigger lookup_device(upsert_device(s, d), k)]
        lookup_device(upsert_device(s, d), k) == if k == d.device_id {
            Some(d)
        } else {
            lookup_device(s, k)
        } by {
        if k == d.device_id {
            let j = device_index(t, k);
            if has_device(s, d.device_id) {
                lemma_lookup_unique(t, device_index(s, d.device_id));
            } else {
                lemma_lookup_unique(t, s.len() as int);
            }
        } else {
            if has_device(s, k) {
                let i = device_index(s, k);
                assert(t[i] == s[i]);
                lemma_lookup_unique(t, i);
            } else {
                if has_device(t, k) {
                    let j = device_index(t, k);
                    assert(s[j].device_id == k);
                }
            }
        }
    }
}

pub proof fn lemma_upsert_url(s: Seq<(Seq<char>, Seq<char>)>, k: Seq<char>, url: Seq<char>)
    requires
        unique_keys(s),
    ensures
        unique_keys(upsert_url(s, k, url)),
        lookup_url(upsert_url(s, k, url), k) == Some(url),
        forall|k2: Seq<char>|
            k2 != k ==> #[trigger] lookup_url(upsert_url(s, k, url), k2) == lookup_url(s, k2),
{
    let t = upsert_url(s, k, url);
    let at = if has_key(s, k) {
        key_index(s, k)
    } else {
        s.len() as int
    };
    assert(t[at] == (k, url));
    assert(unique_keys(t));
    assert(has_key(t, k));
    assert forall|k2: Seq<char>| k2 != k implies #[trigger] lookup_url(t, k2) == lookup_url(
        s,
        k2,
    ) by {
        if has_key(s, k2) {
            let i = key_index(s, k2);
            assert(t[i] == s[i]);
            assert(has_key(t, k2));
        } else if has_key(t, k2) {
            let j = key_index(t, k2);
            assert(s[j].0 == k2);
        }
    }
}

pub proof fn lemma_keep_fresh(next: Seq<DeviceView>, backup: Seq<DeviceView>, now_ms: u64)
    requires
        unique_ids(next),
        unique_ids(backup),
    ensures
        unique_ids(keep_fresh(next, backup, now_ms)),
        forall|k: Seq<char>|
            #![trigger lookup_device(keep_fresh(next, backup, now_ms), k)]
            lookup_device(keep_fresh(next, backup, now_ms), k) == if has_device(next, k) {
                lookup_device(next, k)
            } else if has_device(backup, k) && is_fresh(
                lookup_device(backup, k).unwrap(),
                now_ms,
            ) {
                lookup_device(backup, k)
            } else {
                None
            },
    decreases backup.len(),
{
    if backup.len() > 0 {
        let b = backup[0];
        let n2 = if is_fresh(b, now_ms) && !has_device(next, b.device_id) {
            next.push(b)
        } else {
            next
        };
        let rest = backup.drop_first();
        assert(unique_ids(n2)) by {
            if n2 != next {
                assert(n2[next.len() as int] == b);
            }
        }
        assert(unique_ids(rest));
        lemma_keep_fresh(n2, rest, now_ms);
        lemma_lookup_unique(backup, 0);
        assert forall|k: Seq<char>|
            #![trigger lookup_device(keep_fresh(next, backup, now_ms), k)]
            lookup_device(keep_fresh(next, backup, now_ms), k) == if has_device(next, k) {
                lookup_device(next, k)
            } else if has_device(backup, k) && is_fresh(
                lookup_device(backup, k).unwrap(),
                now_ms,
            ) {
                lookup_device(backup, k)
            } else {
                None
            } by {
            // membership of k in the pieces
            if has_device(next, k) {
                let i = device_index(next, k);
                assert(n2[i] == next[i]);
                lemma_lookup_unique(n2, i);
                lemma_lookup_unique(next, i);
            } else if k == b.device_id {
                if is_fresh(b, now_ms) {
                    lemma_lookup_unique(n2, next.len() as int);
                } else {
                    if has_device(n2, k) {
                        let j = device_index(n2, k);
                        assert(next[j].device_id == k);
                    }
                    if has_device(rest, k) {
                        let j = device_index(rest, k);
                        assert(backup[j + 1].device_id == k);
                    }
                }
            } else {
                if has_device(n2, k) {
                    let j = device_index(n2, k);
                    if j < next.len() {
                        assert(next[j].device_id == k);
                    }
                }
                if has_device(backup, k) {
                    let j = device_index(backup, k);
                    assert(j != 0);
                    assert(rest[j - 1] == backup[j]);
                    lemma_lookup_unique(rest, j - 1);
                    lemma_lookup_unique(backup, j);
                }
                if has_device(rest, k) {
                    let j = device_index(rest, k);
                    assert(backup[j + 1].device_id == k);
                }
            }
        }
    }
}

pub proof fn lemma_overlay(base: Seq<DeviceView>, over: Seq<DeviceView>)
    requires
        unique_ids(base),
        unique_ids(over),
    ensures
        unique_ids(overlay(base, over)),
        forall|k: Seq<char>|
            #![trigger lookup_device(overlay(base, over), k)]
            lookup_device(overlay(base, over), k) == if has_device(over, k) {
                lookup_device(over, k)
            } else {
                lookup_device(base, k)
            },
    decreases over.len(),
{
    if over.len() > 0 {
        let o = over[0];
        let rest = over.drop_first();
        lemma_upsert_device(base, o);
        assert(unique_ids(rest));
        lemma_overlay(upsert_device(base, o), rest);
        lemma_lookup_unique(over, 0);
        assert forall|k: Seq<char>|
            #![trigger lookup_device(overlay(base, over), k)]
            lookup_device(overlay(base, over), k) == if has_device(over, k) {
                lookup_device(over, k)
            } else {
                lookup_device(base, k)
            } by {
            if has_device(rest, k) {
                let j = device_index(rest, k);
                assert(over[j + 1] == rest[j]);
                lemma_lookup_unique(over, j + 1);
                lemma_lookup_unique(rest, j);
            } else if k == o.device_id {
            } else {
                if has_device(over, k) {
                    let j = device_index(over, k);
                    assert(j != 0);
                    assert(rest[j - 1] == over[j]);
                }
            }
        }
    }
}

/// Position of the device with id `id` in `v`, if any.
fn find_device(v: &Vec<DiscoveredDevice>, id: &String) -> (r: Option<usize>)
    ensures
        r is None ==> !has_device(devices_view(v@), id@),
        r matches Some(i) ==> i < v.len() && devices_view(v@)[i as int].device_id == id@,
{
    let mut i: usize = 0;
    while i < v.len()
        invariant
            i <= v.len(),
            forall|j: int| 0 <= j < i ==> devices_view(v@)[j].device_id != id@,
        decreases v.len() - i,
    {
        if v[i].device_id == *id {
            return Some(i);
        }
        i = i + 1;
    }
    None
}

/// Inserts `d` into `v`, replacing the entry with the same id.
fn upsert_into(v: &mut Vec<DiscoveredDevice>, d: DiscoveredDevice)
    requires
        unique_ids(devices_view(old(v)@)),
    ensures
        devices_view(final(v)@) == upsert_device(devices_view(old(v)@), d@),
        unique_ids(devices_view(final(v)@)),
{
    let ghost s = devices_view(v@);
    proof {
        lemma_upsert_device(s, d@);
    }
    match find_device(v, &d.device_id) {
        Some(i) => {
            proof {
                lemma_lookup_unique(s, i as int);
            }
            v.set(i, d);
            assert(devices_view(v@) =~= s.update(i as int, d@));
        },
        None => {
            v.push(d);
            assert(devices_view(v@) =~= s.push(d@));
        },
    }
}

/// Copies of all devices in `v`.
fn copy_devices(v: &Vec<DiscoveredDevice>) -> (r: Vec<DiscoveredDevice>)
    ensures
        devices_view(r@) == devices_view(v@),
{
    let mut r: Vec<DiscoveredDevice> = Vec::new();
    let mut i: usize = 0;
    while i < v.len()
        invariant
            i <= v.len(),
            devices_view(r@) == devices_view(v@).take(i as int),
        decreases v.len() - i,
    {
        let ghost old_r = r@;
        let d = v[i].duplicate();
        r.push(d);
        assert(devices_view(r@) =~= devices_view(old_r).push(d@));
        assert(devices_view(r@) =~= devices_view(v@).take(i + 1));
        i = i + 1;
    }
    assert(devices_view(v@).take(v.len() as int) =~= devices_view(v@));
    r
}

/// Whether a device seen at `last_seen_ms` is still within the grace period at `now_ms`.
fn fresh(last_seen_ms: u64, now_ms: u64) -> (r: bool)
    ensures
        r == (now_ms <= last_seen_ms || now_ms - last_seen_ms <= DISCOVERY_LIVENESS_GRACE_MS),
{
    now_ms <= last_seen_ms || now_ms - last_seen_ms <= DISCOVERY_LIVENESS_GRACE_MS
}

/// Adds the fresh devices of `backup` whose ids `next` lacks.
fn merge_fresh(next: &mut Vec<DiscoveredDevice>, backup: &Vec<DiscoveredDevice>, now_ms: u64)
    requires
        unique_ids(devices_view(old(next)@)),
        unique_ids(devices_view(backup@)),
    ensures
        devices_view(final(next)@) == keep_fresh(
            devices_view(old(next)@),
            devices_view(backup@),
            now_ms,
        ),
{
    let ghost b = devices_view(backup@);
    let ghost target = keep_fresh(devices_view(next@), b, now_ms);
    let mut i: usize = 0;
    assert(b.skip(0) =~= b);
    while i < backup.len()
        invariant
            i <= backup.len(),
            b == devices_view(backup@),
            unique_ids(b),
            unique_ids(devices_view(next@)),
            target == keep_fresh(devices_view(next@), b.skip(i as int), now_ms),
        decreases backup.len() - i,
    {
        let ghost before = devices_view(next@);
        assert(b.skip(i as int).drop_first() =~= b.skip(i + 1));
        assert(b.skip(i as int)[0] == b[i as int]);
        if fresh(backup[i].last_seen_ms, now_ms) {
            match find_device(next, &backup[i].device_id) {
                None => {
                    next.push(backup[i].duplicate());
                    assert(devices_view(next@) =~= before.push(b[i as int]));
                    assert(devices_view(next@)[before.len() as int] == b[i as int]);
                },
                Some(_) => {},
            }
        }
        i = i + 1;
    }
}

/// The session address book entry position for `id`, if any.
fn find_resolved(v: &Vec<ResolvedEntry>, id: &String) -> (r: Option<usize>)
    ensures
        r is None ==> !has_key(resolved_view(v@), id@),
        r matches Some(i) ==> i < v.len() && resolved_view(v@)[i as int].0 == id@,
{
    let mut i: usize = 0;
    while i < v.len()
        invariant
            i <= v.len(),
            forall|j: int| 0 <= j < i ==> resolved_view(v@)[j].0 != id@,
        decreases v.len() - i,
    {
        if v[i].device_id == *id {
            return Some(i);
        }
        i = i + 1;
    }
    None
}

/// Discovery service state.
pub struct DiscoveryState {
    /// This device's unique ID.
    pub device_id: String,
    device_name: String,
    /// HTTP API port.
    pub api_port: u16,
    discovered_devices: Vec<DiscoveredDevice>,
    resolved_devices: Vec<ResolvedEntry>,
    scan_buffer: Option<Vec<DiscoveredDevice>>,
    scan_backup: Option<Vec<DiscoveredDevice>>,
    scan_ref_count: usize,
    periodic_discovery_enabled: bool,
}

/// The mathematical value of a [`DiscoveryState`].
pub struct DiscoveryStateView {
    pub device_id: Seq<char>,
    pub device_name: Seq<char>,
    pub api_port: u16,
    /// Committed devices served by the API.
    pub committed: Seq<DeviceView>,
    /// Session-scoped `(device_id, api_url)` address book.
    pub resolved: Seq<(Seq<char>, Seq<char>)>,
    /// Devices observed by the running scan transaction.
    pub scan: Option<Seq<DeviceView>>,
    /// Committed devices at the start of the running scan transaction.
    pub backup: Option<Seq<DeviceView>>,
    /// Number of callers inside the shared scan window.
    pub ref_count: nat,
    pub periodic: bool,
}

impl View for DiscoveryState {
    type V = DiscoveryStateView;

    closed spec fn view(&self) -> DiscoveryStateView {
        DiscoveryStateView {
            device_id: self.device_id@,
            device_name: self.device_name@,
            api_port: self.api_port,
            committed: devices_view(self.discovered_devices@),
            resolved: resolved_view(self.resolved_devices@),
            scan: match self.scan_buffer {
                Some(v) => Some(devices_view(v@)),
                None => None,
            },
            backup: match self.scan_backup {
                Some(v) => Some(devices_view(v@)),
                None => None,
            },
            ref_count: self.scan_ref_count as nat,
            periodic: self.periodic_discovery_enabled,
        }
    }
}

impl DiscoveryStateView {
    /// The registry's invariant: unique ids everywhere, and a scan transaction
    /// (buffer and backup) exists exactly while some caller is inside it.
    pub open spec fn wf(self) -> bool {
        &&& unique_ids(self.committed)
        &&& unique_keys(self.resolved)
        &&& self.scan.is_some() == (self.ref_count > 0)
        &&& self.backup.is_some() == (self.ref_count > 0)
        &&& (self.scan matches Some(s) ==> unique_ids(s))
        &&& (self.backup matches Some(b) ==> unique_ids(b))
    }

    /// State after a caller joins the scan window.
    pub open spec fn start_scan(self) -> DiscoveryStateView {
        if self.ref_count == 0 {
            DiscoveryStateView {
                scan: Some(Seq::empty()),
                backup: Some(self.committed),
                ref_count: 1,
                ..self
            }
        } else {
            DiscoveryStateView { ref_count: self.ref_count + 1, ..self }
        }
    }

    /// State after a caller leaves the scan window, and whether it closed the transaction.
    pub open spec fn finish_scan(self, success: bool, now_ms: u64) -> (DiscoveryStateView, bool) {
        if self.ref_count == 0 {
            (self, false)
        } else if self.ref_count > 1 {
            (DiscoveryStateView { ref_count: (self.ref_count - 1) as nat, ..self }, false)
        } else {
            let committed = if success {
                keep_fresh(self.scan.unwrap(), self.backup.unwrap(), now_ms)
            } else {
                self.backup.unwrap()
            };
            (
                DiscoveryStateView {
                    committed: committed,
                    scan: None,
                    backup: None,
                    ref_count: 0,
                    ..self
                },
                true,
            )
        }
    }

    /// State after observing device `d`.
    pub open spec fn upsert(self, d: DeviceView) -> DiscoveryStateView {
        let resolved = upsert_url(self.resolved, d.device_id, d.api_url);
        match self.scan {
            Some(s) => DiscoveryStateView {
                resolved: resolved,
                scan: Some(upsert_device(s, d)),
                ..self
            },
            None => DiscoveryStateView {
                resolved: resolved,
                committed: upsert_device(self.committed, d),
                ..self
            },
        }
    }

    /// Devices visible now: committed ones, overridden by fresh scan observations.
    pub open spec fn visible(self) -> Seq<DeviceView> {
        match self.scan {
            Some(s) => overlay(self.committed, s),
            None => self.committed,
        }
    }
}

/// The state after observing every device of `ds`, in order.
pub open spec fn observe_all(v: DiscoveryStateView, ds: Seq<DeviceView>) -> DiscoveryStateView
    decreases ds.len(),
{
    if ds.len() == 0 {
        v
    } else {
        observe_all(v.upsert(ds[0]), ds.drop_first())
    }
}

/// Every transition of the registry keeps its invariant.
pub proof fn law_transitions_keep_invariant(
    v: DiscoveryStateView,
    d: DeviceView,
    success: bool,
    now_ms: u64,
)
    requires
        v.wf(),
    ensures
        v.start_scan().wf(),
        v.finish_scan(success, now_ms).0.wf(),
        v.upsert(d).wf(),
{
    lemma_upsert_url(v.resolved, d.device_id, d.api_url);
    lemma_upsert_device(v.committed, d);
    if let Some(s) = v.scan {
        lemma_upsert_device(s, d);
    }
    if v.ref_count == 1 && success {
        lemma_keep_fresh(v.scan.unwrap(), v.backup.unwrap(), now_ms);
    }
}

proof fn lemma_observe_all_scanning(v: DiscoveryStateView, ds: Seq<DeviceView>)
    requires
        v.wf(),
        v.ref_count > 0,
    ensures
        observe_all(v, ds).wf(),
        observe_all(v, ds).committed == v.committed,
        observe_all(v, ds).backup == v.backup,
        observe_all(v, ds).ref_count == v.ref_count,
    decreases ds.len(),
{
    if ds.len() > 0 {
        law_transitions_keep_invariant(v, ds[0], true, 0);
        lemma_observe_all_scanning(v.upsert(ds[0]), ds.drop_first());
    }
}

/// While a scan is open, observations never touch the committed devices, and an
/// observed device is visible at once with the observed value.
pub proof fn law_scan_observations_stay_uncommitted(v: DiscoveryStateView, d: DeviceView)
    requires
        v.wf(),
        v.ref_count > 0,
    ensures
        v.upsert(d).committed == v.committed,
        lookup_device(v.upsert(d).visible(), d.device_id) == Some(d),
{
    let s = v.scan.unwrap();
    lemma_upsert_device(s, d);
    lemma_overlay(v.committed, upsert_device(s, d));
}

/// A scan that fails restores the committed devices that were current when it
/// opened, whatever it observed in between.
pub proof fn law_failed_scan_rolls_back(v: DiscoveryStateView, observed: Seq<DeviceView>, now_ms: u64)
    requires
        v.wf(),
        v.ref_count == 0,
    ensures
        observe_all(v.start_scan(), observed).finish_scan(false, now_ms).1,
        observe_all(v.start_scan(), observed).finish_scan(false, now_ms).0.committed
            == v.committed,
{
    law_transitions_keep_invariant(v, observed.first(), false, now_ms);
    lemma_observe_all_scanning(v.start_scan(), observed);
}

/// Overlapping scans share one transaction: the first of two finishers neither
/// closes it nor commits anything; the second closes it.
pub proof fn law_overlapping_scans_share_transaction(
    v: DiscoveryStateView,
    observed: Seq<DeviceView>,
    success: bool,
    now_ms: u64,
)
    requires
        v.wf(),
        v.ref_count == 0,
    ensures
        ({
            let w = observe_all(v.start_scan().start_scan(), observed);
            let (first, closed_first) = w.finish_scan(success, now_ms);
            &&& !closed_first
            &&& first.committed == v.committed
            &&& first.finish_scan(success, now_ms).1
        }),
{
    law_transitions_keep_invariant(v, observed.first(), success, now_ms);
    law_transitions_keep_invariant(v.start_scan(), observed.first(), success, now_ms);
    lemma_observe_all_scanning(v.start_scan().start_scan(), observed);
}

/// After the last finisher of a successful scan, a device is committed exactly
/// when the scan observed it (with the observed value), or it was committed when
/// the scan opened and was seen within the liveness grace.
pub proof fn law_successful_scan_commits(v: DiscoveryStateView, now_ms: u64, k: Seq<char>)
    requires
        v.wf(),
        v.ref_count == 1,
    ensures
        v.finish_scan(true, now_ms).1,
        lookup_device(v.finish_scan(true, now_ms).0.committed, k) == if has_device(
            v.scan.unwrap(),
            k,
        ) {
            lookup_device(v.scan.unwrap(), k)
        } else if has_device(v.backup.unwrap(), k) && is_fresh(
            lookup_device(v.backup.unwrap(), k).unwrap(),
            now_ms,
        ) {
            lookup_device(v.backup.unwrap(), k)
        } else {
            None
        },
{
    lemma_keep_fresh(v.scan.unwrap(), v.backup.unwrap(), now_ms);
}

/// Observing a device always records its API URL in the session address book,
/// and leaves the addresses of other devices alone.
pub proof fn law_observation_resolves_device(v: DiscoveryStateView, d: DeviceView, k: Seq<char>)
    requires
        v.wf(),
    ensures
        lookup_url(v.upsert(d).resolved, d.device_id) == Some(d.api_url),
        k != d.device_id ==> lookup_url(v.upsert(d).resolved, k) == lookup_url(v.resolved, k),
{
    lemma_upsert_url(v.resolved, d.device_id, d.api_url);
}

/// The URL under which this device serves its own API locally.
pub open spec fn local_api_url(api_port: u16) -> Seq<char> {
    "http://localhost:"@ + decimal(api_port as nat) + "/api"@
}

impl DiscoveryState {
    /// A fresh registry, with periodic announcements enabled.
    pub fn new(device_id: String, device_name: String, api_port: u16) -> (s: DiscoveryState)
        ensures
            s@.wf(),
            s@.device_id == device_id@,
            s@.device_name == device_name@,
            s@.api_port == api_port,
            s@.committed.len() == 0,
            s@.resolved == seq![(device_id@, local_api_url(api_port))],
            s@.scan is None,
            s@.ref_count == 0,
            s@.periodic,
    {
        Self::new_with_periodic_discovery(device_id, device_name, api_port, true)
    }

    /// A fresh registry whose address book knows only this device (at localhost).
    pub fn new_with_periodic_discovery(
        device_id: String,
        device_name: String,
        api_port: u16,
        periodic_discovery_enabled: bool,
    ) -> (s: DiscoveryState)
        ensures
            s@.wf(),
            s@.device_id == device_id@,
            s@.device_name == device_name@,
            s@.api_port == api_port,
            s@.committed.len() == 0,
            s@.resolved == seq![(device_id@, local_api_url(api_port))],
            s@.scan is None,
            s@.backup is None,
            s@.ref_count == 0,
            s@.periodic == periodic_discovery_enabled,
    {
        let mut url: Vec<char> = Vec::new();
        push_str(&mut url, "http://localhost:");
        push_decimal(&mut url, api_port as u64);
        push_str(&mut url, "/api");
        let mut resolved: Vec<ResolvedEntry> = Vec::new();
        resolved.push(ResolvedEntry { device_id: device_id.clone(), api_url: string_of(&url) });
        let s = DiscoveryState {
            device_id,
            device_name,
            api_port,
            discovered_devices: Vec::new(),
            resolved_devices: resolved,
            scan_buffer: None,
            scan_backup: None,
            scan_ref_count: 0,
            periodic_discovery_enabled,
        };
        assert(s@.resolved =~= seq![(s@.device_id, local_api_url(api_port))]);
        assert(s@.committed =~= Seq::<DeviceView>::empty());
        s
    }

    /// Whether the background announcement task should run.
    pub fn is_periodic_discovery_enabled(&self) -> (r: bool)
        ensures
            r == self@.periodic,
    {
        self.periodic_discovery_enabled
    }

    /// Switches the background announcement task on or off.
    pub fn set_periodic_discovery_enabled(&mut self, enabled: bool)
        ensures
            final(self)@ == (DiscoveryStateView { periodic: enabled, ..old(self)@ }),
    {
        self.periodic_discovery_enabled = enabled;
    }

    /// This device's unique id.
    pub fn get_device_id(&self) -> (r: String)
        ensures
            r@ == self@.device_id,
    {
        self.device_id.clone()
    }

    /// The port this device serves its API on.
    pub fn get_api_port(&self) -> (r: u16)
        ensures
            r == self@.api_port,
    {
        self.api_port
    }

    /// The current device name.
    pub fn get_device_name(&self) -> (r: String)
        ensures
            r@ == self@.device_name,
    {
        self.device_name.clone()
    }

    /// Renames this device.
    pub fn set_device_name(&mut self, name: String)
        ensures
            final(self)@ == (DiscoveryStateView { device_name: name@, ..old(self)@ }),
    {
        self.device_name = name;
    }

    /// Joins the shared scan window; the first caller opens the transaction with an
    /// empty buffer and a backup of the committed devices.
    pub fn start_scan(&mut self)
        requires
            old(self)@.wf(),
            old(self)@.ref_count < usize::MAX,
        ensures
            final(self)@ == old(self)@.start_scan(),
            final(self)@.wf(),
    {
        if self.scan_ref_count == 0 {
            let current = copy_devices(&self.discovered_devices);
            self.scan_backup = Some(current);
            let empty: Vec<DiscoveredDevice> = Vec::new();
            assert(devices_view(empty@) =~= Seq::<DeviceView>::empty());
            self.scan_buffer = Some(empty);
        }
        self.scan_ref_count = self.scan_ref_count + 1;
        proof {
            if old(self)@.ref_count == 0 {
                assert(self@.scan == Some(Seq::<DeviceView>::empty()));
            }
        }
    }

    /// Leaves the scan window. Returns `false` when no scan was open or other
    /// callers remain inside; the last caller commits the scan result (keeping
    /// devices of the backup still within the liveness grace that the scan missed)
    /// on success, or restores the backup on failure, and returns `true`.
    pub fn finish_scan(&mut self, success: bool, now_ms: u64) -> (closed: bool)
        requires
            old(self)@.wf(),
        ensures
            (final(self)@, closed) == old(self)@.finish_scan(success, now_ms),
            final(self)@.wf(),
    {
        if self.scan_ref_count == 0 {
            return false;
        }
        self.scan_ref_count = self.scan_ref_count - 1;
        if self.scan_ref_count > 0 {
            return false;
        }
        let buffer = self.scan_buffer.take();
        let backup = self.scan_backup.take();
        match (buffer, backup) {
            (Some(mut next), Some(previous)) => {
                if success {
                    proof {
                        lemma_keep_fresh(devices_view(next@), devices_view(previous@), now_ms);
                    }
                    merge_fresh(&mut next, &previous, now_ms);
                    self.discovered_devices = next;
                } else {
                    self.discovered_devices = previous;
                }
            },
            _ => {},
        }
        true
    }

    /// Records a device observation. During a scan it goes to the scan buffer only;
    /// otherwise it updates the committed devices. Its URL is always recorded in the
    /// session address book.
    pub fn upsert_discovered_device(&mut self, device: DiscoveredDevice)
        requires
            old(self)@.wf(),
        ensures
            final(self)@ == old(self)@.upsert(device@),
            final(self)@.wf(),
    {
        self.mark_device_resolved(device.device_id.clone(), device.api_url.clone());
        proof {
            lemma_upsert_device(devices_view(self.discovered_devices@), device@);
        }
        match self.scan_buffer.take() {
            Some(mut scan) => {
                proof {
                    lemma_upsert_device(devices_view(scan@), device@);
                }
                upsert_into(&mut scan, device);
                self.scan_buffer = Some(scan);
            },
            None => {
                upsert_into(&mut self.discovered_devices, device);
            },
        }
    }

    /// Records a verified playback address for `device_id` for this server lifetime.
    pub fn mark_device_resolved(&mut self, device_id: String, api_url: String)
        requires
            old(self)@.wf(),
        ensures
            final(self)@ == (DiscoveryStateView {
                resolved: upsert_url(old(self)@.resolved, device_id@, api_url@),
                ..old(self)@
            }),
            final(self)@.wf(),
    {
        let ghost s = resolved_view(self.resolved_devices@);
        proof {
            lemma_upsert_url(s, device_id@, api_url@);
        }
        match find_resolved(&self.resolved_devices, &device_id) {
            Some(i) => {
                proof {
                    assert(has_key(s, device_id@));
                    let j = key_index(s, device_id@);
                    assert(s[j].0 == s[i as int].0);
                }
                let ghost did = device_id@;
                self.resolved_devices.set(i, ResolvedEntry { device_id, api_url });
                assert(resolved_view(self.resolved_devices@) =~= s.update(i as int, (did, api_url@)));
            },
            None => {
                let ghost did = device_id@;
                self.resolved_devices.push(ResolvedEntry { device_id, api_url });
                assert(resolved_view(self.resolved_devices@) =~= s.push((did, api_url@)));
            },
        }
    }

    /// The URL verified for `device_id` during this session, if any.
    pub fn resolve_device(&self, device_id: &String) -> (r: Option<String>)
        requires
            self@.wf(),
        ensures
            match r {
                Some(u) => lookup_url(self@.resolved, device_id@) == Some(u@),
                None => lookup_url(self@.resolved, device_id@) is None,
            },
    {
        match find_resolved(&self.resolved_devices, device_id) {
            Some(i) => {
                proof {
                    let s = self@.resolved;
                    assert(has_key(s, device_id@));
                    let j = key_index(s, device_id@);
                    assert(s[j].0 == s[i as int].0);
                }
                Some(self.resolved_devices[i].api_url.clone())
            },
            None => None,
        }
    }

    /// Committed devices.
    pub fn get_devices(&self) -> (r: Vec<DiscoveredDevice>)
        ensures
            devices_view(r@) == self@.committed,
    {
        copy_devices(&self.discovered_devices)
    }

    /// Devices visible during the current scan: committed devices stay visible until
    /// the shared scan finishes, and fresh observations override them.
    pub fn get_visible_devices(&self) -> (r: Vec<DiscoveredDevice>)
        requires
            self@.wf(),
        ensures
            devices_view(r@) == self@.visible(),
            unique_ids(devices_view(r@)),
    {
        match &self.scan_buffer {
            Some(scan) => {
                let mut visible = copy_devices(&self.discovered_devices);
                let ghost c = devices_view(self.discovered_devices@);
                let ghost sv = devices_view(scan@);
                let mut i: usize = 0;
                assert(sv.skip(0) =~= sv);
                proof {
                    lemma_overlay(c, sv);
                }
                while i < scan.len()
                    invariant
                        i <= scan.len(),
                        sv == devices_view(scan@),
                        unique_ids(devices_view(visible@)),
                        overlay(c, sv) == overlay(devices_view(visible@), sv.skip(i as int)),
                    decreases scan.len() - i,
                {
                    assert(sv.skip(i as int).drop_first() =~= sv.skip(i + 1));
                    assert(sv.skip(i as int)[0] == sv[i as int]);
                    proof {
                        lemma_upsert_device(devices_view(visible@), sv[i as int]);
                    }
                    upsert_into(&mut visible, scan[i].duplicate());
                    i = i + 1;
                }
                visible
            },
            None => copy_devices(&self.discovered_devices),
        }
    }
}

} // verus!
