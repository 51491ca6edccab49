//! What the discovery endpoints and the UDP listener decide: how a received
//! message changes the device registry, and how the HTTP API answers.
use vstd::prelude::*;
use crate::discovery::{
    api_url_for, local_api_url, lookup_url, DeviceView, DiscoveredDevice, DiscoveryError,
    DiscoveryMessage, DiscoveryState, DiscoveryStateView,
};
use crate::remote::opt_string_view;
use crate::text::{chars_of, decimal, has_prefix, push_decimal, push_str, str_eq, str_starts_with, string_of, trim, trim_chars};

verus! {

/// What the listener does after a valid message.
#[derive(Clone, Copy, Debug, PartialEq, Eq, Structural)]
pub enum PacketAction {
    /// Send this device's response to the requester.
    Respond,
    /// A peer's response was recorded.
    Recorded,
    /// The message was this device's own response.
    Ignored,
}

/// The registry after a message from `ip`:`port` at `now_ms`: an identified
/// request or a response from another device records that device (at the
/// sender's address and the announced API port); anything else leaves it.
pub open spec fn after_message(v: DiscoveryStateView, m: (Seq<char>, Option<Seq<char>>, Option<Seq<char>>, Option<u16>), ip: Seq<char>, port: u16, now_ms: u64) -> DiscoveryStateView {
    let (kind, id, name, api_port) = m;
    match (id, name, api_port) {
        (Some(i), Some(n), Some(p)) => if i == v.device_id {
            v
        } else {
            v.upsert(
                DeviceView { device_id: i, device_name: n, api_url: api_url_for(ip, p), last_seen_ms: now_ms, ip, port },
            )
        },
        _ => v,
    }
}

/// The message's type and identity fields.
pub open spec fn message_fields(msg: &DiscoveryMessage) -> (Seq<char>, Option<Seq<char>>, Option<Seq<char>>, Option<u16>) {
    (msg.message_type@, opt_string_view(msg.device_id), opt_string_view(msg.device_name), msg.api_port)
}

/// Handles a received discovery message from `ip`:`port` at `now_ms`. An
/// invalid message is refused with the reason; a request is answered (after
/// recording an identified requester); a response from another device is
/// recorded; this device's own response is ignored.
pub fn handle_discovery_message(
    state: &mut DiscoveryState,
    msg: &DiscoveryMessage,
    ip: &str,
    port: u16,
    now_ms: u64,
) -> (r: Result<PacketAction, DiscoveryError>)
    requires
        old(state)@.wf(),
    ensures
        final(state)@.wf(),
        r is Err <==> !msg.is_valid(),
        r is Err ==> final(state)@ == old(state)@,
        r matches Ok(a) ==> {
            &&& final(state)@ == after_message(old(state)@, message_fields(msg), ip@, port, now_ms)
            &&& (a == PacketAction::Respond <==> msg.message_type@ == DiscoveryMessage::REQUEST_TYPE@)
            &&& (a == PacketAction::Ignored <==> (msg.message_type@ == DiscoveryMessage::RESPONSE_TYPE@
                && opt_string_view(msg.device_id) == Some(old(state)@.device_id)))
        },
{
    match msg.validate() {
        Err(e) => {
            return Err(e);
        },
        Ok(()) => {},
    }
    let is_request = str_eq(msg.message_type.as_str(), DiscoveryMessage::REQUEST_TYPE);
    assert(DiscoveryMessage::REQUEST_TYPE@ != DiscoveryMessage::RESPONSE_TYPE@) by {
        reveal_strlit("kaulan-discovery-request");
        reveal_strlit("kaulan-discovery-response");
        assert("kaulan-discovery-request"@.len() != "kaulan-discovery-response"@.len());
    }
    match (&msg.device_id, &msg.device_name, msg.api_port) {
        (Some(id), Some(name), Some(p)) => {
            let own_id = state.get_device_id();
            if str_eq(id.as_str(), own_id.as_str()) {
                return if is_request {
                    Ok(PacketAction::Respond)
                } else {
                    Ok(PacketAction::Ignored)
                };
            }
            let device = DiscoveredDevice::new(
                string_of(&chars_of(id.as_str())),
                string_of(&chars_of(name.as_str())),
                string_of(&chars_of(ip)),
                port,
                p,
                now_ms,
            );
            state.upsert_discovered_device(device);
            if is_request {
                Ok(PacketAction::Respond)
            } else {
                Ok(PacketAction::Recorded)
            }
        },
        _ => {
            Ok(PacketAction::Respond)
        },
    }
}

/// A message can be sent when its JSON takes at most the protocol's 1024 bytes.
pub fn check_payload_size(len: usize) -> (r: Result<(), DiscoveryError>)
    ensures
        r is Ok <==> len <= 1024,
        r is Err ==> r matches Err(DiscoveryError::MessageTooLarge),
{
    if len > DiscoveryMessage::MAX_SIZE {
        Err(DiscoveryError::MessageTooLarge)
    } else {
        Ok(())
    }
}

/// A discovered device as the API lists it.
pub struct DiscoveredDeviceResponse {
    pub device_id: String,
    pub device_name: String,
    pub api_url: String,
    pub last_seen_secs_ago: u64,
}

/// This device as the API shows it.
pub struct SelfDeviceResponse {
    pub device_id: String,
    pub device_name: String,
}

/// A device's playback address for this session.
pub struct DeviceResolutionResponse {
    pub device_id: String,
    pub api_url: String,
}

/// A request to record a device's playback address.
pub struct SetDeviceResolutionRequest {
    pub api_url: String,
}

/// Whether periodic announcements are on.
pub struct PeriodicDiscoveryResponse {
    pub enabled: bool,
}

/// A request to turn periodic announcements on or off.
pub struct SetPeriodicDiscoveryRequest {
    pub enabled: bool,
}

/// A request to rename this device.
pub struct SetDeviceNameRequest {
    pub name: String,
}

/// A request to end a scan, keeping its result on success.
pub struct FinishScanRequest {
    pub success: bool,
}

/// The outcome of an operation.
pub struct OperationResponse {
    pub success: bool,
    pub message: String,
}

/// The outcome of a rename.
pub struct SetDeviceNameResponse {
    pub success: bool,
    pub message: String,
}

/// Whole seconds since a device was last seen (none when the clock went back).
pub open spec fn seconds_ago(now_ms: u64, last_seen_ms: u64) -> u64 {
    if now_ms >= last_seen_ms {
        ((now_ms - last_seen_ms) / 1000) as u64
    } else {
        0
    }
}

/// Lists the devices for the API, with how long ago each was seen.
pub fn device_responses(devices: &Vec<DiscoveredDevice>, now_ms: u64) -> (r: Vec<DiscoveredDeviceResponse>)
    ensures
        r@.len() == devices@.len(),
        forall|i: int|
            0 <= i < r@.len() ==> {
                &&& (#[trigger] r@[i]).device_id@ == devices@[i]@.device_id
                &&& r@[i].device_name@ == devices@[i]@.device_name
                &&& r@[i].api_url@ == devices@[i]@.api_url
                &&& r@[i].last_seen_secs_ago == seconds_ago(now_ms, devices@[i]@.last_seen_ms)
            },
{
    let mut r: Vec<DiscoveredDeviceResponse> = Vec::new();
    let mut i: usize = 0;
    while i < devices.len()
        invariant
            i <= devices.len(),
            r@.len() == i,
            forall|j: int|
                0 <= j < i ==> {
                    &&& (#[trigger] r@[j]).device_id@ == devices@[j]@.device_id
                    &&& r@[j].device_name@ == devices@[j]@.device_name
                    &&& r@[j].api_url@ == devices@[j]@.api_url
                    &&& r@[j].last_seen_secs_ago == seconds_ago(now_ms, devices@[j]@.last_seen_ms)
                },
        decreases devices.len() - i,
    {
        let d = &devices[i];
        let ago: u64 = if now_ms >= d.last_seen_ms {
            (now_ms - d.last_seen_ms) / 1000
        } else {
            0
        };
        r.push(
            DiscoveredDeviceResponse {
                device_id: string_of(&chars_of(d.device_id.as_str())),
                device_name: string_of(&chars_of(d.device_name.as_str())),
                api_url: string_of(&chars_of(d.api_url.as_str())),
                last_seen_secs_ago: ago,
            },
        );
        i = i + 1;
    }
    r
}

/// A device's playback address: the one verified this session; for this device
/// itself, its localhost address even if the address book lost it; otherwise
/// none (answered with 404).
pub open spec fn resolution(v: DiscoveryStateView, device_id: Seq<char>) -> Option<Seq<char>> {
    match lookup_url(v.resolved, device_id) {
        Some(u) => Some(u),
        None => if device_id == v.device_id {
            Some(local_api_url(v.api_port))
        } else {
            None
        },
    }
}

/// Answers a request for a device's playback address.
pub fn get_device_resolution(state: &DiscoveryState, device_id: String) -> (r: Option<DeviceResolutionResponse>)
    requires
        state@.wf(),
    ensures
        match r {
            Some(res) => res.device_id@ == device_id@ && resolution(state@, device_id@) == Some(res.api_url@),
            None => resolution(state@, device_id@) is None,
        },
{
    match state.resolve_device(&device_id) {
        Some(api_url) => Some(DeviceResolutionResponse { device_id, api_url }),
        None => {
            let own_id = state.get_device_id();
            if str_eq(own_id.as_str(), device_id.as_str()) {
                let mut url: Vec<char> = Vec::new();
                push_str(&mut url, "http://localhost:");
                push_decimal(&mut url, state.get_api_port() as u64);
                push_str(&mut url, "/api");
                Some(DeviceResolutionResponse { device_id, api_url: string_of(&url) })
            } else {
                None
            }
        },
    }
}

/// A playback address may be recorded for a non-blank device id and an
/// `http://` or `https://` URL.
pub open spec fn resolution_request_ok(device_id: Seq<char>, api_url: Seq<char>) -> bool {
    trim(device_id).len() > 0 && (has_prefix(api_url, "http://"@) || has_prefix(api_url, "https://"@))
}

/// Records a device's playback address when the request is acceptable.
pub fn set_device_resolution(state: &mut DiscoveryState, device_id: String, api_url: String) -> (r: Result<
    DeviceResolutionResponse,
    OperationResponse,
>)
    requires
        old(state)@.wf(),
    ensures
        final(state)@.wf(),
        match r {
            Ok(res) => resolution_request_ok(device_id@, api_url@) && res.device_id@ == device_id@
                && res.api_url@ == api_url@ && final(state)@ == (DiscoveryStateView {
                resolved: crate::discovery::upsert_url(old(state)@.resolved, device_id@, api_url@),
                ..old(state)@
            }),
            Err(e) => !resolution_request_ok(device_id@, api_url@) && !e.success && e.message@
                == "A device ID and HTTP(S) API URL are required"@ && final(state)@ == old(state)@,
        },
{
    let blank = trim_chars(&chars_of(device_id.as_str())).len() == 0;
    let http = str_starts_with(api_url.as_str(), "http://") || str_starts_with(api_url.as_str(), "https://");
    if blank || !http {
        return Err(
            OperationResponse {
                success: false,
                message: "A device ID and HTTP(S) API URL are required".to_owned(),
            },
        );
    }
    let id_copy = string_of(&chars_of(device_id.as_str()));
    let url_copy = string_of(&chars_of(api_url.as_str()));
    state.mark_device_resolved(id_copy, url_copy);
    Ok(DeviceResolutionResponse { device_id, api_url })
}

/// The message answering the end of a scan.
pub fn finish_scan_message(success: bool) -> (r: &'static str)
    ensures
        r@ == (if success {
            "Discovery scan committed"@
        } else {
            "Discovery scan rolled back"@
        }),
{
    if success {
        "Discovery scan committed"
    } else {
        "Discovery scan rolled back"
    }
}

/// Renames this device when the name has 1 to 64 characters; otherwise refuses.
pub fn rename_device(state: &mut DiscoveryState, name: &str) -> (r: SetDeviceNameResponse)
    ensures
        r.success <==> 0 < name@.len() <= 64,
        r.success ==> final(state)@ == (DiscoveryStateView { device_name: name@, ..old(state)@ }),
        !r.success ==> final(state)@ == old(state)@ && r.message@ == "Device name must be 1-64 characters"@,
        r.success ==> r.message@ == "Device name updated"@,
{
    let len = name.unicode_len();
    if len == 0 || len > 64 {
        return SetDeviceNameResponse {
            success: false,
            message: "Device name must be 1-64 characters".to_owned(),
        };
    }
    state.set_device_name(string_of(&chars_of(name)));
    SetDeviceNameResponse { success: true, message: "Device name updated".to_owned() }
}

} // verus!
