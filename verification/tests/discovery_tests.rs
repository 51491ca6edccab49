use kaulan::discovery::{DiscoveredDevice, DiscoveryError, DiscoveryMessage, DiscoveryState};
use kaulan::discovery_api::{
    check_payload_size, device_responses, finish_scan_message, get_device_resolution,
    handle_discovery_message, rename_device, set_device_resolution, PacketAction,
};

fn device(id: &str, ip: &str, now_ms: u64) -> DiscoveredDevice {
    DiscoveredDevice::new(id.to_string(), format!("{id}-name"), ip.to_string(), 41234, 3000, now_ms)
}

fn ids(devices: &[DiscoveredDevice]) -> Vec<String> {
    devices.iter().map(|d| d.device_id.clone()).collect()
}

fn state() -> DiscoveryState {
    DiscoveryState::new("self".to_string(), "Me".to_string(), 3000)
}

#[test]
fn new_state_defaults() {
    let s = state();
    assert!(s.is_periodic_discovery_enabled());
    assert_eq!(s.get_device_id(), "self");
    assert_eq!(s.get_device_name(), "Me");
    assert_eq!(s.get_api_port(), 3000);
    assert!(s.get_devices().is_empty());
    let quiet = DiscoveryState::new_with_periodic_discovery("a".to_string(), "A".to_string(), 1, false);
    assert!(!quiet.is_periodic_discovery_enabled());
}

#[test]
fn discovered_device_address() {
    let d = device("peer", "192.168.1.5", 7);
    assert_eq!(d.api_url, "http://192.168.1.5:3000/api");
    assert_eq!(d.last_seen_ms, 7);
    assert_eq!(d.port, 41234);
}

#[test]
fn observation_outside_scan_is_committed_and_resolved() {
    let mut s = state();
    s.upsert_discovered_device(device("peer", "10.0.0.2", 0));
    assert_eq!(ids(&s.get_devices()), vec!["peer".to_string()]);
    assert_eq!(s.resolve_device(&"peer".to_string()), Some("http://10.0.0.2:3000/api".to_string()));
    s.upsert_discovered_device(device("peer", "10.0.0.3", 5));
    assert_eq!(s.get_devices().len(), 1);
    assert_eq!(s.resolve_device(&"peer".to_string()), Some("http://10.0.0.3:3000/api".to_string()));
}

#[test]
fn failed_scan_rolls_back() {
    let mut s = state();
    s.upsert_discovered_device(device("old", "10.0.0.1", 0));
    s.start_scan();
    s.upsert_discovered_device(device("new", "10.0.0.9", 10));
    assert!(s.get_devices().iter().all(|d| d.device_id != "new"));
    assert_eq!(ids(&s.get_visible_devices()), vec!["old".to_string(), "new".to_string()]);
    assert!(s.finish_scan(false, 20));
    assert_eq!(ids(&s.get_devices()), vec!["old".to_string()]);
    assert_eq!(s.resolve_device(&"new".to_string()), Some("http://10.0.0.9:3000/api".to_string()));
}

#[test]
fn successful_scan_keeps_seen_and_recent_devices() {
    let mut s = state();
    s.upsert_discovered_device(device("stale", "10.0.0.1", 0));
    s.upsert_discovered_device(device("recent", "10.0.0.2", 50_000));
    s.start_scan();
    s.upsert_discovered_device(device("seen", "10.0.0.3", 60_000));
    assert!(s.finish_scan(true, 60_000));
    assert_eq!(ids(&s.get_devices()), vec!["seen".to_string(), "recent".to_string()]);
}

#[test]
fn overlapping_scans_share_one_transaction() {
    let mut s = state();
    s.start_scan();
    s.start_scan();
    s.upsert_discovered_device(device("p", "10.0.0.4", 1));
    assert!(!s.finish_scan(true, 1));
    assert!(s.get_devices().is_empty());
    assert!(s.finish_scan(true, 1));
    assert_eq!(ids(&s.get_devices()), vec!["p".to_string()]);
    assert!(!s.finish_scan(true, 1));
}

#[test]
fn mark_resolved_and_lookup() {
    let mut s = state();
    s.mark_device_resolved("x".to_string(), "http://h/api".to_string());
    assert_eq!(s.resolve_device(&"x".to_string()), Some("http://h/api".to_string()));
    assert_eq!(s.resolve_device(&"y".to_string()), None);
    let own = get_device_resolution(&s, "self".to_string()).unwrap();
    assert_eq!(own.api_url, "http://localhost:3000/api");
    assert!(get_device_resolution(&s, "y".to_string()).is_none());
}

#[test]
fn resolution_requests_are_checked() {
    let mut s = state();
    let ok = set_device_resolution(&mut s, "d".to_string(), "https://d/api".to_string());
    assert!(ok.is_ok());
    assert_eq!(s.resolve_device(&"d".to_string()), Some("https://d/api".to_string()));
    let bad = set_device_resolution(&mut s, "  ".to_string(), "https://d/api".to_string());
    match bad {
        Err(e) => {
            assert!(!e.success);
            assert_eq!(e.message, "A device ID and HTTP(S) API URL are required");
        }
        Ok(_) => panic!("blank id accepted"),
    }
    assert!(set_device_resolution(&mut s, "d".to_string(), "ftp://d".to_string()).is_err());
}

#[test]
fn received_messages_update_registry() {
    let mut s = state();
    let anon = DiscoveryMessage::new_request();
    assert_eq!(handle_discovery_message(&mut s, &anon, "10.0.0.7", 5000, 1).ok(), Some(PacketAction::Respond));
    assert!(s.get_devices().is_empty());
    let req = DiscoveryMessage::new_identified_request("peer".to_string(), "P".to_string(), 4000);
    assert_eq!(handle_discovery_message(&mut s, &req, "10.0.0.7", 5000, 2).ok(), Some(PacketAction::Respond));
    assert_eq!(s.resolve_device(&"peer".to_string()), Some("http://10.0.0.7:4000/api".to_string()));
    let resp = DiscoveryMessage::new_response("other".to_string(), "O".to_string(), 4001);
    assert_eq!(handle_discovery_message(&mut s, &resp, "10.0.0.8", 5000, 3).ok(), Some(PacketAction::Recorded));
    let own = DiscoveryMessage::new_response("self".to_string(), "Me".to_string(), 3000);
    assert_eq!(handle_discovery_message(&mut s, &own, "10.0.0.1", 5000, 4).ok(), Some(PacketAction::Ignored));
    assert_eq!(s.get_devices().len(), 2);
}

#[test]
fn invalid_messages_are_refused() {
    let mut s = state();
    let mut bad = DiscoveryMessage::new_request();
    bad.version = "1.0".to_string();
    assert!(matches!(handle_discovery_message(&mut s, &bad, "1.1.1.1", 1, 1), Err(DiscoveryError::UnsupportedVersion(_))));
    let mut port0 = DiscoveryMessage::new_response("x".to_string(), "X".to_string(), 0);
    assert!(matches!(handle_discovery_message(&mut s, &port0, "1.1.1.1", 1, 1), Err(DiscoveryError::InvalidPort)));
    port0.api_port = Some(1);
    port0.device_name = Some("n".repeat(65));
    assert!(matches!(handle_discovery_message(&mut s, &port0, "1.1.1.1", 1, 1), Err(DiscoveryError::InvalidDeviceName)));
    assert!(s.get_devices().is_empty());
}

#[test]
fn payload_size_limit() {
    assert!(check_payload_size(1024).is_ok());
    assert!(matches!(check_payload_size(1025), Err(DiscoveryError::MessageTooLarge)));
}

#[test]
fn device_listing_reports_age() {
    let devices = vec![device("a", "10.0.0.1", 1_000), device("b", "10.0.0.2", 9_000)];
    let listed = device_responses(&devices, 6_500);
    assert_eq!(listed.len(), 2);
    assert_eq!(listed[0].last_seen_secs_ago, 5);
    assert_eq!(listed[1].last_seen_secs_ago, 0);
    assert_eq!(listed[1].api_url, "http://10.0.0.2:3000/api");
}

#[test]
fn scan_messages_and_rename() {
    assert_eq!(finish_scan_message(true), "Discovery scan committed");
    assert_eq!(finish_scan_message(false), "Discovery scan rolled back");
    let mut s = state();
    let r = rename_device(&mut s, "Kitchen");
    assert!(r.success);
    assert_eq!(r.message, "Device name updated");
    assert_eq!(s.get_device_name(), "Kitchen");
    let r = rename_device(&mut s, "");
    assert!(!r.success);
    assert_eq!(r.message, "Device name must be 1-64 characters");
    assert_eq!(s.get_device_name(), "Kitchen");
}

#[test]
fn periodic_flag_and_name_setters() {
    let mut s = state();
    s.set_periodic_discovery_enabled(false);
    assert!(!s.is_periodic_discovery_enabled());
    s.set_device_name("New".to_string());
    assert_eq!(s.get_device_name(), "New");
}

#[test]
fn device_names_are_counted_in_characters() {
    let mut s = state();
    let name = "名".repeat(33);
    let msg = DiscoveryMessage::new_response("peer".to_string(), name.clone(), 4000);
    assert!(msg.validate().is_ok());
    assert!(msg.timestamp >= 0);
    let long = DiscoveryMessage::new_response("peer".to_string(), "名".repeat(65), 4000);
    assert!(matches!(long.validate(), Err(DiscoveryError::InvalidDeviceName)));
    let r = rename_device(&mut s, &name);
    assert!(r.success);
    assert_eq!(s.get_device_name(), name);
    assert!(!rename_device(&mut s, &"名".repeat(65)).success);
}
