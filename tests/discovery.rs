use std::str::FromStr;

use droptea::advert::{advert_ips, browse_found, service_advert};
use droptea::ble::{ble_identity, is_target_device, uuid_hyphenated, BleThrottle};
use droptea::discovery::{
    probe_jitter_ms, DiscoveryAction, DiscoveryInternalEvent, PeerTable, TransportType,
};
use uuid::Uuid;

fn mdns_found(id: &str, ip: &str) -> DiscoveryInternalEvent {
    DiscoveryInternalEvent::MdnsFound {
        id: id.to_string(),
        name: "Bob".to_string(),
        ip: ip.to_string(),
        port: 4000,
    }
}

fn ble_found(id: &str) -> DiscoveryInternalEvent {
    DiscoveryInternalEvent::BleFound {
        id: id.to_string(),
        name: "Bob".to_string(),
        ssid: Some("net".to_string()),
        mac: "AA:BB".to_string(),
    }
}

#[test]
fn test_is_target_device_by_name() {
    let services = vec![];
    assert!(is_target_device("DT-iPhone", &services));
    assert!(is_target_device("DT-MacBook", &services));
    assert!(!is_target_device("iPhone-Somchai", &services));
}

#[test]
fn test_is_target_device_by_uuid() {
    let valid_uuid = Uuid::from_str("0000d7ea-0000-1000-8000-00805f9b34fb").unwrap();
    let invalid_uuid = Uuid::from_str("0000ffff-0000-1000-8000-00805f9b34fb").unwrap();

    assert!(is_target_device("Unknown Device", &[valid_uuid.as_u128()]));
    assert!(!is_target_device("Unknown Device", &[invalid_uuid.as_u128()]));
    assert!(is_target_device("Unknown", &[invalid_uuid.as_u128(), valid_uuid.as_u128()]));
}

#[test]
fn uuid_text_matches_the_uuid_crate() {
    for text in ["0000d7ea-0000-1000-8000-00805f9b34fb", "ffffffff-ffff-ffff-ffff-ffffffffffff", "00000000-0000-0000-0000-000000000000"] {
        let u = Uuid::from_str(text).unwrap();
        assert_eq!(uuid_hyphenated(u.as_u128()), u.to_string());
        assert_eq!(uuid_hyphenated(u.as_u128()), text);
    }
    assert_eq!(uuid_hyphenated(0x0123456789abcdef0123456789abcdef), "01234567-89ab-cdef-0123-456789abcdef");
}

#[test]
fn transport_labels() {
    assert_eq!(TransportType::Lan.to_string(), "LAN");
    assert_eq!(TransportType::BleOnly.to_string(), "BLE");
    assert_eq!(TransportType::Hybrid.to_string(), "HYBRID");
}

#[test]
fn lan_then_ble_becomes_hybrid() {
    let mut t = PeerTable::new();
    match t.handle_event(mdns_found("peer-a", "10.0.0.2"), 1000) {
        DiscoveryAction::PeerFound { id, ip, port, transport, ssid, .. } => {
            assert_eq!(id, "peer-a");
            assert_eq!(ip, "10.0.0.2");
            assert_eq!(port, 4000);
            assert_eq!(transport, TransportType::Lan);
            assert_eq!(ssid, None);
        }
        _ => panic!("expected a found peer"),
    }
    assert!(matches!(t.handle_event(ble_found("peer-a"), 2000), DiscoveryAction::Nothing));
    let p = t.get("peer-a").unwrap();
    assert_eq!(p.transport, TransportType::Hybrid);
    assert_eq!(p.ble_mac.as_deref(), Some("AA:BB"));
    assert_eq!(p.ip.as_deref(), Some("10.0.0.2"));
    assert_eq!(p.last_seen, 2000);
    assert_eq!(t.len(), 1);
}

#[test]
fn ble_then_lan_upgrades_to_hybrid() {
    let mut t = PeerTable::new();
    match t.handle_event(ble_found("peer-b"), 10) {
        DiscoveryAction::PeerFound { ip, port, transport, ssid, .. } => {
            assert_eq!(ip, "");
            assert_eq!(port, 0);
            assert_eq!(transport, TransportType::BleOnly);
            assert_eq!(ssid.as_deref(), Some("net"));
        }
        _ => panic!("expected a found peer"),
    }
    match t.handle_event(mdns_found("peer-b", "10.0.0.3"), 20) {
        DiscoveryAction::PeerFound { transport, ssid, .. } => {
            assert_eq!(transport, TransportType::Hybrid);
            assert_eq!(ssid.as_deref(), Some("net"));
        }
        _ => panic!("expected a found peer"),
    }
    assert_eq!(t.get("peer-b").unwrap().transport, TransportType::Hybrid);
}

#[test]
fn mdns_lost_downgrades_hybrid_and_removes_lan() {
    let mut t = PeerTable::new();
    t.handle_event(mdns_found("h", "10.0.0.4"), 0);
    t.handle_event(ble_found("h"), 0);
    t.handle_event(mdns_found("l", "10.0.0.5"), 0);
    let lost_h = t.handle_event(DiscoveryInternalEvent::MdnsLost { id: "h".to_string() }, 5);
    assert!(matches!(lost_h, DiscoveryAction::Nothing));
    let h = t.get("h").unwrap();
    assert_eq!(h.transport, TransportType::BleOnly);
    assert!(h.ip.is_none());
    match t.handle_event(DiscoveryInternalEvent::MdnsLost { id: "l".to_string() }, 5) {
        DiscoveryAction::PeerLost { id } => assert_eq!(id, "l"),
        _ => panic!("expected a lost peer"),
    }
    assert!(t.get("l").is_none());
    let none = t.handle_event(DiscoveryInternalEvent::MdnsLost { id: "zz".to_string() }, 5);
    assert!(matches!(none, DiscoveryAction::Nothing));
}

#[test]
fn link_invariant_holds_over_events() {
    let mut t = PeerTable::new();
    t.handle_event(ble_found("a"), 0);
    t.handle_event(mdns_found("b", "10.0.0.1"), 0);
    t.handle_event(ble_found("b"), 0);
    t.handle_event(DiscoveryInternalEvent::MdnsLost { id: "b".to_string() }, 0);
    for id in ["a", "b"] {
        let p = t.get(id).unwrap();
        let ble_only = p.transport == TransportType::BleOnly;
        assert_eq!(ble_only, p.ip.is_none() && p.ble_mac.is_some());
    }
}

#[test]
fn hybrid_degrades_after_three_failed_probes() {
    let mut t = PeerTable::new();
    t.handle_event(mdns_found("b", "10.0.0.9"), 0);
    t.handle_event(ble_found("b"), 0);
    assert!(t.suspects(15_000).is_empty());
    let s = t.suspects(15_001);
    assert_eq!(s.len(), 1);
    assert_eq!(s[0].id, "b");
    assert_eq!(s[0].ip, "10.0.0.9");
    assert_eq!(s[0].port, 4000);
    for _ in 0..2 {
        assert!(matches!(t.apply_probe_result("b", false, 20_000), DiscoveryAction::Nothing));
        assert_eq!(t.get("b").unwrap().transport, TransportType::Hybrid);
    }
    assert!(matches!(t.apply_probe_result("b", false, 25_000), DiscoveryAction::Nothing));
    let p = t.get("b").unwrap();
    assert_eq!(p.transport, TransportType::BleOnly);
    assert!(p.ip.is_none());
    assert!(t.suspects(100_000).is_empty());
}

#[test]
fn lan_peer_is_removed_after_three_failed_probes() {
    let mut t = PeerTable::new();
    t.handle_event(mdns_found("c", "10.0.0.7"), 0);
    t.apply_probe_result("c", false, 1);
    t.apply_probe_result("c", false, 2);
    match t.apply_probe_result("c", false, 3) {
        DiscoveryAction::PeerLost { id } => assert_eq!(id, "c"),
        _ => panic!("expected a lost peer"),
    }
    assert!(t.get("c").is_none());
}

#[test]
fn successful_probe_resets_missed_pings() {
    let mut t = PeerTable::new();
    t.handle_event(mdns_found("d", "10.0.0.8"), 0);
    t.apply_probe_result("d", false, 1);
    t.apply_probe_result("d", false, 2);
    t.apply_probe_result("d", true, 30_000);
    let p = t.get("d").unwrap();
    assert_eq!(p.missed_pings, 0);
    assert_eq!(p.last_seen, 30_000);
    assert!(matches!(t.apply_probe_result("nobody", false, 1), DiscoveryAction::Nothing));
}

#[test]
fn probe_jitter_range() {
    for _ in 0..50 {
        let j = probe_jitter_ms();
        assert!((50..150).contains(&j));
    }
}

#[test]
fn ble_ids() {
    assert_eq!(
        ble_identity(Some("Pixel".to_string()), "AA:BB:CC"),
        ("Pixel".to_string(), "Pixel".to_string())
    );
    assert_eq!(
        ble_identity(None, "AA:BB:CC"),
        ("ble-AABBCC".to_string(), "iPad/iPhone (DropTea)".to_string())
    );
    assert_eq!(
        ble_identity(Some("Unknown".to_string()), "1:2"),
        ("Unknown".to_string(), "Unknown".to_string())
    );
}

#[test]
fn ble_throttle_skips_within_a_second() {
    let mut th = BleThrottle::new();
    assert!(th.should_process("dev", 1000));
    assert!(!th.should_process("dev", 1999));
    assert!(th.should_process("dev", 2000));
    assert!(th.should_process("other", 2000));
}

#[test]
fn advert_records() {
    let ips = advert_ips("10.0.0.2", true);
    assert_eq!(ips, vec!["10.0.0.2".to_string(), "192.168.137.1".to_string()]);
    assert_eq!(advert_ips("192.168.137.1", true).len(), 1);
    assert_eq!(advert_ips("10.0.0.2", false).len(), 1);
    let a = service_advert("node1", "Alice", "10.0.0.2", 7000);
    assert_eq!(a.service_type, "_droptea._tcp.local.");
    assert_eq!(a.instance, "DropTea-node1");
    assert_eq!(a.host, "node1.local.");
    assert_eq!(a.port, 7000);
    assert_eq!(a.properties[3], ("type".to_string(), "lan".to_string()));
    let hs = service_advert("node1", "Alice", "192.168.137.1", 7000);
    assert_eq!(hs.instance, "DropTea-node1-HS");
    assert_eq!(hs.properties[3].1, "hotspot");
    assert_eq!(hs.properties[1], ("ver".to_string(), "1.0".to_string()));
}

#[test]
fn browse_prefers_ipv4_and_cleans_name() {
    let addrs = vec!["fe80::1".to_string(), "10.0.0.5".to_string()];
    match browse_found("me", "10.0.0.2", "DropTea-bob._droptea._tcp.local.", &addrs, 9, Some("name= Bob ".to_string())) {
        Some(DiscoveryInternalEvent::MdnsFound { id, name, ip, port }) => {
            assert_eq!(id, "DropTea-bob._droptea._tcp.local.");
            assert_eq!(name, "Bob");
            assert_eq!(ip, "10.0.0.5");
            assert_eq!(port, 9);
        }
        _ => panic!("expected a found service"),
    }
}

#[test]
fn browse_brackets_ipv6_and_skips_self() {
    let v6 = vec!["fe80::1".to_string()];
    match browse_found("me", "10.0.0.2", "DropTea-bob", &v6, 9, None) {
        Some(DiscoveryInternalEvent::MdnsFound { ip, name, .. }) => {
            assert_eq!(ip, "[fe80::1]");
            assert_eq!(name, "Unknown");
        }
        _ => panic!("expected a found service"),
    }
    assert!(browse_found("me", "10.0.0.2", "DropTea-me", &v6, 9, None).is_none());
    let own = vec!["10.0.0.2".to_string()];
    assert!(browse_found("me", "10.0.0.2", "DropTea-x", &own, 9, None).is_none());
    let gw = vec!["192.168.137.1".to_string()];
    assert!(browse_found("me", "10.0.0.2", "DropTea-x", &gw, 9, None).is_none());
    assert!(browse_found("me", "10.0.0.2", "DropTea-x", &vec![], 9, None).is_none());
}
