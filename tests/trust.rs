use droptea::config::{default_mode, parse_mode, AppConfig, DevConfig, ServerConfig, StorageConfig};
use droptea::engine::{bracket_host, Limiter, PendingRequests, TransferLimits, TransportMode};
use droptea::handshake::{find_device, greeting_bytes, rescan_over, retry_connect};
use droptea::notification::UserResponse;
use droptea::security::{identity_paths, store_paths, SecurityManager, TofuError, TofuVerifier};
use droptea::transfer::CertificateAction;
use droptea::transports::{ConnectionPool, QuicConfig, TcpConfig};
use droptea::utils::{generic_user, get_unique_path, path_candidates, split_name, system_name_of};

#[test]
fn known_host_is_returned_after_save() {
    let mut m = SecurityManager::new("/tmp/sec".to_string());
    assert_eq!(m.get_known_fingerprint("peer"), None);
    assert!(m.save_known_host("peer".to_string(), "f1".to_string()));
    assert_eq!(m.get_known_fingerprint("peer").as_deref(), Some("f1"));
    assert!(!m.save_known_host("peer".to_string(), "f1".to_string()));
    assert!(m.save_known_host("peer".to_string(), "f2".to_string()));
    assert_eq!(m.get_known_fingerprint("peer").as_deref(), Some("f2"));
    assert_eq!(m.host_entries(), vec![("peer".to_string(), "f2".to_string())]);
}

#[test]
fn whitelist_adds_once() {
    let mut m = SecurityManager::new("/tmp/sec".to_string());
    assert!(!m.is_trusted("alice"));
    assert!(m.add_trust("alice".to_string()));
    assert!(!m.add_trust("alice".to_string()));
    assert!(m.is_trusted("alice"));
    assert_eq!(m.trusted_senders(), vec!["alice".to_string()]);
}

#[test]
fn tofu_first_use_without_callback_pins() {
    let mut v = TofuVerifier::new(SecurityManager::new("/s".to_string()));
    assert!(!v.needs_user("A", "F0"));
    assert_eq!(v.check_cert("A".to_string(), "F0".to_string(), None), Ok(true));
    assert_eq!(v.check_cert("A".to_string(), "F0".to_string(), None), Ok(false));
    assert_eq!(v.check_cert("A".to_string(), "F0".to_string(), Some(CertificateAction::Reject)), Ok(false));
    assert_eq!(
        v.check_cert("A".to_string(), "F1".to_string(), None),
        Err(TofuError::FingerprintMismatch)
    );
    assert_eq!(v.manager.get_known_fingerprint("A").as_deref(), Some("F0"));
}

#[test]
fn tofu_mismatch_asks_the_user() {
    let mut m = SecurityManager::new("/s".to_string());
    m.save_known_host("A".to_string(), "F0".to_string());
    let mut v = TofuVerifier::with_callback(m, Some("notes.txt".to_string()));
    assert!(v.needs_user("A", "F1"));
    assert!(!v.needs_user("A", "F0"));
    assert_eq!(
        v.check_cert("A".to_string(), "F1".to_string(), Some(CertificateAction::Reject)),
        Err(TofuError::FingerprintMismatch)
    );
    assert_eq!(v.manager.get_known_fingerprint("A").as_deref(), Some("F0"));
    assert_eq!(
        v.check_cert("A".to_string(), "F1".to_string(), None),
        Err(TofuError::CallbackFailed)
    );
    assert_eq!(
        v.check_cert("A".to_string(), "F1".to_string(), Some(CertificateAction::Accept)),
        Ok(true)
    );
    assert_eq!(v.manager.get_known_fingerprint("A").as_deref(), Some("F1"));
}

#[test]
fn tofu_first_use_rejected_by_user() {
    let mut v = TofuVerifier::with_callback(SecurityManager::new("/s".to_string()), None);
    assert_eq!(
        v.check_cert("B".to_string(), "F".to_string(), Some(CertificateAction::Reject)),
        Err(TofuError::Rejected)
    );
    assert_eq!(v.manager.get_known_fingerprint("B"), None);
}

#[test]
fn fingerprint_is_blake3_hex_and_peer_is_trimmed() {
    let v = TofuVerifier::new(SecurityManager::new("/s".to_string()));
    let (peer, fp) = v.identify(b"abc", "  10.0.0.1 ");
    assert_eq!(peer, "10.0.0.1");
    assert_eq!(fp, "6437b3ac38465133ffb63b75273a8db548c558465d79db03fd359c6cd5bd9d85");
}

#[test]
fn storage_paths() {
    let (c, k) = identity_paths("/data", "node");
    assert_eq!(c, "/data/security/node_cert.der");
    assert_eq!(k, "/data/security/node_key.der");
    let (h, w) = store_paths("/data");
    assert_eq!(h, "/data/security/known_hosts.json");
    assert_eq!(w, "/data/security/whitelist.json");
}

#[test]
fn unique_path_plain_when_free() {
    assert_eq!(get_unique_path("/dl", "../../etc/notes.txt", &vec![], 5), "/dl/notes.txt");
    assert_eq!(get_unique_path("/dl", "", &vec![], 5), "/dl/unknown_file");
}

#[test]
fn unique_path_collisions() {
    let (base, simple) = path_candidates("/dl", "notes.txt");
    assert_eq!(base, "/dl/notes.txt");
    assert_eq!(simple, "/dl/notes_1.txt");
    assert_eq!(get_unique_path("/dl", "notes.txt", &vec![base.clone()], 5), "/dl/notes_1.txt");
    let nanos: u128 = 1_700_000_000_123_456_789;
    let p = get_unique_path("/dl", "notes.txt", &vec![base, simple], nanos);
    assert_eq!(p, "/dl/notes_1700000000123456789.txt");
    let digits = p.trim_start_matches("/dl/notes_").trim_end_matches(".txt");
    assert!(digits.len() >= 10 && digits.chars().all(|c| c.is_ascii_digit()));
}

#[test]
fn unique_path_without_extension() {
    let existing = vec!["/dl/README".to_string()];
    assert_eq!(get_unique_path("/dl", "README", &existing, 1), "/dl/README_1");
}

#[test]
fn resolve_request_twice_has_no_effect() {
    let mut p: PendingRequests<u32> = PendingRequests::new();
    p.register("t1".to_string(), 7);
    assert_eq!(p.resolve_request("t1", true), Some((7, UserResponse::Accept)));
    assert_eq!(p.resolve_request("t1", false), None);
    p.register("t2".to_string(), 8);
    assert_eq!(p.resolve_request("t2", false), Some((8, UserResponse::Decline)));
    p.register("t3".to_string(), 9);
    p.forget("t3");
    assert_eq!(p.resolve_request("t3", true), None);
}

#[test]
fn limits_hold_permits() {
    let mut l = TransferLimits::new();
    for _ in 0..5 {
        assert!(l.inbound.try_acquire());
    }
    assert!(!l.inbound.try_acquire());
    l.inbound.release();
    assert!(l.inbound.try_acquire());
    let mut out = Limiter::new(50);
    for _ in 0..50 {
        assert!(out.try_acquire());
    }
    assert!(!out.try_acquire());
    assert_eq!(l.outbound.capacity, 50);
}

#[test]
fn ipv6_hosts_get_brackets() {
    assert_eq!(bracket_host("fe80::1"), "[fe80::1]");
    assert_eq!(bracket_host("[fe80::1]"), "[fe80::1]");
    assert_eq!(bracket_host("10.0.0.1"), "10.0.0.1");
}

#[test]
fn config_to_engine() {
    let cfg = AppConfig {
        server: ServerConfig { port: 9000, buffer_size: 1, mode: "QUIC".to_string(), node_name: Some("n1".to_string()) },
        storage: StorageConfig { save_path: "/dl".to_string(), temp_path: "/tmp".to_string() },
        dev: Some(DevConfig { enabled: true }),
    };
    let e = cfg.to_engine_config();
    assert_eq!(e.mode, TransportMode::Quic);
    assert_eq!(e.port, 9000);
    assert_eq!(e.storage_path, "/dl");
    assert_eq!(e.node_name, "n1");
    assert!(e.dev_mode);
    assert_eq!(parse_mode("Plain_TCP"), TransportMode::PlainTcp);
    assert_eq!(parse_mode("plaintcp"), TransportMode::PlainTcp);
    assert_eq!(parse_mode("whatever"), TransportMode::Tcp);
    assert_eq!(default_mode(), "tcp");
    assert!(generic_user("root"));
    assert!(!generic_user("alice"));
    assert_eq!(system_name_of("root".to_string(), "box".to_string()), "box");
    assert_eq!(system_name_of("alice".to_string(), "box".to_string()), "alice");
}

#[test]
fn transport_defaults() {
    let q = QuicConfig::default();
    assert_eq!(q.stream_window_size, 32 * 1024 * 1024);
    assert_eq!(q.connection_window_size, 128 * 1024 * 1024);
    assert_eq!(q.max_concurrent_streams, 1000);
    let t = TcpConfig::default();
    assert!(t.nodelay);
    assert_eq!(t.socket_buffer_size, 2 * 1024 * 1024);
}

#[test]
fn pool_keeps_one_connection_per_address() {
    let mut pool: ConnectionPool<u32> = ConnectionPool::new();
    assert_eq!(pool.settle("10.0.0.1:9".to_string(), 1, false), None);
    assert_eq!(pool.settle("10.0.0.1:9".to_string(), 2, true), Some(2));
    assert_eq!(pool.get("10.0.0.1:9"), Some(&1));
    assert_eq!(pool.settle("10.0.0.1:9".to_string(), 3, false), None);
    assert_eq!(pool.get("10.0.0.1:9"), Some(&3));
    pool.evict("10.0.0.1:9");
    assert_eq!(pool.get("10.0.0.1:9"), None);
}

#[test]
fn handshake_decisions() {
    let addrs = vec!["AA".to_string(), "BB".to_string(), "BB".to_string()];
    assert_eq!(find_device(&addrs, "BB"), Some(1));
    assert_eq!(find_device(&addrs, "CC"), None);
    assert!(retry_connect(2));
    assert!(!retry_connect(3));
    assert!(!rescan_over(5));
    assert!(rescan_over(6));
    assert_eq!(greeting_bytes(), b"Hello DropTea".to_vec());
}

#[test]
fn file_name_split_matches_std_path() {
    for n in ["notes.txt", ".bashrc", "a.b.c", "README", "x.", "archive.tar.gz", "unknown_file"] {
        let p = std::path::Path::new(n);
        let stem = p.file_stem().unwrap().to_str().unwrap().to_string();
        let ext = p.extension().map(|e| format!(".{}", e.to_str().unwrap())).unwrap_or_default();
        assert_eq!(split_name(n), (stem, ext), "{}", n);
    }
}
