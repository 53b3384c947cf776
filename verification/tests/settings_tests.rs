use closeshare::config::Config;
use closeshare::error::CloseShareError;
use closeshare::state::{choose_device_id, device_id_text, load_device_id, parse_id, DeviceIdChoice, TransferStatus};

#[test]
fn default_config() {
    let c = Config::defaults(Some("host".to_string()), Some("/home/me".to_string()));
    assert_eq!(c.display_name, "host");
    assert_eq!(c.group_code, "");
    assert_eq!(c.shared_folder, "/home/me");
    assert_eq!(c.discovery_port, 19999);
    assert_eq!(c.transfer_port, 20000);
    assert_eq!(c.discovery_broadcast_addr, "255.255.255.255");
    assert_eq!(c.max_parallel_connections, 8);
    assert_eq!(c.chunk_size_mb, 1);
    assert!(c.auto_discover);
    let d = Config::defaults(None, None);
    assert_eq!(d.display_name, "My Device");
    assert_eq!(d.shared_folder, ".");
}

#[test]
fn error_messages() {
    assert_eq!(CloseShareError::Protocol("x".into()).message(), "Protocol error: x");
    assert_eq!(CloseShareError::Config("x".into()).message(), "Configuration error: x");
    assert_eq!(CloseShareError::Security("x".into()).message(), "Security error: x");
    assert_eq!(CloseShareError::Transfer("x".into()).message(), "Transfer error: x");
    assert_eq!(CloseShareError::PeerNotFound("x".into()).message(), "Peer not found: x");
    assert_eq!(CloseShareError::GroupCodeMismatch.message(), "Group code mismatch");
    assert_eq!(CloseShareError::FileNotFound("x".into()).message(), "File not found: x");
    let io = std::io::Error::new(std::io::ErrorKind::Other, "boom");
    let e: CloseShareError = io.into();
    assert_eq!(e.message(), "Network error: boom");
}

#[test]
fn status_after_sending() {
    assert_eq!(TransferStatus::after_send(Ok(())), TransferStatus::Completed);
    assert_eq!(TransferStatus::after_send(Err("gone".to_string())), TransferStatus::Failed("gone".to_string()));
}

#[test]
fn stored_identity_is_kept_when_it_parses() {
    let text = "67e55044-10b1-426f-9247-bb680e5fe0c8";
    assert_eq!(choose_device_id(Some(text), 5), DeviceIdChoice::Stored(0x67e5504410b1426f9247bb680e5fe0c8));
    assert_eq!(choose_device_id(Some("not a uuid"), 5), DeviceIdChoice::Fresh(5));
    assert_eq!(choose_device_id(None, 5), DeviceIdChoice::Fresh(5));
    assert_eq!(load_device_id(Some(text)), DeviceIdChoice::Stored(0x67e5504410b1426f9247bb680e5fe0c8));
    match (load_device_id(None), load_device_id(None)) {
        (DeviceIdChoice::Fresh(a), DeviceIdChoice::Fresh(b)) => assert_ne!(a, b),
        other => panic!("unexpected {:?}", other),
    }
}

#[test]
fn stored_identity_text_reads_back() {
    let id = 0x67e5504410b1426f9247bb680e5fe0c8u128;
    let text = device_id_text(id);
    assert_eq!(text, "67e55044-10b1-426f-9247-bb680e5fe0c8");
    assert_eq!(choose_device_id(Some(&text), 5), DeviceIdChoice::Stored(id));
    let first = load_device_id(None);
    let fresh = match first {
        DeviceIdChoice::Fresh(id) => id,
        other => panic!("unexpected {:?}", other),
    };
    let stored = device_id_text(fresh);
    assert_eq!(load_device_id(Some(&stored)), DeviceIdChoice::Stored(fresh));
}

#[test]
fn fresh_identities_are_version_4() {
    for _ in 0..20 {
        match load_device_id(None) {
            DeviceIdChoice::Fresh(id) => {
                assert_eq!((id >> 76) & 0xf, 4);
                assert_eq!((id >> 62) & 0x3, 2);
            }
            other => panic!("unexpected {:?}", other),
        }
    }
}

#[test]
fn ids_are_parsed() {
    assert_eq!(parse_id("67e55044-10b1-426f-9247-bb680e5fe0c8"), Some(0x67e5504410b1426f9247bb680e5fe0c8));
    assert_eq!(parse_id("nope"), None);
}
