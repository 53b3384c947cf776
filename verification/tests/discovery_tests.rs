use closeshare::metadata::file_entry;
use closeshare::discovery::resolve_answer_address;
use closeshare::exchange::is_confined_path;
use closeshare::archive::{archive_file_name, zip_entry_name};
use closeshare::config::Config;
use closeshare::discovery::{announcement, discovery_response, handle_message, is_own_message, DiscoveryReaction};
use closeshare::exchange::{decide_file_list, expect_file_list, file_list_request, file_list_response, FileListDecision};
use closeshare::message::{
    DiscoveryMessage, DiscoveryResponse, FileListRequest, FileListResponse, FileMetadata, IpAddress,
    PeerAddress, ProtocolMessage,
};
use closeshare::metadata::{file_name_or, files_metadata, is_hidden_name, FileInfo};
use closeshare::peer::{Peer, PeerStatus};

fn addr(last: u8, port: u16) -> PeerAddress {
    PeerAddress { ip: IpAddress::V4([192, 168, 1, last]), port }
}

fn hello(group: &str) -> ProtocolMessage {
    ProtocolMessage::Discovery(DiscoveryMessage {
        device_id: 11,
        display_name: "laptop".to_string(),
        hostname: "host-a".to_string(),
        group_code: group.to_string(),
        transfer_port: 20000,
    })
}

#[test]
fn announcements_carry_the_config() {
    let mut c = Config::defaults(Some("box".to_string()), None);
    c.group_code = "4242".to_string();
    c.transfer_port = 20001;
    assert_eq!(
        announcement(1, "Box".to_string(), "box".to_string(), &c),
        ProtocolMessage::Discovery(DiscoveryMessage {
            device_id: 1,
            display_name: "Box".to_string(),
            hostname: "box".to_string(),
            group_code: "4242".to_string(),
            transfer_port: 20001,
        })
    );
}

#[test]
fn own_messages_are_recognised() {
    assert!(is_own_message(&hello(""), 11));
    assert!(!is_own_message(&hello(""), 12));
    assert!(!is_own_message(&ProtocolMessage::Ping, 11));
    let r = discovery_response(12, "me", "host", "", addr(2, 19999));
    assert!(is_own_message(&r, 12));
}

#[test]
fn announcements_of_the_group_are_learned_and_answered() {
    match handle_message(&hello("1234"), "1234", addr(9, 5000)) {
        DiscoveryReaction::Learn { peer, reply } => {
            assert!(reply);
            assert_eq!(peer.device_id, 11);
            assert_eq!(peer.display_name, "laptop");
            assert_eq!(peer.hostname, "host-a");
            assert_eq!(peer.socket_addr, addr(9, 5000));
            assert_eq!(peer.transfer_port, 20000);
            assert_eq!(peer.status, PeerStatus::Online);
        }
        other => panic!("unexpected {:?}", other),
    }
}

#[test]
fn devices_without_a_code_learn_everyone() {
    assert!(matches!(handle_message(&hello("9999"), "", addr(9, 5000)), DiscoveryReaction::Learn { .. }));
}

#[test]
fn other_groups_are_ignored() {
    assert_eq!(handle_message(&hello("9999"), "1234", addr(9, 5000)), DiscoveryReaction::Ignore);
    assert_eq!(handle_message(&hello(""), "1234", addr(9, 5000)), DiscoveryReaction::Ignore);
    assert_eq!(handle_message(&ProtocolMessage::Ping, "", addr(9, 5000)), DiscoveryReaction::Ignore);
}

#[test]
fn answers_are_learned_with_their_address() {
    let r = ProtocolMessage::DiscoveryResponse(DiscoveryResponse {
        device_id: 13,
        display_name: "desk".to_string(),
        hostname: "host-b".to_string(),
        group_code: "1234".to_string(),
        socket_addr: addr(20, 19999),
    });
    match handle_message(&r, "1234", addr(9, 5000)) {
        DiscoveryReaction::Learn { peer, reply } => {
            assert!(!reply);
            assert_eq!(peer.socket_addr, addr(20, 19999));
            assert_eq!(peer.transfer_port, 0);
        }
        other => panic!("unexpected {:?}", other),
    }
    assert_eq!(handle_message(&r, "5678", addr(9, 5000)), DiscoveryReaction::Ignore);
}

#[test]
fn peers_seen_at_a_time() {
    let p = Peer::seen_at(1, "a".to_string(), "b".to_string(), addr(1, 2), 3, 1_700_000_000_000_000);
    assert_eq!(p.last_seen, 1_700_000_000_000_000);
    assert_eq!(p.status, PeerStatus::Online);
    let q = Peer::new(1, "a".to_string(), "b".to_string(), addr(1, 2), 3);
    assert!(q.last_seen > 1_600_000_000_000_000);
}

fn info(name: &str) -> FileInfo {
    FileInfo::new(name.to_string(), format!("sub/{}", name), format!("/share/sub/{}", name), 12, false, "2024-01-01T00:00:00+00:00".to_string())
}

#[test]
fn file_info_defaults() {
    let f = info("a.txt");
    assert_eq!(f.mime_type, "application/octet-stream");
    assert_eq!(f.checksum, None);
    assert_eq!(f.absolute_path, "/share/sub/a.txt");
}

#[test]
fn metadata_leaves_out_the_absolute_path() {
    let m = files_metadata(vec![info("a"), info("b")]);
    assert_eq!(m.len(), 2);
    assert_eq!(
        m[1],
        FileMetadata {
            name: "b".to_string(),
            path: "sub/b".to_string(),
            size: 12,
            is_directory: false,
            modified: "2024-01-01T00:00:00+00:00".to_string(),
            checksum: None,
            mime_type: "application/octet-stream".to_string(),
        }
    );
}

#[test]
fn hidden_entries() {
    assert!(is_hidden_name(Some(".git")));
    assert!(is_hidden_name(Some(".")));
    assert!(!is_hidden_name(Some("a.txt")));
    assert!(!is_hidden_name(Some("")));
    assert!(!is_hidden_name(None));
}

#[test]
fn file_names_of_paths() {
    assert_eq!(file_name_or("a/b/c.txt", "unknown"), "c.txt");
    assert_eq!(file_name_or("c.txt", "unknown"), "c.txt");
    assert_eq!(file_name_or("a/..", "unknown"), "unknown");
    assert_eq!(file_name_or("", "folder"), "folder");
    assert_eq!(file_name_or("..", "x"), "x");
    assert_eq!(file_name_or(".", "x"), "x");
    assert_eq!(file_name_or("/", "x"), "x");
    assert_eq!(file_name_or("a/b/", "x"), "b");
    assert_eq!(file_name_or("a/./", "x"), "a");
    assert_eq!(file_name_or("name.tar.gz", "x"), "name.tar.gz");
}

#[test]
fn file_list_requests_are_decided() {
    let req = |g: &str| ProtocolMessage::FileListRequest(FileListRequest { device_id: 4, group_code: g.to_string(), path: Some("docs".to_string()) });
    assert_eq!(
        decide_file_list(&req("1234"), "1234", 8, "me").unwrap(),
        FileListDecision::Scan { sub_path: Some("docs".to_string()) }
    );
    assert_eq!(
        decide_file_list(&req("1111"), "1234", 8, "me").unwrap(),
        FileListDecision::Deny(FileListResponse { device_id: 8, display_name: "me".to_string(), files: vec![], path: String::new() })
    );
    assert_eq!(decide_file_list(&ProtocolMessage::Pong, "", 8, "me").unwrap_err(), "Expected FileListRequest");
    assert_eq!(
        file_list_request(4, "1234", None),
        ProtocolMessage::FileListRequest(FileListRequest { device_id: 4, group_code: "1234".to_string(), path: None })
    );
}

#[test]
fn file_list_answers() {
    let resp = file_list_response(8, "me", vec![info("a")], "/share".to_string());
    assert_eq!(resp.files.len(), 1);
    assert_eq!(resp.files[0].path, "sub/a");
    assert_eq!(resp.path, "/share");
    assert_eq!(expect_file_list(ProtocolMessage::FileListResponse(resp.clone())).unwrap(), resp);
    assert_eq!(expect_file_list(ProtocolMessage::Ping).unwrap_err(), "Unexpected response type");
}

#[test]
fn archive_names() {
    assert_eq!(zip_entry_name("a\\b\\c.txt"), "a/b/c.txt");
    assert_eq!(zip_entry_name("a/b"), "a/b");
    assert_eq!(zip_entry_name(""), "");
    assert_eq!(archive_file_name("photos"), "photos.zip");
}

#[test]
fn file_entries_of_a_scan() {
    let f = file_entry("/share", "/share/docs/a.txt", Some("a.txt"), 5, false, 0, 0).unwrap();
    assert_eq!(f.name, "a.txt");
    assert_eq!(f.relative_path, "docs/a.txt");
    assert_eq!(f.absolute_path, "/share/docs/a.txt");
    assert_eq!(f.size, 5);
    assert!(!f.is_directory);
    assert_eq!(f.modified, "1970-01-01T00:00:00+00:00");
    assert_eq!(f.mime_type, "application/octet-stream");
    let root = file_entry("/share", "/share", Some("share"), 0, true, 1_700_000_000, 500_000_000).unwrap();
    assert_eq!(root.relative_path, "");
    assert_eq!(root.modified, "2023-11-14T22:13:20.500+00:00");
    assert_eq!(file_entry("/share/", "/share/x", Some("x"), 0, false, 0, 0).unwrap().relative_path, "x");
    assert_eq!(file_entry("/share", "/share/.git", Some(".git"), 0, true, 0, 0), None);
    assert_eq!(file_entry("/share", "/other/a", Some("a"), 0, false, 0, 0), None);
    assert_eq!(file_entry("/share", "/share/a", Some("a"), 0, false, i64::MAX, 0), None);
    assert_eq!(file_entry("/", "/", None, 0, true, 0, 0).unwrap().name, "");
}

#[test]
fn last_components_of_slash_paths() {
    assert_eq!(file_name_or("dir/a.txt", "x"), "a.txt");
    assert_eq!(file_name_or("/a/b/c", "x"), "c");
    assert_eq!(file_name_or("a//b//", "x"), "b");
    assert_eq!(file_name_or("a/b/..", "x"), "x");
    assert_eq!(file_name_or("a/../b", "x"), "b");
    assert_eq!(file_name_or("./a", "x"), "a");
}

#[test]
fn answers_from_any_interface_are_reached_where_they_came_from() {
    let unspecified = PeerAddress { ip: IpAddress::V4([0, 0, 0, 0]), port: 19999 };
    assert_eq!(resolve_answer_address(unspecified, addr(7, 40000)), addr(7, 19999));
    assert_eq!(resolve_answer_address(addr(3, 19999), addr(7, 40000)), addr(3, 19999));
    let v6 = PeerAddress { ip: IpAddress::V6([0; 16]), port: 1 };
    assert_eq!(resolve_answer_address(v6, addr(7, 40000)), addr(7, 1));
    let r = ProtocolMessage::DiscoveryResponse(DiscoveryResponse {
        device_id: 13,
        display_name: "desk".to_string(),
        hostname: "host-b".to_string(),
        group_code: String::new(),
        socket_addr: unspecified,
    });
    match handle_message(&r, "", addr(8, 40000)) {
        DiscoveryReaction::Learn { peer, .. } => assert_eq!(peer.socket_addr, addr(8, 19999)),
        other => panic!("unexpected {:?}", other),
    }
}

#[test]
fn transfers_go_to_the_announced_port() {
    let p = Peer::seen_at(1, "a".to_string(), "b".to_string(), addr(1, 5555), 20001, 0);
    assert_eq!(p.transfer_address(20000), addr(1, 20001));
    let q = Peer::seen_at(1, "a".to_string(), "b".to_string(), addr(1, 5555), 0, 0);
    assert_eq!(q.transfer_address(20000), addr(1, 20000));
}

#[test]
fn file_lists_stay_inside_the_shared_folder() {
    assert!(is_confined_path("docs"));
    assert!(is_confined_path("docs/2024"));
    assert!(is_confined_path(""));
    assert!(is_confined_path("a..b/..c"));
    assert!(!is_confined_path("/etc"));
    assert!(!is_confined_path(".."));
    assert!(!is_confined_path("docs/../../etc"));
    assert!(!is_confined_path("docs/.."));
    assert!(!is_confined_path("C:x"));
    assert!(!is_confined_path("a\\b"));
    let req = ProtocolMessage::FileListRequest(FileListRequest { device_id: 4, group_code: "1".to_string(), path: Some("../x".to_string()) });
    assert!(matches!(decide_file_list(&req, "1", 8, "me").unwrap(), FileListDecision::Deny(_)));
}
