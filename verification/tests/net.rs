//! Framing, the handshake, and the check of who answers.

use banc::board::{identify_handler, usb_config};
use banc::config::AssistantConfig;
use banc::frame::{frame_len, read_frame_sync, write_frame_sync, FrameError, MAX_FRAME};
use banc::icd::{Identity, NodeRole, PROTOCOL_VERSION};
use banc::net::{
    handshake_client, handshake_hello, handshake_server, token_eq, HandshakeError, Hello,
    HelloReply, Role, NET_VERSION,
};
use banc::node::{NodeError, Route};

const TOKEN: &str = "test-token";

fn assistant(name: &str) -> AssistantConfig {
    AssistantConfig {
        name: name.to_string(),
        serial: None,
        product: None,
        addr: None,
        token_file: None,
        unique_id: None,
    }
}

fn custom_identity(unique_id: u64) -> Identity {
    Identity {
        role: NodeRole::Custom,
        protocol_version: PROTOCOL_VERSION,
        unique_id,
        fw_name: "rigd-test".try_into().unwrap(),
        fw_version: "0".try_into().unwrap(),
    }
}

#[test]
fn identities_are_copied_and_compared() {
    let identity = custom_identity(7);
    assert_eq!(identity.clone(), identity);
    assert_ne!(custom_identity(8), identity);
}

#[test]
fn frames_are_length_prefixed() {
    let mut wire = Vec::new();
    write_frame_sync(&mut wire, b"abc");
    assert_eq!(wire, vec![3, 0, 0, 0, b'a', b'b', b'c']);
    write_frame_sync(&mut wire, b"");
    let (first, rest) = read_frame_sync(&wire);
    assert_eq!(first.unwrap(), b"abc");
    let (second, rest) = read_frame_sync(rest);
    assert!(second.unwrap().is_empty() && rest.is_empty());
}

#[test]
fn cut_frames_are_an_end_of_file() {
    let mut wire = Vec::new();
    write_frame_sync(&mut wire, b"abc");
    for n in 0..wire.len() {
        let (frame, rest) = read_frame_sync(&wire[..n]);
        assert!(matches!(frame, Err(FrameError::UnexpectedEof)));
        assert!(rest.is_empty());
    }
    assert_eq!(FrameError::UnexpectedEof.to_string(), "failed to fill whole buffer");
}

#[test]
fn oversized_frames_are_refused() {
    let prefix = ((MAX_FRAME + 1) as u32).to_le_bytes();
    match frame_len(&prefix) {
        Err(e) => assert_eq!(e.to_string(), "frame of 262145 bytes exceeds MAX_FRAME"),
        Ok(n) => panic!("accepted {n}"),
    }
    assert!(matches!(frame_len(&(MAX_FRAME as u32).to_le_bytes()), Ok(MAX_FRAME)));
    // Only the length is read of such a frame.
    let mut wire = Vec::new();
    let data = vec![7u8; MAX_FRAME + 1];
    write_frame_sync(&mut wire, &data);
    assert_eq!(wire[..4], prefix);
    let (frame, rest) = read_frame_sync(&wire);
    assert!(matches!(frame, Err(FrameError::TooLong(262145))));
    assert_eq!(rest, data);
}

#[test]
fn greetings_have_their_encoding() {
    let hello = Hello { version: NET_VERSION, role: Role::Lease, token: "tk".to_string() };
    assert_eq!(hello.encode(), vec![0, 1, 2, b't', b'k']);
    assert_eq!(handshake_hello(Role::Node, "tk"), vec![0, 0, 2, b't', b'k']);
    assert_eq!(HelloReply::Welcome { rig_name: "r".to_string() }.encode(), vec![0, 1, b'r']);
    assert_eq!(HelloReply::Denied.encode(), vec![1]);
}

#[test]
fn greetings_read_back() {
    let hello = Hello { version: 255, role: Role::Node, token: "t\u{f6}k".to_string() };
    let back = Hello::decode(&hello.encode()).unwrap();
    assert_eq!(back.version, 255);
    assert!(matches!(back.role, Role::Node));
    assert_eq!(back.token, "t\u{f6}k");
    match HelloReply::decode(&HelloReply::Welcome { rig_name: "rig".to_string() }.encode()) {
        Ok(HelloReply::Welcome { rig_name }) => assert_eq!(rig_name, "rig"),
        other => panic!("unexpected: {other:?}"),
    }
    assert!(matches!(HelloReply::decode(&[1]), Ok(HelloReply::Denied)));
    assert_eq!(HelloReply::decode(&[2]).unwrap_err(), "Serde Deserialization Error");
    assert_eq!(Hello::decode(&[0, 2, 0]).unwrap_err(), "Serde Deserialization Error");
    let ended = "Hit the end of buffer, expected more data";
    assert_eq!(Hello::decode(&[]).unwrap_err(), ended);
    assert_eq!(Hello::decode(&[0]).unwrap_err(), ended);
    assert_eq!(Hello::decode(&[0, 0, 1, 0xff]).unwrap_err(), "Tried to parse invalid utf-8");
}

#[test]
fn bad_token_is_denied() {
    let hello = handshake_hello(Role::Node, "wrong");
    let (reply, server) = handshake_server(&hello, TOKEN, "test-rig");
    assert_eq!(
        server.unwrap_err().to_string(),
        "handshake denied: version 0 (want 0), token mismatch"
    );
    let err = handshake_client(&reply);
    assert!(err.is_err());
    assert_eq!(err.unwrap_err().to_string(), "rig daemon denied the handshake (bad token?)");
}

#[test]
fn both_sides_of_a_handshake_agree() {
    let hello = handshake_hello(Role::Lease, TOKEN);
    let (reply, server) = handshake_server(&hello, TOKEN, "test-rig");
    assert!(matches!(server, Ok(Role::Lease)));
    assert_eq!(handshake_client(&reply).unwrap(), "test-rig");
}

#[test]
fn other_versions_are_denied() {
    let hello = Hello { version: 9, role: Role::Node, token: TOKEN.to_string() }.encode();
    let (reply, server) = handshake_server(&hello, TOKEN, "test-rig");
    assert!(matches!(server, Err(HandshakeError::Denied { version: 9, token_ok: true })));
    assert_eq!(
        server.unwrap_err().to_string(),
        "handshake denied: version 9 (want 0), token ok"
    );
    assert_eq!(reply, vec![1]);
}

#[test]
fn garbled_greetings_are_denied() {
    let openings: [&[u8]; 4] = [&[], &[0], &[0, 7], &[0, 0, 1, 0xff]];
    for hello in openings {
        let (reply, server) = handshake_server(hello, TOKEN, "test-rig");
        assert_eq!(reply, HelloReply::Denied.encode());
        assert!(matches!(handshake_client(&reply), Err(HandshakeError::Refused)));
        assert!(matches!(server, Err(HandshakeError::Garbled(_))));
    }
    let (_, server) = handshake_server(&[0, 7], TOKEN, "test-rig");
    assert_eq!(server.unwrap_err().to_string(), "Serde Deserialization Error");
    let garbled = handshake_client(&[]).unwrap_err();
    assert_eq!(garbled.to_string(), "Hit the end of buffer, expected more data");
}

#[test]
fn tokens_are_compared_whole() {
    assert!(token_eq("abc", "abc"));
    assert!(token_eq("", ""));
    assert!(!token_eq("abc", "abd"));
    assert!(!token_eq("abc", "ab"));
    assert!(!token_eq("xbc", "abc"));
}

#[test]
fn a_node_is_identified_after_its_handshake() {
    let mut node = assistant("n");
    node.addr = Some("127.0.0.1:1".to_string());
    let hello = handshake_hello(Role::Node, TOKEN);
    let (reply, role) = handshake_server(&hello, TOKEN, "test-rig");
    assert!(matches!(role, Ok(Role::Node)));
    let rig_name = handshake_client(&reply).unwrap();
    node.check_rig("127.0.0.1:1", &rig_name, None).unwrap();

    let identity = custom_identity(42);
    assert_eq!(identity.protocol_version, PROTOCOL_VERSION);
    assert_eq!(identity.unique_id, 42);
    assert_eq!(
        node.identify(&identity).unwrap().as_deref(),
        Some("banc: node 'n' reports role Custom, not Assistant (check the rig config)")
    );
}

#[test]
fn nodes_are_told_apart_by_their_id() {
    let mut node = assistant("n");
    node.unique_id = Some("00000000000000ff".to_string());
    assert!(node.identify(&custom_identity(255)).is_ok());
    node.unique_id = Some("00000000000000FF".to_string());
    assert!(node.identify(&custom_identity(255)).is_ok());
    let err = node.identify(&custom_identity(254)).unwrap_err();
    assert_eq!(
        err.to_string(),
        "node 'n' reports unique id 00000000000000FE, config expects 00000000000000FF"
    );
    let mut old = custom_identity(255);
    old.protocol_version = 3;
    assert_eq!(
        node.identify(&old).unwrap_err().to_string(),
        "node 'n' speaks banc protocol v3, host expects v0"
    );
}

#[test]
fn assistants_say_who_they_are() {
    let identity = identify_handler(7, "0.1.0");
    assert_eq!(identity.role, NodeRole::Assistant);
    assert_eq!(identity.fw_name.as_str(), "banc-assistant");
    assert_eq!(identity.fw_version.as_str(), "0.1.0");
    assert!(assistant("a").identify(&identity).unwrap().is_none());
    // A version that does not fit is left out.
    assert_eq!(identify_handler(7, "0123456789abcdef").fw_version.as_str(), "0123456789abcdef");
    assert_eq!(identify_handler(7, "0123456789abcdefg").fw_version.as_str(), "");
}

#[test]
fn the_serial_number_is_the_unique_id() {
    let usb = usb_config(0x0123_4567_89ab_cdef);
    assert_eq!(usb.serial_number, "0123456789ABCDEF");
    assert_eq!((usb.vendor_id, usb.product_id), (0x16c0, 0x27dd));
    assert_eq!(usb.manufacturer, "banc");
    assert_eq!(usb.product, "banc-assistant");
    assert_eq!((usb.device_class, usb.device_sub_class, usb.device_protocol), (0xef, 2, 1));
    assert!(usb.composite_with_iads);
}

#[test]
fn usb_devices_match_by_what_is_configured() {
    let mut node = assistant("n");
    node.serial = Some("A".to_string());
    assert!(node.matches_device(Some("A"), None));
    assert!(node.matches_device(Some("A"), Some("P")));
    assert!(!node.matches_device(Some("B"), Some("P")));
    assert!(!node.matches_device(None, Some("P")));
    node.product = Some("P".to_string());
    assert!(node.matches_device(Some("A"), Some("P")));
    assert!(!node.matches_device(Some("A"), None));
}

#[test]
fn an_address_takes_a_token() {
    let mut node = assistant("n");
    assert!(matches!(node.route(None), Ok(Route::Usb)));
    node.addr = Some("h:1".to_string());
    assert_eq!(
        node.route(None).unwrap_err().to_string(),
        "node 'n' has addr but no token was resolved"
    );
    match node.route(Some("t")) {
        Ok(Route::Network { addr, token }) => assert_eq!((addr.as_str(), token.as_str()), ("h:1", "t")),
        other => panic!("unexpected: {other:?}"),
    }
}

#[test]
fn the_wrong_rig_is_refused() {
    let node = assistant("n");
    assert!(node.check_rig("h:1", "bench", Some("bench")).is_ok());
    let err = node.check_rig("h:1", "other", Some("bench")).unwrap_err();
    assert!(matches!(err, NodeError::WrongRig { .. }));
    assert_eq!(err.to_string(), "node 'n' at h:1 belongs to rig 'other', expected 'bench'");
}
