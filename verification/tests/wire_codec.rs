//! The wire format: every message survives an encode/decode round trip
//! byte-for-byte, and malformed frames are rejected rather than
//! misread.

use rover::protocol::{FollowerMessage, LeaderMessageKind, SubgraphDefinition};
use rover::wire::{
    decode_follower_message, decode_leader_message, encode_follower_message, encode_leader_message,
};

fn def() -> SubgraphDefinition {
    SubgraphDefinition::new(
        "products".to_string(),
        "http://localhost:4001".to_string(),
        "type Query { topProducts: [String] }".to_string(),
    )
}

#[test]
fn follower_messages_round_trip() {
    let messages = vec![
        FollowerMessage::health_check(false),
        FollowerMessage::get_version(true, "0.8.0".to_string()),
        FollowerMessage::get_subgraphs(false),
        FollowerMessage::add_subgraph(false, &def()),
        FollowerMessage::update_subgraph(true, &def()),
        FollowerMessage::remove_subgraph(false, &"products".to_string()),
    ];
    for m in messages {
        let bytes = encode_follower_message(&m);
        let back = decode_follower_message(&bytes).expect("a frame this crate wrote must parse");
        assert_eq!(back, m);
    }
}

#[test]
fn leader_messages_round_trip() {
    let messages = vec![
        LeaderMessageKind::get_version("0.8.0".to_string(), "0.8.1".to_string()),
        LeaderMessageKind::current_subgraphs(vec![]),
        LeaderMessageKind::current_subgraphs(vec![
            ("products".to_string(), "http://localhost:4001".to_string()),
            ("reviews".to_string(), "http://localhost:4002".to_string()),
        ]),
        LeaderMessageKind::message_received(),
        LeaderMessageKind::ErrorNotification { error: "composition failed".to_string() },
        LeaderMessageKind::CompositionSuccess,
    ];
    for m in messages {
        let bytes = encode_leader_message(&m);
        let back = decode_leader_message(&bytes).expect("a frame this crate wrote must parse");
        assert_eq!(back, m);
    }
}

#[test]
fn unicode_strings_round_trip() {
    let d = SubgraphDefinition::new(
        "προϊόντα".to_string(),
        "http://localhost:4001/路径".to_string(),
        "type Query { name: String } # ✓".to_string(),
    );
    let m = FollowerMessage::add_subgraph(false, &d);
    let bytes = encode_follower_message(&m);
    assert_eq!(decode_follower_message(&bytes), Some(m));
}

#[test]
fn truncated_frames_are_rejected() {
    let m = FollowerMessage::get_version(false, "0.8.0".to_string());
    let bytes = encode_follower_message(&m);
    for cut in 0..bytes.len() {
        let shorter = bytes[..cut].to_vec();
        assert_eq!(decode_follower_message(&shorter), None);
    }
}

#[test]
fn trailing_bytes_are_rejected() {
    let m = LeaderMessageKind::message_received();
    let mut bytes = encode_leader_message(&m);
    bytes.push(0);
    assert_eq!(decode_leader_message(&bytes), None);
}

#[test]
fn unknown_tags_and_bad_flags_are_rejected() {
    // frame of one payload byte with an unknown leader tag
    let mut frame = vec![1, 0, 0, 0, 0, 0, 0, 0, 99];
    assert_eq!(decode_leader_message(&frame), None);
    // follower frame whose sender flag byte is neither 0 nor 1
    frame = vec![2, 0, 0, 0, 0, 0, 0, 0, 7, 0];
    assert_eq!(decode_follower_message(&frame), None);
    let empty: Vec<u8> = Vec::new();
    assert_eq!(decode_follower_message(&empty), None);
    assert_eq!(decode_leader_message(&empty), None);
}

#[test]
fn string_fields_are_length_prefixed_utf8() {
    // GetVersion from an attached follower carrying "ab": flag 0, tag 1,
    // then the string's byte length and its UTF-8 bytes
    let bytes = encode_follower_message(&FollowerMessage::get_version(false, "ab".to_string()));
    let payload = vec![0u8, 1, 2, 0, 0, 0, 0, 0, 0, 0, b'a', b'b'];
    let mut expected = vec![payload.len() as u8, 0, 0, 0, 0, 0, 0, 0];
    expected.extend(payload);
    assert_eq!(bytes, expected);
}

#[test]
fn frame_layout_is_length_prefixed() {
    // HealthCheck from an attached follower: flag 0, tag 0, length 2
    let bytes = encode_follower_message(&FollowerMessage::health_check(false));
    assert_eq!(bytes, vec![2, 0, 0, 0, 0, 0, 0, 0, 0, 0]);
    // MessageReceived: tag 2, length 1
    let bytes = encode_leader_message(&LeaderMessageKind::message_received());
    assert_eq!(bytes, vec![1, 0, 0, 0, 0, 0, 0, 0, 2]);
}
