//! The version gate: exact string equality between the leader's and the
//! follower's build versions, checked on every version reply.

use crossbeam_channel::unbounded;
use rover::errors::SessionError;
use rover::messenger::FollowerMessenger;
use rover::protocol::{FollowerMessage, LeaderMessageKind};

fn loopback_with_version(
    version: &str,
) -> (
    FollowerMessenger,
    crossbeam_channel::Sender<LeaderMessageKind>,
    crossbeam_channel::Receiver<FollowerMessage>,
) {
    let (follower_tx, follower_rx) = unbounded::<FollowerMessage>();
    let (leader_tx, leader_rx) = unbounded::<LeaderMessageKind>();
    (
        FollowerMessenger::from_main_session(version.to_string(), follower_tx, leader_rx),
        leader_tx,
        follower_rx,
    )
}

#[test]
fn unequal_versions_yield_version_mismatch_and_no_keys() {
    let cases = [
        ("0.8.0", "0.8.1"),
        ("0.8.0", "0.8.0-rc.1"),
        ("1.0.0", ""),
        ("", "1.0.0"),
        ("1.0.0", "1.0.0 "),
    ];
    for (leader, follower) in cases {
        let (messenger, leader_tx, _follower_rx) = loopback_with_version(follower);
        leader_tx
            .send(LeaderMessageKind::get_version(leader.to_string(), follower.to_string()))
            .unwrap();
        let result = messenger.version_check();
        match result {
            Err(SessionError::VersionMismatch { leader_version, follower_version }) => {
                assert_eq!(leader_version, leader);
                assert_eq!(follower_version, follower);
            },
            other => panic!("expected a version mismatch, got {:?}", other),
        }
        // the same reply never yields subgraph keys either
        leader_tx
            .send(LeaderMessageKind::get_version(leader.to_string(), follower.to_string()))
            .unwrap();
        let subgraphs = messenger.session_subgraphs();
        assert!(matches!(subgraphs, Err(SessionError::VersionMismatch { .. })));
    }
}

#[test]
fn equal_versions_raise_no_version_error() {
    let cases = ["0.8.0", "1.2.3", "", "0.8.0-rc.1"];
    for version in cases {
        let (messenger, leader_tx, _follower_rx) = loopback_with_version(version);
        leader_tx
            .send(LeaderMessageKind::get_version(version.to_string(), version.to_string()))
            .unwrap();
        assert!(messenger.version_check().is_ok());
    }
}

#[test]
fn require_same_version_is_exact() {
    let (messenger, _leader_tx, _follower_rx) = loopback_with_version("0.8.0");
    assert!(messenger.require_same_version("0.8.0".to_string()).is_ok());
    let err = messenger.require_same_version("0.9.0".to_string()).unwrap_err();
    assert_eq!(
        err,
        SessionError::VersionMismatch {
            leader_version: "0.9.0".to_string(),
            follower_version: "0.8.0".to_string(),
        }
    );
    assert_eq!(
        err.suggestion(),
        "use the same version of this tool for every process of one session"
    );
}
