//! An attached messenger against a socket address nobody listens on: the
//! operating system refuses the connection at once, so every operation
//! fails fast with `ConnectionUnavailable` after a single connection
//! attempt.

use std::time::Instant;

use rover::errors::SessionError;
use rover::messenger::FollowerMessenger;
use rover::protocol::SubgraphDefinition;

const DEAD_ADDR: &str = "/tmp/rover-test-no-leader-7f3a9c1d.sock";

#[test]
fn attached_with_no_listener_is_connection_unavailable() {
    let messenger = FollowerMessenger::from_attached_session("1.0.0".to_string(), DEAD_ADDR);
    assert!(!messenger.is_from_main_session());
    let started = Instant::now();
    let result = messenger.session_subgraphs();
    assert!(matches!(result, Err(SessionError::ConnectionUnavailable)));
    // a refused connection is immediate, not a timeout
    assert!(started.elapsed().as_secs() < 5);
}

#[test]
fn attached_mutations_with_no_listener_fail_the_same_way() {
    let messenger = FollowerMessenger::from_attached_session("1.0.0".to_string(), DEAD_ADDR);
    let d = SubgraphDefinition::new(
        "products".to_string(),
        "http://localhost:4001".to_string(),
        "type Query { x: Int }".to_string(),
    );
    assert!(matches!(messenger.add_subgraph(&d), Err(SessionError::ConnectionUnavailable)));
    assert!(matches!(messenger.update_subgraph(&d), Err(SessionError::ConnectionUnavailable)));
    assert!(matches!(
        messenger.remove_subgraph(&"products".to_string()),
        Err(SessionError::ConnectionUnavailable)
    ));
    assert!(matches!(messenger.version_check(), Err(SessionError::ConnectionUnavailable)));
    assert_eq!(
        SessionError::ConnectionUnavailable.suggestion(),
        "start a leader session, or check that one is still running"
    );
    assert_eq!(SessionError::ChannelClosed.suggestion(), "this is a bug: please report it");
}
