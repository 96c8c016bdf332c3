//! Round trips through a loopback messenger, with the test acting as the
//! leader-side consumer: replies are queued onto the leader channel before
//! each call, and the requests that arrive on the follower channel are
//! checked afterwards.

use crossbeam_channel::{unbounded, Receiver, Sender};
use rover::messenger::FollowerMessenger;
use rover::protocol::{FollowerMessage, FollowerMessageKind, LeaderMessageKind, SubgraphDefinition};

fn loopback(
    version: &str,
) -> (
    FollowerMessenger,
    Receiver<FollowerMessage>,
    Sender<LeaderMessageKind>,
) {
    let (follower_tx, follower_rx) = unbounded::<FollowerMessage>();
    let (leader_tx, leader_rx) = unbounded::<LeaderMessageKind>();
    let messenger = FollowerMessenger::from_main_session(version.to_string(), follower_tx, leader_rx);
    (messenger, follower_rx, leader_tx)
}

fn def(name: &str, url: &str) -> SubgraphDefinition {
    SubgraphDefinition::new(name.to_string(), url.to_string(), "type Query { x: Int }".to_string())
}

#[test]
fn loopback_get_subgraphs_reaches_consumer_exactly() {
    let (messenger, follower_rx, leader_tx) = loopback("1.0.0");
    let reply = LeaderMessageKind::message_received();
    leader_tx.send(reply.clone()).unwrap();
    let result = messenger.session_subgraphs().unwrap();
    assert_eq!(result, None);
    // the op result is exactly what handle_leader_message makes of the reply
    assert_eq!(messenger.handle_leader_message(reply).unwrap(), None);
    let sent = follower_rx.try_recv().unwrap();
    assert_eq!(sent, FollowerMessage::get_subgraphs(true));
    assert!(follower_rx.try_recv().is_err());
}

#[test]
fn loopback_get_version_reaches_consumer_exactly() {
    let (messenger, follower_rx, leader_tx) = loopback("1.0.0");
    let reply = LeaderMessageKind::get_version("1.0.0".to_string(), "1.0.0".to_string());
    leader_tx.send(reply.clone()).unwrap();
    messenger.version_check().unwrap();
    assert_eq!(messenger.handle_leader_message(reply).unwrap(), None);
    let sent = follower_rx.try_recv().unwrap();
    assert_eq!(sent, FollowerMessage::get_version(true, "1.0.0".to_string()));
}

#[test]
fn loopback_add_subgraph_reaches_consumer_exactly() {
    let (messenger, follower_rx, leader_tx) = loopback("1.0.0");
    let keys = vec![("products".to_string(), "http://localhost:4001".to_string())];
    let reply = LeaderMessageKind::current_subgraphs(keys.clone());
    leader_tx.send(reply.clone()).unwrap();
    let d = def("products", "http://localhost:4001");
    let result = messenger.add_subgraph(&d).unwrap();
    assert_eq!(result, Some(keys.clone()));
    assert_eq!(messenger.handle_leader_message(reply).unwrap(), Some(keys));
    let sent = follower_rx.try_recv().unwrap();
    assert_eq!(sent, FollowerMessage::add_subgraph(true, &d));
}

#[test]
fn loopback_update_subgraph_reaches_consumer_exactly() {
    let (messenger, follower_rx, leader_tx) = loopback("1.0.0");
    leader_tx.send(LeaderMessageKind::message_received()).unwrap();
    let d = def("products", "http://localhost:4002");
    let result = messenger.update_subgraph(&d).unwrap();
    assert_eq!(result, None);
    let sent = follower_rx.try_recv().unwrap();
    assert_eq!(sent, FollowerMessage::update_subgraph(true, &d));
}

#[test]
fn loopback_remove_subgraph_reaches_consumer_exactly() {
    let (messenger, follower_rx, leader_tx) = loopback("1.0.0");
    leader_tx.send(LeaderMessageKind::message_received()).unwrap();
    let result = messenger.remove_subgraph(&"products".to_string()).unwrap();
    assert_eq!(result, None);
    let sent = follower_rx.try_recv().unwrap();
    assert_eq!(sent, FollowerMessage::remove_subgraph(true, &"products".to_string()));
}

#[test]
fn loopback_health_check_reaches_consumer_and_returns() {
    // no reply is queued and the leader side is gone: the very first
    // heartbeat fails, so the call returns instead of deadlocking
    let (messenger, follower_rx, leader_tx) = loopback("1.0.0");
    drop(leader_tx);
    let result = messenger.health_check();
    assert!(matches!(result, Err(rover::errors::SessionError::ChannelClosed)));
    let sent = follower_rx.try_recv().unwrap();
    assert_eq!(sent, FollowerMessage::health_check(true));
}

#[test]
fn loopback_ignorable_replies_yield_none() {
    let (messenger, _follower_rx, leader_tx) = loopback("1.0.0");
    leader_tx
        .send(LeaderMessageKind::ErrorNotification { error: "composition failed".to_string() })
        .unwrap();
    assert_eq!(messenger.session_subgraphs().unwrap(), None);
    leader_tx.send(LeaderMessageKind::CompositionSuccess).unwrap();
    assert_eq!(messenger.session_subgraphs().unwrap(), None);
}

#[test]
fn add_then_update_last_write_wins_as_reported() {
    // the test plays the leader dispatcher and keeps the registry
    let (messenger, follower_rx, leader_tx) = loopback("1.0.0");
    let mut registry: Vec<(String, String)> = Vec::new();

    // add products -> u1
    registry.push(("products".to_string(), "http://localhost:4001".to_string()));
    leader_tx.send(LeaderMessageKind::current_subgraphs(registry.clone())).unwrap();
    let d1 = def("products", "http://localhost:4001");
    let after_add = messenger.add_subgraph(&d1).unwrap().unwrap();
    assert_eq!(after_add, registry);

    // update products -> u2 (the registry applies last-write-wins)
    registry[0].1 = "http://localhost:4002".to_string();
    leader_tx.send(LeaderMessageKind::current_subgraphs(registry.clone())).unwrap();
    let d2 = def("products", "http://localhost:4002");
    messenger.update_subgraph(&d2).unwrap();

    // membership now names u2, not u1
    leader_tx.send(LeaderMessageKind::current_subgraphs(registry.clone())).unwrap();
    let keys = messenger.session_subgraphs().unwrap().unwrap();
    assert!(keys.contains(&("products".to_string(), "http://localhost:4002".to_string())));
    assert!(!keys.iter().any(|k| k.1 == "http://localhost:4001"));

    // the three requests arrived in order
    assert_eq!(follower_rx.try_recv().unwrap(), FollowerMessage::add_subgraph(true, &d1));
    assert_eq!(follower_rx.try_recv().unwrap(), FollowerMessage::update_subgraph(true, &d2));
    assert_eq!(follower_rx.try_recv().unwrap(), FollowerMessage::get_subgraphs(true));
}

#[test]
fn remove_excludes_subgraph_from_membership() {
    let (messenger, _follower_rx, leader_tx) = loopback("1.0.0");
    let mut registry: Vec<(String, String)> = Vec::new();

    registry.push(("products".to_string(), "http://localhost:4001".to_string()));
    leader_tx.send(LeaderMessageKind::current_subgraphs(registry.clone())).unwrap();
    messenger.add_subgraph(&def("products", "http://localhost:4001")).unwrap();

    registry.clear();
    leader_tx.send(LeaderMessageKind::current_subgraphs(registry.clone())).unwrap();
    messenger.remove_subgraph(&"products".to_string()).unwrap();

    leader_tx.send(LeaderMessageKind::current_subgraphs(registry.clone())).unwrap();
    let keys = messenger.session_subgraphs().unwrap().unwrap();
    assert!(!keys.iter().any(|k| k.0 == "products"));
    assert!(keys.is_empty());
}

#[test]
fn health_check_fails_on_exactly_the_next_attempt_after_leader_stops() {
    // the leader answers two heartbeats, then goes away
    let (messenger, follower_rx, leader_tx) = loopback("1.0.0");
    leader_tx.send(LeaderMessageKind::message_received()).unwrap();
    leader_tx.send(LeaderMessageKind::message_received()).unwrap();
    drop(leader_tx);
    let result = messenger.health_check();
    assert!(matches!(result, Err(rover::errors::SessionError::ChannelClosed)));
    // exactly three attempts: two answered, the third failed, no fourth
    let mut attempts = 0;
    while let Ok(msg) = follower_rx.try_recv() {
        assert_eq!(msg.kind, FollowerMessageKind::HealthCheck);
        attempts += 1;
    }
    assert_eq!(attempts, 3);
}

#[test]
fn two_followers_distinct_adds_membership_exact() {
    // two followers add distinct subgraphs against one leader registry; a
    // third follower then sees exactly both, in whatever order
    let mut registry: Vec<(String, String)> = Vec::new();

    let (m1, _rx1, tx1) = loopback("1.0.0");
    registry.push(("products".to_string(), "http://localhost:4001".to_string()));
    tx1.send(LeaderMessageKind::current_subgraphs(registry.clone())).unwrap();
    m1.add_subgraph(&def("products", "http://localhost:4001")).unwrap();

    let (m2, _rx2, tx2) = loopback("1.0.0");
    registry.push(("reviews".to_string(), "http://localhost:4002".to_string()));
    tx2.send(LeaderMessageKind::current_subgraphs(registry.clone())).unwrap();
    m2.add_subgraph(&def("reviews", "http://localhost:4002")).unwrap();

    let (m3, _rx3, tx3) = loopback("1.0.0");
    tx3.send(LeaderMessageKind::current_subgraphs(registry.clone())).unwrap();
    let mut keys = m3.session_subgraphs().unwrap().unwrap();
    keys.sort();
    assert_eq!(
        keys,
        vec![
            ("products".to_string(), "http://localhost:4001".to_string()),
            ("reviews".to_string(), "http://localhost:4002".to_string()),
        ]
    );
}
