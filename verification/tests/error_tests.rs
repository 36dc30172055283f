use chord_rs::client::ClientError;
use chord_rs::error::{JoinRingError, ServiceError};
use chord_rs::monitor::NodeStatus;
use chord_rs::Node;
use chord_rs::{addr::Addr, NodeId};

fn peer() -> Node {
    Node::with_id(NodeId(10), Addr::v4([127, 0, 0, 1], 42010))
}

#[test]
fn client_errors_collapse_to_the_service_taxonomy() {
    assert!(matches!(
        ServiceError::from(ClientError::ConnectionFailed(peer())),
        ServiceError::ClientDisconnected
    ));
    assert!(matches!(
        ServiceError::from(ClientError::NotInitialized),
        ServiceError::ClientDisconnected
    ));
    match ServiceError::from(ClientError::InvalidRequest("bad frame".to_string())) {
        ServiceError::Unexpected(msg) => assert_eq!(msg, "bad frame"),
        other => panic!("unexpected mapping: {:?}", other),
    }
    match ServiceError::from(ClientError::Unexpected("boom".to_string())) {
        ServiceError::Unexpected(msg) => assert_eq!(msg, "boom"),
        other => panic!("unexpected mapping: {:?}", other),
    }
}

#[test]
fn connection_failures_are_the_only_fallback_trigger() {
    assert!(ClientError::ConnectionFailed(peer()).is_connection_failure());
    assert!(ClientError::NotInitialized.is_connection_failure());
    assert!(!ClientError::InvalidRequest("x".to_string()).is_connection_failure());
    assert!(!ClientError::Unexpected("x".to_string()).is_connection_failure());
}

#[test]
fn join_ring_errors_split_by_reachability() {
    assert!(matches!(
        JoinRingError::from(ServiceError::ClientDisconnected),
        JoinRingError::ClientError
    ));
    assert!(matches!(
        JoinRingError::from(ServiceError::Unexpected("no route".to_string())),
        JoinRingError::ServiceError
    ));
}

#[test]
fn node_status_starts_new_and_fades_only_from_new() {
    let status = NodeStatus::new();
    // Fresh from the clock, the node is still new.
    assert!(status.is_new());
    assert!(!NodeStatus::Active.is_new());
    assert!(!NodeStatus::Inactive(2).is_new());
}
