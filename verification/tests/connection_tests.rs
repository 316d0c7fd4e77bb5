use combustion_ble::connection::{connect_decision, ConnectDecision, ConnectionState};

#[test]
fn test_connection_state() {
    assert!(!ConnectionState::Disconnected.is_connected());
    assert!(ConnectionState::Connected.is_connected());
    assert!(!ConnectionState::Connecting.is_connected());

    assert!(ConnectionState::Connecting.is_transitioning());
    assert!(ConnectionState::Disconnecting.is_transitioning());
    assert!(!ConnectionState::Connected.is_transitioning());
}

#[test]
fn test_connection_state_display() {
    assert_eq!(ConnectionState::Connected.name(), "Connected");
    assert_eq!(ConnectionState::Disconnected.name(), "Disconnected");
}

#[test]
fn test_connect_decision_rules() {
    assert_eq!(
        connect_decision(ConnectionState::Connected, 0, 3),
        ConnectDecision::AlreadyConnected
    );
    assert_eq!(connect_decision(ConnectionState::Connecting, 0, 3), ConnectDecision::Busy);
    assert_eq!(
        connect_decision(ConnectionState::Disconnecting, 0, 3),
        ConnectDecision::Busy
    );
    assert_eq!(
        connect_decision(ConnectionState::Disconnected, 0, 3),
        ConnectDecision::TryAttempt
    );
    assert_eq!(
        connect_decision(ConnectionState::Disconnected, 2, 3),
        ConnectDecision::TryAttempt
    );
    assert_eq!(connect_decision(ConnectionState::Disconnected, 3, 3), ConnectDecision::GiveUp);
}
