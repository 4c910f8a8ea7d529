use eventstore_core::heartbeat::{HeartbeatDecision, HeartbeatMonitor};
use eventstore_core::supervisor::{ConnectionState, DisconnectDecision, Supervisor};
use eventstore_core::types::Retry;

#[test]
fn heartbeat_times_out_on_a_silent_connection() {
    // delay 10 ms, timeout 20 ms, no inbound traffic: one probe at 10 ms,
    // declared dead at 30 ms.
    let mut hb = HeartbeatMonitor::new(0);
    assert_eq!(hb.on_tick(5, 10, 20), HeartbeatDecision::Quiet);
    assert_eq!(hb.on_tick(10, 10, 20), HeartbeatDecision::SendProbe);
    assert_eq!(hb.on_tick(29, 10, 20), HeartbeatDecision::Quiet);
    assert_eq!(hb.on_tick(30, 10, 20), HeartbeatDecision::Dead);
}

#[test]
fn inbound_traffic_clears_the_probe() {
    let mut hb = HeartbeatMonitor::new(0);
    assert_eq!(hb.on_tick(10, 10, 20), HeartbeatDecision::SendProbe);
    hb.on_ingress(15);
    assert_eq!(hb.on_tick(24, 10, 20), HeartbeatDecision::Quiet);
    assert_eq!(hb.on_tick(25, 10, 20), HeartbeatDecision::SendProbe);
}

#[test]
fn quiet_connection_with_recent_traffic_sends_nothing() {
    let mut hb = HeartbeatMonitor::new(0);
    hb.on_ingress(8);
    assert_eq!(hb.on_tick(12, 10, 20), HeartbeatDecision::Quiet);
}

#[test]
fn supervisor_walks_the_connection_states() {
    let mut sup = Supervisor::new(Retry::Only(3));
    assert_eq!(sup.state, ConnectionState::Init);
    sup.start();
    assert_eq!(sup.state, ConnectionState::Connecting);
    sup.on_established();
    assert_eq!(sup.state, ConnectionState::Identifying);
    sup.on_identified();
    assert_eq!(sup.state, ConnectionState::Connected);
    assert!(sup.is_connected());
}

#[test]
fn supervisor_bounds_reconnection() {
    let mut sup = Supervisor::new(Retry::Only(1));
    sup.start();
    sup.on_established();
    sup.on_identified();
    assert_eq!(sup.on_disconnected(), DisconnectDecision::Reconnect);
    assert_eq!(sup.state, ConnectionState::Connecting);
    assert_eq!(sup.on_disconnected(), DisconnectDecision::Close);
    assert_eq!(sup.state, ConnectionState::Closed);
}

#[test]
fn identification_resets_the_attempt_counter() {
    let mut sup = Supervisor::new(Retry::Only(1));
    sup.start();
    sup.on_established();
    sup.on_identified();
    assert_eq!(sup.on_disconnected(), DisconnectDecision::Reconnect);
    sup.on_established();
    sup.on_identified();
    assert_eq!(sup.attempts, 0);
    assert_eq!(sup.on_disconnected(), DisconnectDecision::Reconnect);
}

#[test]
fn close_refuses_further_work() {
    let mut sup = Supervisor::new(Retry::Only(3));
    sup.start();
    sup.close();
    assert_eq!(sup.state, ConnectionState::Closed);
    assert!(!sup.is_connected());
}
