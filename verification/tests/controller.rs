use rusty_robot::config::MeshConfig;
use rusty_robot::mesh::{Mesh, MeshState, RadioAction, RadioError, RadioEvent};
use rusty_robot::scan::ScanEntry;

fn test_config() -> MeshConfig {
    MeshConfig::new(9, "mesh-hello", "mesh-hello-password").unwrap()
}

/// Drives the start sequence, answering success to each call, and checks
/// the hardware-mandated order: configure, then protocol, then start.
fn bring_up(m: &mut Mesh) {
    assert_eq!(m.next_action(), Some(RadioAction::Configure { target: None }));
    m.on_event(RadioEvent::Completed);
    assert_eq!(m.next_action(), Some(RadioAction::SetProtocol));
    m.on_event(RadioEvent::Completed);
    assert_eq!(m.next_action(), Some(RadioAction::Start));
    m.on_event(RadioEvent::Completed);
    assert_eq!(m.state(), MeshState::Started);
    assert!(m.is_started());
}

#[test]
fn fresh_controller_is_idle() {
    let m = Mesh::new(test_config());
    assert_eq!(m.state(), MeshState::Idle);
    assert!(!m.is_started());
    assert!(!m.is_connected());
    assert_eq!(m.cache().len(), 0);
    assert_eq!(m.failed_attempts(), 0);
    assert_eq!(m.last_error(), None);
    assert_eq!(m.config().channel, 9);
}

#[test]
fn start_failure_is_fatal() {
    let mut m = Mesh::new(test_config());
    assert_eq!(m.next_action(), Some(RadioAction::Configure { target: None }));
    m.on_event(RadioEvent::Completed);
    assert_eq!(m.next_action(), Some(RadioAction::SetProtocol));
    m.on_event(RadioEvent::Completed);
    assert_eq!(m.next_action(), Some(RadioAction::Start));
    m.on_event(RadioEvent::Failed);
    assert_eq!(m.state(), MeshState::Failed);
    assert!(!m.is_started());
    assert_eq!(m.last_error(), Some(RadioError::Start));
    // no further radio calls are issued
    assert_eq!(m.next_action(), None);
    assert_eq!(m.next_action(), None);
}

#[test]
fn configure_failure_is_fatal() {
    let mut m = Mesh::new(test_config());
    assert_eq!(m.next_action(), Some(RadioAction::Configure { target: None }));
    m.on_event(RadioEvent::Failed);
    assert_eq!(m.state(), MeshState::Failed);
    assert_eq!(m.last_error(), Some(RadioError::Configure));
    assert_eq!(m.next_action(), None);
}

#[test]
fn empty_scan_returns_to_started_without_connect() {
    let mut m = Mesh::new(test_config());
    bring_up(&mut m);
    assert_eq!(m.next_action(), Some(RadioAction::Scan));
    assert_eq!(m.state(), MeshState::Scanning);
    m.on_event(RadioEvent::Scanned(Vec::new()));
    assert_eq!(m.state(), MeshState::Started);
    assert_eq!(m.cache().len(), 0);
    // the next call is another scan, not a connect
    assert_eq!(m.next_action(), Some(RadioAction::Scan));
}

#[test]
fn scan_failure_is_transient() {
    let mut m = Mesh::new(test_config());
    bring_up(&mut m);
    assert_eq!(m.next_action(), Some(RadioAction::Scan));
    m.on_event(RadioEvent::Failed);
    assert_eq!(m.state(), MeshState::Started);
    assert_eq!(m.last_error(), Some(RadioError::Scan));
    assert_eq!(m.next_action(), Some(RadioAction::Scan));
}

#[test]
fn end_to_end_scenario() {
    let peer_a = [0xAA, 0xAA, 0xAA, 0xAA, 0xAA, 0xAA];
    let peer_b = [0xBB, 0xBB, 0xBB, 0xBB, 0xBB, 0xBB];
    let peer_c = [0xCC, 0xCC, 0xCC, 0xCC, 0xCC, 0xCC];
    let mut m = Mesh::new(test_config());
    bring_up(&mut m);

    assert_eq!(m.next_action(), Some(RadioAction::Scan));
    m.on_event(RadioEvent::Scanned(vec![
        ScanEntry { bssid: peer_a, rssi: -40 },
        ScanEntry { bssid: peer_b, rssi: -70 },
        ScanEntry { bssid: peer_c, rssi: -55 },
    ]));

    // the ranked cache is ordered a, c, b
    assert_eq!(m.cache().len(), 3);
    assert_eq!(m.cache().get(0).bssid, peer_a);
    assert_eq!(m.cache().get(0).rssi, -40);
    assert_eq!(m.cache().get(1).bssid, peer_c);
    assert_eq!(m.cache().get(1).rssi, -55);
    assert_eq!(m.cache().get(2).bssid, peer_b);
    assert_eq!(m.cache().get(2).rssi, -70);

    // connects are attempted in order a, c, b, each attempt bracketed by
    // its targeted configure and its disconnect
    for peer in [peer_a, peer_c, peer_b] {
        assert_eq!(
            m.next_action(),
            Some(RadioAction::Configure { target: Some(peer) })
        );
        m.on_event(RadioEvent::Completed);
        assert_eq!(m.next_action(), Some(RadioAction::Connect));
        assert_eq!(m.state(), MeshState::Connecting);
        m.on_event(RadioEvent::Completed);
        assert_eq!(m.next_action(), Some(RadioAction::QueryConnected));
        m.on_event(RadioEvent::Link(false));
        assert_eq!(m.next_action(), Some(RadioAction::Disconnect));
        m.on_event(RadioEvent::Completed);
    }

    // all candidates exhausted: back to scanning
    assert_eq!(m.state(), MeshState::Started);
    assert_eq!(m.next_action(), Some(RadioAction::Scan));
    assert_eq!(m.failed_attempts(), 0);
}

#[test]
fn connect_failure_moves_to_next_candidate() {
    let peer_a = [0x0A; 6];
    let peer_b = [0x0B; 6];
    let mut m = Mesh::new(test_config());
    bring_up(&mut m);
    assert_eq!(m.next_action(), Some(RadioAction::Scan));
    m.on_event(RadioEvent::Scanned(vec![
        ScanEntry { bssid: peer_b, rssi: -60 },
        ScanEntry { bssid: peer_a, rssi: -30 },
    ]));

    assert_eq!(
        m.next_action(),
        Some(RadioAction::Configure { target: Some(peer_a) })
    );
    m.on_event(RadioEvent::Completed);
    assert_eq!(m.next_action(), Some(RadioAction::Connect));
    m.on_event(RadioEvent::Failed);
    // recorded, not escalated: the mandatory disconnect, then the next peer
    assert_eq!(m.failed_attempts(), 1);
    assert_eq!(m.last_error(), Some(RadioError::Connect));
    assert_eq!(m.next_action(), Some(RadioAction::Disconnect));
    m.on_event(RadioEvent::Completed);
    assert_eq!(
        m.next_action(),
        Some(RadioAction::Configure { target: Some(peer_b) })
    );
}

#[test]
fn confirmed_link_disconnects_and_rescans() {
    let peer = [0x11; 6];
    let mut m = Mesh::new(test_config());
    bring_up(&mut m);
    assert_eq!(m.next_action(), Some(RadioAction::Scan));
    m.on_event(RadioEvent::Scanned(vec![ScanEntry { bssid: peer, rssi: -45 }]));
    assert_eq!(
        m.next_action(),
        Some(RadioAction::Configure { target: Some(peer) })
    );
    m.on_event(RadioEvent::Completed);
    assert_eq!(m.next_action(), Some(RadioAction::Connect));
    m.on_event(RadioEvent::Completed);
    assert_eq!(m.next_action(), Some(RadioAction::QueryConnected));
    m.on_event(RadioEvent::Link(true));
    assert_eq!(m.state(), MeshState::Connected);
    assert!(m.is_connected());
    // peer acquisition, not link management: disconnect and resume scanning
    assert_eq!(m.next_action(), Some(RadioAction::Disconnect));
    assert!(!m.is_connected());
    m.on_event(RadioEvent::Completed);
    assert_eq!(m.state(), MeshState::Started);
    assert_eq!(m.next_action(), Some(RadioAction::Scan));
}

#[test]
fn targeting_failure_skips_connect() {
    let peer = [0x21; 6];
    let mut m = Mesh::new(test_config());
    bring_up(&mut m);
    assert_eq!(m.next_action(), Some(RadioAction::Scan));
    m.on_event(RadioEvent::Scanned(vec![ScanEntry { bssid: peer, rssi: -45 }]));
    assert_eq!(
        m.next_action(),
        Some(RadioAction::Configure { target: Some(peer) })
    );
    m.on_event(RadioEvent::Failed);
    assert_eq!(m.last_error(), Some(RadioError::Configure));
    // no connect against a stale configuration; clean up and move on
    assert_eq!(m.next_action(), Some(RadioAction::Disconnect));
    m.on_event(RadioEvent::Completed);
    assert_eq!(m.state(), MeshState::Started);
}

#[test]
fn disconnect_failure_is_recorded_and_cycle_continues() {
    let peer = [0x31; 6];
    let mut m = Mesh::new(test_config());
    bring_up(&mut m);
    assert_eq!(m.next_action(), Some(RadioAction::Scan));
    m.on_event(RadioEvent::Scanned(vec![ScanEntry { bssid: peer, rssi: -45 }]));
    m.next_action();
    m.on_event(RadioEvent::Completed);
    assert_eq!(m.next_action(), Some(RadioAction::Connect));
    m.on_event(RadioEvent::Completed);
    assert_eq!(m.next_action(), Some(RadioAction::QueryConnected));
    m.on_event(RadioEvent::Link(false));
    assert_eq!(m.next_action(), Some(RadioAction::Disconnect));
    m.on_event(RadioEvent::Failed);
    assert_eq!(m.last_error(), Some(RadioError::Disconnect));
    assert_eq!(m.state(), MeshState::Started);
    assert_eq!(m.next_action(), Some(RadioAction::Scan));
}
