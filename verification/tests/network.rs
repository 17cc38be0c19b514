use eth_p2p_crawler::network::{EthP2PHandler, NetworkEvent, PeerEvent, SessionInfo};
use eth_p2p_crawler::types::{PeerInfo, UiUpdate};
use std::time::Instant;

fn established(id: u8, client_version: &str) -> PeerEvent {
    PeerEvent::SessionEstablished(SessionInfo {
        peer_id: [id; 64],
        client_version: client_version.to_string(),
    })
}

fn closed(id: u8) -> PeerEvent {
    PeerEvent::SessionClosed { peer_id: [id; 64] }
}

fn peer(id: u8, client_version: &str) -> PeerInfo {
    PeerInfo { id: [id; 64], client_version: client_version.to_string() }
}

fn listed(update: Option<UiUpdate>) -> Vec<PeerInfo> {
    match update {
        Some(UiUpdate::PeerUpdate(data)) => {
            let mut peers: Vec<PeerInfo> = data.connected_peers.clone();
            peers.sort_by_key(|p| p.id);
            peers
        }
        _ => panic!("no list of peers"),
    }
}

#[test]
fn an_established_peer_is_listed() {
    let mut handler = EthP2PHandler::new();
    assert!(handler.connected_peers().is_empty());
    assert_eq!(listed(handler.handle_peer_event(established(1, "geth"))), vec![peer(1, "geth")]);
    assert_eq!(
        listed(handler.handle_peer_event(established(2, "reth"))),
        vec![peer(1, "geth"), peer(2, "reth")]
    );
}

#[test]
fn a_second_session_replaces_the_first() {
    let mut handler = EthP2PHandler::new();
    handler.handle_peer_event(established(1, "geth"));
    assert_eq!(listed(handler.handle_peer_event(established(1, "reth"))), vec![peer(1, "reth")]);
}

#[test]
fn a_closed_peer_is_not_listed() {
    let mut handler = EthP2PHandler::new();
    handler.handle_peer_event(established(1, "geth"));
    handler.handle_peer_event(established(2, "reth"));
    assert_eq!(listed(handler.handle_peer_event(closed(1))), vec![peer(2, "reth")]);
    assert_eq!(handler.connected_peers(), vec![peer(2, "reth")]);
}

#[test]
fn closing_an_unknown_session_still_sends_the_list() {
    let mut handler = EthP2PHandler::new();
    handler.handle_peer_event(established(1, "geth"));
    assert_eq!(listed(handler.handle_peer_event(closed(9))), vec![peer(1, "geth")]);
}

#[test]
fn closing_undoes_establishing() {
    let mut handler = EthP2PHandler::new();
    handler.handle_peer_event(established(1, "geth"));
    handler.handle_peer_event(established(2, "reth"));
    handler.handle_peer_event(closed(2));
    assert_eq!(handler.connected_peers(), vec![peer(1, "geth")]);
}

#[test]
fn the_address_book_is_not_told_of() {
    let mut handler = EthP2PHandler::new();
    handler.handle_peer_event(established(1, "geth"));
    assert!(handler.handle_peer_event(PeerEvent::PeerAdded([2; 64])).is_none());
    assert!(handler.handle_peer_event(PeerEvent::PeerRemoved([1; 64])).is_none());
    assert_eq!(handler.connected_peers(), vec![peer(1, "geth")]);
}

#[test]
fn the_list_bears_the_time() {
    let mut handler = EthP2PHandler::new();
    let now = Instant::now();
    match handler.handle_peer_event_at(established(1, "geth"), now) {
        Some(UiUpdate::PeerUpdate(data)) => assert_eq!(data.timestamp, now),
        _ => panic!("no list of peers"),
    }
}

#[test]
fn network_events_lead_to_peer_events() {
    let mut handler = EthP2PHandler::new();
    let update = handler.handle_network_event_wrapper(NetworkEvent::Peer(established(1, "geth")));
    assert_eq!(listed(update), vec![peer(1, "geth")]);
    let active = NetworkEvent::ActivePeerSession { peer_id: [2; 64] };
    assert!(handler.handle_network_event_wrapper(active).is_none());
    assert_eq!(handler.connected_peers(), vec![peer(1, "geth")]);
}

#[test]
fn many_peers_are_listed_once_each() {
    let mut handler = EthP2PHandler::new();
    for id in 0..100u8 {
        handler.handle_peer_event(established(id, "geth"));
    }
    let peers = listed(handler.handle_peer_event(closed(50)));
    assert_eq!(peers.len(), 99);
    for pair in peers.windows(2) {
        assert!(pair[0].id < pair[1].id);
    }
}
