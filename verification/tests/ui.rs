use eth_p2p_crawler::analysis::TxAnalysisResult;
use eth_p2p_crawler::network::{EthP2PHandler, PeerEvent, SessionInfo};
use eth_p2p_crawler::primitives::U256;
use eth_p2p_crawler::transaction::TxType;
use eth_p2p_crawler::types::{PeerInfo, PeerUpdateData, UiUpdate};
use eth_p2p_crawler::ui::{AppState, KeyCode, MAX_RECENT_TXS};
use std::time::{Duration, Instant};

fn tx(id: u8, tx_type: TxType) -> TxAnalysisResult {
    TxAnalysisResult {
        hash: [id; 32],
        tx_type,
        sender: None,
        receiver: None,
        value: U256::from_u64(0),
        gas_limit: 21000,
        gas_price_or_max_fee: None,
        max_priority_fee: None,
        input_len: 0,
    }
}

fn new_tx(id: u8, tx_type: TxType) -> UiUpdate {
    UiUpdate::NewTx(Box::new(tx(id, tx_type)))
}

fn peers(ids: &[u8], now: Instant) -> UiUpdate {
    let connected_peers: Vec<PeerInfo> = ids
        .iter()
        .map(|id| PeerInfo { id: [*id; 64], client_version: "geth".to_string() })
        .collect();
    UiUpdate::PeerUpdate(PeerUpdateData { connected_peers, timestamp: now })
}

fn with_txs(n: u8) -> AppState {
    let mut state = AppState::default();
    for id in 0..n {
        state.step(None, vec![new_tx(id, TxType::Eip1559)]);
    }
    state
}

#[test]
fn a_fresh_state_shows_nothing() {
    let state = AppState::default();
    assert!(state.peers().is_empty());
    assert!(state.recent_txs().is_empty());
    assert_eq!(state.selected(), None);
    assert_eq!(state.total_txs_seen(), 0);
    assert_eq!(state.tx_count(TxType::Legacy), 0);
    assert!(!state.should_quit());
}

#[test]
fn transactions_are_counted_by_kind() {
    let mut state = AppState::default();
    let quit = state.step(
        None,
        vec![
            new_tx(1, TxType::Legacy),
            new_tx(2, TxType::Eip1559),
            new_tx(3, TxType::Eip1559),
            new_tx(4, TxType::Eip2930),
            new_tx(5, TxType::Eip4844),
            new_tx(6, TxType::Eip4844),
            new_tx(7, TxType::Eip4844),
            new_tx(8, TxType::Eip7702),
        ],
    );
    assert!(!quit);
    assert_eq!(state.total_txs_seen(), 8);
    assert_eq!(state.tx_count(TxType::Legacy), 1);
    assert_eq!(state.tx_count(TxType::Eip1559), 2);
    assert_eq!(state.tx_count(TxType::Eip2930), 1);
    assert_eq!(state.tx_count(TxType::Eip4844), 3);
    assert_eq!(state.tx_count(TxType::Eip7702), 1);
}

#[test]
fn the_table_keeps_the_newest() {
    let state = with_txs(60);
    assert_eq!(state.total_txs_seen(), 60);
    assert_eq!(state.recent_txs().len(), MAX_RECENT_TXS);
    for (row, shown) in state.recent_txs().iter().enumerate() {
        assert_eq!(shown.hash, [59 - row as u8; 32]);
    }
}

#[test]
fn the_first_transaction_is_selected_and_stays_so() {
    let mut state = with_txs(1);
    assert_eq!(state.selected(), Some(0));
    state.step(None, vec![new_tx(9, TxType::Legacy)]);
    assert_eq!(state.selected(), Some(0));
    state.handle_key(KeyCode::Down);
    state.step(None, vec![new_tx(10, TxType::Legacy)]);
    assert_eq!(state.selected(), Some(1));
}

#[test]
fn arrows_do_nothing_on_an_empty_table() {
    let mut state = AppState::default();
    state.handle_key(KeyCode::Down);
    assert_eq!(state.selected(), None);
    state.handle_key(KeyCode::Up);
    assert_eq!(state.selected(), None);
}

#[test]
fn arrows_move_and_wrap() {
    let mut state = with_txs(3);
    state.handle_key(KeyCode::Down);
    assert_eq!(state.selected(), Some(1));
    state.handle_key(KeyCode::Down);
    assert_eq!(state.selected(), Some(2));
    state.handle_key(KeyCode::Down);
    assert_eq!(state.selected(), Some(0));
    state.handle_key(KeyCode::Up);
    assert_eq!(state.selected(), Some(2));
    state.handle_key(KeyCode::Up);
    assert_eq!(state.selected(), Some(1));
}

#[test]
fn arrows_undo_each_other() {
    let mut state = with_txs(3);
    for _ in 0..3 {
        let before = state.selected();
        state.handle_key(KeyCode::Up);
        state.handle_key(KeyCode::Down);
        assert_eq!(state.selected(), before);
        state.handle_key(KeyCode::Down);
        state.handle_key(KeyCode::Up);
        assert_eq!(state.selected(), before);
        state.handle_key(KeyCode::Down);
    }
}

#[test]
fn arrows_go_round() {
    let mut state = with_txs(5);
    state.handle_key(KeyCode::Down);
    for _ in 0..5 {
        state.handle_key(KeyCode::Down);
    }
    assert_eq!(state.selected(), Some(1));
    for _ in 0..5 {
        state.handle_key(KeyCode::Up);
    }
    assert_eq!(state.selected(), Some(1));
}

#[test]
fn a_single_row_stays_selected() {
    let mut state = with_txs(1);
    state.handle_key(KeyCode::Down);
    assert_eq!(state.selected(), Some(0));
    state.handle_key(KeyCode::Up);
    assert_eq!(state.selected(), Some(0));
}

#[test]
fn only_q_ends_the_interface() {
    let mut state = with_txs(2);
    assert!(!state.step(Some(KeyCode::Char('x')), vec![]));
    assert!(!state.step(Some(KeyCode::Char('Q')), vec![]));
    assert!(!state.step(Some(KeyCode::Other), vec![]));
    assert!(state.step(Some(KeyCode::Char('q')), vec![]));
    assert!(state.step(None, vec![]));
    assert!(state.should_quit());
}

#[test]
fn a_shutdown_ends_the_interface_after_all_messages() {
    let mut state = AppState::default();
    assert!(state.step(None, vec![UiUpdate::Shutdown, new_tx(1, TxType::Legacy)]));
    assert_eq!(state.total_txs_seen(), 1);
}

#[test]
fn the_key_comes_before_the_messages() {
    let mut state = AppState::default();
    state.step(Some(KeyCode::Up), vec![new_tx(1, TxType::Legacy), new_tx(2, TxType::Legacy)]);
    assert_eq!(state.selected(), Some(0));
}

#[test]
fn the_latest_list_of_peers_is_shown() {
    let now = Instant::now();
    let mut state = AppState::default();
    state.step(None, vec![peers(&[1, 2], now), new_tx(1, TxType::Legacy), peers(&[3], now)]);
    assert_eq!(state.peers().len(), 1);
    assert_eq!(state.peers()[0].id, [3; 64]);
    state.step(None, vec![new_tx(2, TxType::Legacy)]);
    assert_eq!(state.peers().len(), 1);
}

#[test]
fn only_messages_move_the_time() {
    let start = Instant::now();
    let later = start + Duration::from_secs(5);
    let mut state = AppState::new(start);
    state.step_at(Some(KeyCode::Down), vec![], later);
    assert_eq!(state.last_update(), start);
    state.step_at(None, vec![peers(&[], start)], later);
    assert_eq!(state.last_update(), later);
    let last = later + Duration::from_secs(1);
    state.apply_update(UiUpdate::Shutdown, last);
    assert_eq!(state.last_update(), last);
}

#[test]
fn what_the_handler_tells_is_shown() {
    let mut handler = EthP2PHandler::new();
    let mut state = AppState::default();
    for id in [1u8, 2, 3] {
        let update = handler.handle_peer_event(PeerEvent::SessionEstablished(SessionInfo {
            peer_id: [id; 64],
            client_version: "geth".to_string(),
        }));
        state.step(None, update.into_iter().collect());
    }
    let update = handler.handle_peer_event(PeerEvent::SessionClosed { peer_id: [2; 64] });
    state.step(None, update.into_iter().collect());
    let mut shown: Vec<u8> = state.peers().iter().map(|peer| peer.id[0]).collect();
    shown.sort();
    assert_eq!(shown, vec![1, 3]);
}

#[test]
fn a_new_transaction_tops_the_table() {
    let mut state = with_txs(50);
    state.apply_update(new_tx(200, TxType::Eip7702), Instant::now());
    assert_eq!(state.recent_txs().len(), 50);
    assert_eq!(state.recent_txs()[0], tx(200, TxType::Eip7702));
    assert_eq!(state.recent_txs()[1].hash, [49; 32]);
    assert_eq!(state.recent_txs()[49].hash, [1; 32]);
}
