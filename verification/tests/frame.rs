use eth_p2p_crawler::analysis::TxAnalysisResult;
use eth_p2p_crawler::frame::{frame_text, peer_line, peers_title, stats_lines, table_header, tx_row};
use eth_p2p_crawler::primitives::U256;
use eth_p2p_crawler::text::first_chars;
use eth_p2p_crawler::transaction::TxType;
use eth_p2p_crawler::types::{PeerInfo, PeerUpdateData, UiUpdate};
use eth_p2p_crawler::ui::AppState;
use std::time::Instant;

fn tx(tx_type: TxType) -> TxAnalysisResult {
    let mut hash: [u8; 32] = [0xff; 32];
    hash[0] = 0x01;
    hash[1] = 0xab;
    TxAnalysisResult {
        hash,
        tx_type,
        sender: Some([0xc0; 20]),
        receiver: Some([0x0d; 20]),
        value: U256::from_u64(1_999_999_999),
        gas_limit: 21000,
        gas_price_or_max_fee: Some(1_234_567_999_999_999),
        max_priority_fee: Some(2_999_999_999),
        input_len: 0,
    }
}

fn peer(id: [u8; 64], client_version: &str) -> PeerInfo {
    PeerInfo { id, client_version: client_version.to_string() }
}

#[test]
fn a_row_shows_a_transaction() {
    assert_eq!(
        tx_row(&tx(TxType::Eip1559)),
        vec!["0x01abffff...", "Eip1559", "0xc0c0c0c0...", "0x0d0d0d0d...", "1", "2", "1,234,567"]
    );
}

#[test]
fn a_row_shows_what_is_absent() {
    let mut bare = tx(TxType::Legacy);
    bare.sender = None;
    bare.receiver = None;
    bare.max_priority_fee = None;
    bare.gas_price_or_max_fee = None;
    assert_eq!(
        tx_row(&bare),
        vec!["0x01abffff...", "Legacy", "N/A", "Create", "1", "-", "N/A"]
    );
}

#[test]
fn every_kind_has_its_name() {
    let names: Vec<&str> =
        vec![TxType::Legacy, TxType::Eip2930, TxType::Eip1559, TxType::Eip4844, TxType::Eip7702]
            .into_iter()
            .map(|t| t.name())
            .collect();
    assert_eq!(names, vec!["Legacy", "Eip2930", "Eip1559", "Eip4844", "Eip7702"]);
}

#[test]
fn values_are_shown_in_whole_gwei_without_commas() {
    let mut rich = tx(TxType::Eip4844);
    rich.value = U256 { limbs: [u64::MAX; 4] };
    assert_eq!(
        tx_row(&rich)[4],
        "115792089237316195423570985008687907853269984665640564039457584007913"
    );
    rich.value = U256::from_u64(999_999_999);
    assert_eq!(tx_row(&rich)[4], "0");
    rich.value = U256::from_u64(1_234_567_000_000_000);
    assert_eq!(tx_row(&rich)[4], "1234567");
}

#[test]
fn division_and_decimals_of_wide_numbers() {
    let wide = U256 { limbs: [0, 1, 0, 0] };
    assert_eq!(wide.to_decimal(), "18446744073709551616");
    assert_eq!(wide.div(U256::from_u64(2)), U256::from_u64(1 << 63));
    assert_eq!(wide.div(wide), U256::from_u64(1));
    assert_eq!(U256::from_u64(0).to_decimal(), "0");
    assert_eq!(U256 { limbs: [0, 0, 1, 0] }.to_decimal(), "340282366920938463463374607431768211456");
}

#[test]
fn prices_are_grouped_by_threes() {
    let mut row = tx(TxType::Eip1559);
    for (wei, shown) in [
        (0u128, "0"),
        (999_999_999, "0"),
        (1_000_000_000, "1"),
        (999_000_000_000, "999"),
        (1_000_000_000_000, "1,000"),
        (1_000_000_000_000_000, "1,000,000"),
        (12_345_678_000_000_000, "12,345,678"),
        (u128::MAX, "340,282,366,920,938,463,463,374,607,431"),
    ] {
        row.gas_price_or_max_fee = Some(wei);
        row.max_priority_fee = Some(wei);
        let cells = tx_row(&row);
        assert_eq!(cells[5], shown);
        assert_eq!(cells[6], shown);
    }
}

#[test]
fn a_peer_is_shown_by_the_ends_of_its_id() {
    let mut id: [u8; 64] = [0x77; 64];
    id[0] = 0x12;
    id[1] = 0x34;
    id[62] = 0xab;
    id[63] = 0xcd;
    assert_eq!(
        peer_line(&peer(id, "Geth/v1.15.0")),
        "0x1234\u{2026}abcd... (Geth/v1.15.0)"
    );
}

#[test]
fn a_long_client_version_is_cut() {
    let version = "0123456789012345678901234567890123456789TOO LONG";
    assert_eq!(
        peer_line(&peer([0; 64], version)),
        "0x0000\u{2026}0000... (0123456789012345678901234567890123456789)"
    );
    let wide = "\u{e9}".repeat(41);
    assert_eq!(
        peer_line(&peer([0; 64], &wide)),
        format!("0x0000\u{2026}0000... ({})", "\u{e9}".repeat(40))
    );
}

#[test]
fn characters_are_cut_not_bytes() {
    assert_eq!(first_chars("h\u{e9}llo", 2), "h\u{e9}");
    assert_eq!(first_chars("abc", 3), "abc");
    assert_eq!(first_chars("abc", 9), "abc");
    assert_eq!(first_chars("abc", 0), "");
}

#[test]
fn the_statistics_are_grouped_by_threes() {
    let mut state = AppState::default();
    for _ in 0..1234u32 {
        state.step(None, vec![UiUpdate::NewTx(Box::new(tx(TxType::Eip7702)))]);
    }
    state.step(None, vec![UiUpdate::NewTx(Box::new(tx(TxType::Legacy)))]);
    assert_eq!(
        stats_lines(&state),
        vec![
            "Total Txs Seen:",
            "  1,235",
            "Breakdown:",
            "  Legacy:   1",
            "  EIP-1559: 0",
            "  EIP-2930: 0",
            "  EIP-4844: 0",
            "  EIP-7702: 1,234",
        ]
    );
}

#[test]
fn the_title_counts_the_peers() {
    assert_eq!(peers_title(0), "🔗 Peers (0)");
    assert_eq!(peers_title(1205), "🔗 Peers (1205)");
}

#[test]
fn a_frame_shows_the_state() {
    let mut state = AppState::default();
    let now = Instant::now();
    state.step(
        None,
        vec![
            UiUpdate::NewTx(Box::new(tx(TxType::Legacy))),
            UiUpdate::NewTx(Box::new(tx(TxType::Eip1559))),
            UiUpdate::PeerUpdate(PeerUpdateData {
                connected_peers: vec![peer([1; 64], "geth"), peer([2; 64], "reth")],
                timestamp: now,
            }),
        ],
    );
    let frame = frame_text(&state);
    assert_eq!(frame.stats, stats_lines(&state));
    assert_eq!(frame.peers_title, "🔗 Peers (2)");
    assert_eq!(
        frame.peers,
        vec!["0x0101\u{2026}0101... (geth)", "0x0202\u{2026}0202... (reth)"]
    );
    assert_eq!(frame.header, table_header());
    assert_eq!(
        frame.header,
        vec!["Hash", "Type", "Sender", "Receiver", "Value (Gwei)", "Prio(G)", "MaxFee(G)"]
    );
    assert_eq!(frame.rows.len(), 2);
    assert_eq!(frame.rows[0], tx_row(&tx(TxType::Eip1559)));
    assert_eq!(frame.rows[1], tx_row(&tx(TxType::Legacy)));
}
