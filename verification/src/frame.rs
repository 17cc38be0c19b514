//! The text that a frame of the user interface shows.

use crate::analysis::TxAnalysisResult;
use crate::primitives::{Address, U256};
use crate::text::{
    address_hex, at_most, decimal, first_chars, format_grouped, grouped, hash_hex, hex,
    law_decimal_reads_back, middle_out_hex, peer_id_abbreviated, prefixed_hex, read_decimal,
    usize_to_string,
};
use crate::transaction::{TransactionSigned, TxType};
use crate::types::{PeerInfo, UiUpdate};
use crate::ui::{count_of, new_txs, AppModel, AppState};
use crate::ui_laws::law_counters_count;
use std::time::Instant;
use vstd::prelude::*;

verus! {

/// How many wei make a gwei.
pub const WEI_PER_GWEI: u64 = 1_000_000_000;

/// The text of a frame.
#[derive(Debug)]
pub struct FrameText {
    /// The lines of the statistics panel.
    pub stats: Vec<String>,
    /// The title of the peer panel.
    pub peers_title: String,
    /// A line for each connected peer.
    pub peers: Vec<String>,
    /// The titles of the table's columns.
    pub header: Vec<String>,
    /// The cells of the table, row by row.
    pub rows: Vec<Vec<String>>,
}

/// The characters of each string.
pub open spec fn texts(strings: Seq<String>) -> Seq<Seq<char>> {
    strings.map_values(|s: String| s@)
}

/// The characters of each cell.
pub open spec fn cell_texts(rows: Seq<Vec<String>>) -> Seq<Seq<Seq<char>>> {
    rows.map_values(|row: Vec<String>| texts(row@))
}

/// The lines of the statistics panel.
pub open spec fn stats_lines_of(state: AppModel) -> Seq<Seq<char>> {
    seq![
        "Total Txs Seen:"@,
        "  "@ + grouped(state.total),
        "Breakdown:"@,
        "  Legacy:   "@ + grouped(state.legacy),
        "  EIP-1559: "@ + grouped(state.eip1559),
        "  EIP-2930: "@ + grouped(state.eip2930),
        "  EIP-4844: "@ + grouped(state.eip4844),
        "  EIP-7702: "@ + grouped(state.eip7702),
    ]
}

/// The line of a peer: its id, cut to twelve characters, and the version of its client, cut to
/// forty.
pub open spec fn peer_line_of(peer: PeerInfo) -> Seq<char> {
    at_most(middle_out_hex(peer.id@), 12) + "..."@ + " ("@ + at_most(peer.client_version@, 40)
        + ")"@
}

/// The hexadecimal form of a hash or an address, cut to ten characters.
pub open spec fn shortened(bytes: Seq<u8>) -> Seq<char> {
    at_most(prefixed_hex(bytes), 10) + "..."@
}

/// An optional address, cut to ten characters, or `absent` where there is none.
pub open spec fn shortened_or(address: Option<Address>, absent: Seq<char>) -> Seq<char> {
    match address {
        Some(a) => shortened(a@),
        None => absent,
    }
}

/// An optional price in gwei, rounded down, or `absent` where there is none.
pub open spec fn gwei_or(price: Option<u128>, absent: Seq<char>) -> Seq<char> {
    match price {
        Some(wei) => grouped((wei / 1_000_000_000) as nat),
        None => absent,
    }
}

/// The cells of a transaction's row.
pub open spec fn row_of(tx: TxAnalysisResult) -> Seq<Seq<char>> {
    seq![
        shortened(tx.hash@),
        tx.tx_type.spec_name(),
        shortened_or(tx.sender, "N/A"@),
        shortened_or(tx.receiver, "Create"@),
        decimal(tx.value.as_nat() / 1_000_000_000),
        gwei_or(tx.max_priority_fee, "-"@),
        gwei_or(tx.gas_price_or_max_fee, "N/A"@),
    ]
}

/// The titles of the table's columns.
pub open spec fn header_titles() -> Seq<Seq<char>> {
    seq![
        "Hash"@,
        "Type"@,
        "Sender"@,
        "Receiver"@,
        "Value (Gwei)"@,
        "Prio(G)"@,
        "MaxFee(G)"@,
    ]
}

/// Two strings, one behind the other.
fn joined(first: &str, second: &str) -> (r: String)
    ensures
        r@ == first@ + second@,
{
    first.to_owned().concat(second)
}

/// The lines of the statistics panel.
pub fn stats_lines(state: &AppState) -> (r: Vec<String>)
    ensures
        texts(r@) == stats_lines_of(state@),
{
    let mut r: Vec<String> = Vec::new();
    r.push("Total Txs Seen:".to_owned());
    r.push(joined("  ", &format_grouped(state.total_txs_seen() as u128)));
    r.push("Breakdown:".to_owned());
    r.push(joined("  Legacy:   ", &format_grouped(state.tx_count(TxType::Legacy) as u128)));
    r.push(joined("  EIP-1559: ", &format_grouped(state.tx_count(TxType::Eip1559) as u128)));
    r.push(joined("  EIP-2930: ", &format_grouped(state.tx_count(TxType::Eip2930) as u128)));
    r.push(joined("  EIP-4844: ", &format_grouped(state.tx_count(TxType::Eip4844) as u128)));
    r.push(joined("  EIP-7702: ", &format_grouped(state.tx_count(TxType::Eip7702) as u128)));
    assert(texts(r@) =~= stats_lines_of(state@));
    r
}

/// The title of the peer panel, with the number of peers.
pub fn peers_title(count: usize) -> (r: String)
    ensures
        r@ == "🔗 Peers ("@ + decimal(count as nat) + ")"@,
{
    joined("🔗 Peers (", &usize_to_string(count)).concat(")")
}

/// The line of a peer.
pub fn peer_line(peer: &PeerInfo) -> (r: String)
    ensures
        r@ == peer_line_of(*peer),
{
    let id = first_chars(&peer_id_abbreviated(&peer.id), 12);
    let client = first_chars(&peer.client_version, 40);
    id.concat("...").concat(" (").concat(&client).concat(")")
}

/// An optional address, cut to ten characters, or `absent` where there is none.
fn address_cell(address: &Option<Address>, absent: &str) -> (r: String)
    ensures
        r@ == shortened_or(*address, absent@),
{
    match address {
        Some(a) => first_chars(&address_hex(a), 10).concat("..."),
        None => absent.to_owned(),
    }
}

/// An optional price in gwei, rounded down, or `absent` where there is none.
fn price_cell(price: Option<u128>, absent: &str) -> (r: String)
    ensures
        r@ == gwei_or(price, absent@),
{
    match price {
        Some(wei) => format_grouped(wei / 1_000_000_000u128),
        None => absent.to_owned(),
    }
}

/// The cells of a transaction's row.
pub fn tx_row(tx: &TxAnalysisResult) -> (r: Vec<String>)
    ensures
        texts(r@) == row_of(*tx),
{
    let mut r: Vec<String> = Vec::new();
    r.push(first_chars(&hash_hex(&tx.hash), 10).concat("..."));
    r.push(tx.tx_type.name().to_owned());
    r.push(address_cell(&tx.sender, "N/A"));
    r.push(address_cell(&tx.receiver, "Create"));
    r.push(tx.value.div(U256::from_u64(WEI_PER_GWEI)).to_decimal());
    r.push(price_cell(tx.max_priority_fee, "-"));
    r.push(price_cell(tx.gas_price_or_max_fee, "N/A"));
    assert(texts(r@) =~= row_of(*tx));
    r
}

/// The titles of the table's columns.
pub fn table_header() -> (r: Vec<String>)
    ensures
        texts(r@) == header_titles(),
{
    let mut r: Vec<String> = Vec::new();
    r.push("Hash".to_owned());
    r.push("Type".to_owned());
    r.push("Sender".to_owned());
    r.push("Receiver".to_owned());
    r.push("Value (Gwei)".to_owned());
    r.push("Prio(G)".to_owned());
    r.push("MaxFee(G)".to_owned());
    assert(texts(r@) =~= header_titles());
    r
}

/// The text of the frame that shows `state`: its statistics, a line for each peer and a row for
/// each recent transaction, in their order.
pub fn frame_text(state: &AppState) -> (r: FrameText)
    ensures
        texts(r.stats@) == stats_lines_of(state@),
        r.peers_title@ == "🔗 Peers ("@ + decimal(state@.peers.len()) + ")"@,
        texts(r.peers@) == state@.peers.map_values(|peer: PeerInfo| peer_line_of(peer)),
        texts(r.header@) == header_titles(),
        cell_texts(r.rows@) == state@.recent_txs.map_values(|tx: TxAnalysisResult| row_of(tx)),
{
    let shown_peers = state.peers();
    let mut peers: Vec<String> = Vec::new();
    for i in 0..shown_peers.len()
        invariant
            shown_peers@ == state@.peers,
            peers@.len() == i,
            forall|j: int| 0 <= j < i ==> (#[trigger] peers@[j])@ == peer_line_of(state@.peers[j]),
    {
        peers.push(peer_line(&shown_peers[i]));
    }
    assert(texts(peers@) =~= state@.peers.map_values(|peer: PeerInfo| peer_line_of(peer)));
    let shown_txs = state.recent_txs();
    let mut rows: Vec<Vec<String>> = Vec::new();
    for i in 0..shown_txs.len()
        invariant
            shown_txs@ == state@.recent_txs,
            rows@.len() == i,
            forall|j: int|
                0 <= j < i ==> texts((#[trigger] rows@[j])@) == row_of(state@.recent_txs[j]),
    {
        rows.push(tx_row(&shown_txs[i]));
    }
    assert(cell_texts(rows@) =~= state@.recent_txs.map_values(
        |tx: TxAnalysisResult| row_of(tx),
    ));
    FrameText {
        stats: stats_lines(state),
        peers_title: peers_title(shown_peers.len()),
        peers,
        header: table_header(),
        rows,
    }
}

/// The row of a transaction tells its hash, its kind, who signed it, whom it calls, and, in gwei,
/// what it transfers, its tip, and its gas price or fee cap.
pub proof fn law_row_tells_of_the_transaction(tx: TransactionSigned, shown: TxAnalysisResult)
    requires
        shown.describes(tx),
    ensures
        row_of(shown) == seq![
            shortened(tx.spec_hash()),
            tx.transaction@.tx_type.spec_name(),
            match tx.spec_signer() {
                Some(signer) => shortened(signer),
                None => "N/A"@,
            },
            match tx.transaction@.to {
                Some(receiver) => shortened(receiver),
                None => "Create"@,
            },
            decimal(tx.transaction@.value / 1_000_000_000),
            match tx.transaction@.max_priority_fee {
                Some(tip) => grouped((tip / 1_000_000_000) as nat),
                None => "-"@,
            },
            grouped((tx.transaction@.max_fee / 1_000_000_000) as nat),
        ],
{
}

/// A hash or an address is shown by its first four bytes.
pub proof fn law_four_bytes_are_shown(bytes: Seq<u8>)
    requires
        bytes.len() >= 4,
    ensures
        shortened(bytes) == seq!['0', 'x'] + hex(bytes.take(4)) + "..."@,
{
    assert(at_most(prefixed_hex(bytes), 10) =~= seq!['0', 'x'] + hex(bytes.take(4)));
}

/// The abbreviated id of a peer fits into its line: nothing of it is cut off.
pub proof fn law_peer_id_is_not_cut(peer: PeerInfo)
    ensures
        peer_line_of(peer) == middle_out_hex(peer.id@) + "..."@ + " ("@ + at_most(
            peer.client_version@,
            40,
        ) + ")"@,
{
    assert(middle_out_hex(peer.id@).len() == 11);
}

/// Texts are those of the strings, each in its place.
pub proof fn law_texts_are_in_place(strings: Seq<String>, rows: Seq<Vec<String>>)
    ensures
        texts(strings).len() == strings.len(),
        forall|i: int| 0 <= i < strings.len() ==> #[trigger] texts(strings)[i] == strings[i]@,
        cell_texts(rows).len() == rows.len(),
        forall|i: int| 0 <= i < rows.len() ==> #[trigger] cell_texts(rows)[i] == texts(rows[i]@),
{
}

/// Each line of the statistics stands under its own label: that of the total has the total, and
/// that of a kind has the count of that kind.
pub proof fn law_each_count_has_its_label(state: &AppState, lines: Vec<String>)
    requires
        call_ensures(stats_lines, (state,), lines),
    ensures
        lines@.len() == 8,
        lines@[0]@ == "Total Txs Seen:"@,
        lines@[1]@ == "  "@ + grouped(state@.total),
        lines@[2]@ == "Breakdown:"@,
        lines@[3]@ == "  Legacy:   "@ + grouped(state@.count(TxType::Legacy)),
        lines@[4]@ == "  EIP-1559: "@ + grouped(state@.count(TxType::Eip1559)),
        lines@[5]@ == "  EIP-2930: "@ + grouped(state@.count(TxType::Eip2930)),
        lines@[6]@ == "  EIP-4844: "@ + grouped(state@.count(TxType::Eip4844)),
        lines@[7]@ == "  EIP-7702: "@ + grouped(state@.count(TxType::Eip7702)),
{
    law_texts_are_in_place(lines@, Seq::empty());
    assert(texts(lines@).len() == 8);
    assert(lines@[0]@ == texts(lines@)[0]);
    assert(lines@[1]@ == texts(lines@)[1]);
    assert(lines@[2]@ == texts(lines@)[2]);
    assert(lines@[3]@ == texts(lines@)[3]);
    assert(lines@[4]@ == texts(lines@)[4]);
    assert(lines@[5]@ == texts(lines@)[5]);
    assert(lines@[6]@ == texts(lines@)[6]);
    assert(lines@[7]@ == texts(lines@)[7]);
}

/// After any messages to a fresh state, the statistics tell how many transactions the messages
/// told of: under the label of each kind how many of that kind, and in the total all of them.
pub proof fn law_statistics_count_the_messages(
    state: &AppState,
    lines: Vec<String>,
    start: Instant,
    updates: Seq<UiUpdate>,
    now: Instant,
)
    requires
        state@ == AppModel::initial(start).after_updates(updates, now),
        call_ensures(stats_lines, (state,), lines),
    ensures
        lines@.len() == 8,
        lines@[1]@ == "  "@ + grouped(new_txs(updates).len()),
        lines@[3]@ == "  Legacy:   "@ + grouped(count_of(new_txs(updates), TxType::Legacy)),
        lines@[4]@ == "  EIP-1559: "@ + grouped(count_of(new_txs(updates), TxType::Eip1559)),
        lines@[5]@ == "  EIP-2930: "@ + grouped(count_of(new_txs(updates), TxType::Eip2930)),
        lines@[6]@ == "  EIP-4844: "@ + grouped(count_of(new_txs(updates), TxType::Eip4844)),
        lines@[7]@ == "  EIP-7702: "@ + grouped(count_of(new_txs(updates), TxType::Eip7702)),
{
    let fresh = AppModel::initial(start);
    law_each_count_has_its_label(state, lines);
    law_counters_count(fresh, updates, now, TxType::Legacy);
    law_counters_count(fresh, updates, now, TxType::Eip1559);
    law_counters_count(fresh, updates, now, TxType::Eip2930);
    law_counters_count(fresh, updates, now, TxType::Eip4844);
    law_counters_count(fresh, updates, now, TxType::Eip7702);
}

/// The cells of a row are, in this order, the first four bytes of the hash, the kind, the first
/// four bytes of the sender and of the receiver, or what is said where there is none, and in gwei,
/// rounded down, the value, the tip and the gas price or fee cap.
pub proof fn law_row_has_its_cells(tx: &TxAnalysisResult, cells: Vec<String>)
    requires
        call_ensures(tx_row, (tx,), cells),
    ensures
        cells@.len() == 7,
        cells@[0]@ == seq!['0', 'x'] + hex(tx.hash@.take(4)) + "..."@,
        cells@[1]@ == tx.tx_type.spec_name(),
        tx.sender matches Some(a) ==> cells@[2]@ == seq!['0', 'x'] + hex(a@.take(4)) + "..."@,
        tx.sender is None ==> cells@[2]@ == "N/A"@,
        tx.receiver matches Some(a) ==> cells@[3]@ == seq!['0', 'x'] + hex(a@.take(4)) + "..."@,
        tx.receiver is None ==> cells@[3]@ == "Create"@,
        cells@[4]@ == decimal(tx.value.as_nat() / 1_000_000_000),
        tx.max_priority_fee matches Some(wei) ==> cells@[5]@ == grouped(
            wei as nat / 1_000_000_000,
        ),
        tx.max_priority_fee is None ==> cells@[5]@ == "-"@,
        tx.gas_price_or_max_fee matches Some(wei) ==> cells@[6]@ == grouped(
            wei as nat / 1_000_000_000,
        ),
        tx.gas_price_or_max_fee is None ==> cells@[6]@ == "N/A"@,
{
    law_texts_are_in_place(cells@, Seq::empty());
    assert(texts(cells@).len() == 7);
    assert(cells@[0]@ == texts(cells@)[0]);
    assert(cells@[1]@ == texts(cells@)[1]);
    assert(cells@[2]@ == texts(cells@)[2]);
    assert(cells@[3]@ == texts(cells@)[3]);
    assert(cells@[4]@ == texts(cells@)[4]);
    assert(cells@[5]@ == texts(cells@)[5]);
    assert(cells@[6]@ == texts(cells@)[6]);
    law_four_bytes_are_shown(tx.hash@);
    if let Some(a) = tx.sender {
        law_four_bytes_are_shown(a@);
    }
    if let Some(a) = tx.receiver {
        law_four_bytes_are_shown(a@);
    }
}

/// The line of a peer has both ends of its id, and in brackets the first forty characters of its
/// client's version, or all of them.
pub proof fn law_peer_line_has_its_parts(peer: &PeerInfo, line: String)
    requires
        call_ensures(peer_line, (peer,), line),
    ensures
        line@ == seq!['0', 'x'] + hex(peer.id@.take(2)) + seq!['\u{2026}'] + hex(
            peer.id@.skip(62),
        ) + "..."@ + " ("@ + (if peer.client_version@.len() <= 40 {
            peer.client_version@
        } else {
            peer.client_version@.take(40)
        }) + ")"@,
{
    law_peer_id_is_not_cut(*peer);
}

/// The title counts the peers.
pub proof fn law_title_counts_the_peers(count: usize, title: String)
    requires
        call_ensures(peers_title, (count,), title),
    ensures
        title@.len() >= 11,
        title@.take(9) == "🔗 Peers ("@,
        title@.last() == ')',
        read_decimal(title@.subrange(9, title@.len() - 1)) == count,
{
    reveal_strlit("🔗 Peers (");
    reveal_strlit(")");
    law_decimal_reads_back(count as nat);
    assert(title@.take(9) =~= "🔗 Peers ("@);
    assert(title@.subrange(9, title@.len() - 1) =~= decimal(count as nat));
}

/// A frame has a line for each peer of the state and a row for each of its transactions, each in
/// its place, and its title counts the peers.
pub proof fn law_frame_shows_the_whole_state(state: &AppState, frame: FrameText)
    requires
        call_ensures(frame_text, (state,), frame),
    ensures
        frame.peers@.len() == state@.peers.len(),
        forall|i: int|
            0 <= i < state@.peers.len() ==> (#[trigger] frame.peers@[i])@ == middle_out_hex(
                state@.peers[i].id@,
            ) + "..."@ + " ("@ + at_most(state@.peers[i].client_version@, 40) + ")"@,
        frame.rows@.len() == state@.recent_txs.len(),
        forall|i: int|
            0 <= i < state@.recent_txs.len() ==> texts((#[trigger] frame.rows@[i])@) == row_of(
                state@.recent_txs[i],
            ),
        frame.peers_title@ == "🔗 Peers ("@ + decimal(state@.peers.len()) + ")"@,
        frame.stats@.len() == 8,
        frame.stats@[4]@ == "  EIP-1559: "@ + grouped(state@.count(TxType::Eip1559)),
        frame.stats@[5]@ == "  EIP-2930: "@ + grouped(state@.count(TxType::Eip2930)),
{
    law_texts_are_in_place(frame.peers@, frame.rows@);
    law_texts_are_in_place(frame.stats@, frame.rows@);
    assert(texts(frame.peers@).len() == state@.peers.len());
    assert forall|i: int| 0 <= i < state@.peers.len() implies (#[trigger] frame.peers@[i])@
        == middle_out_hex(state@.peers[i].id@) + "..."@ + " ("@ + at_most(
        state@.peers[i].client_version@,
        40,
    ) + ")"@ by {
        assert(texts(frame.peers@)[i] == peer_line_of(state@.peers[i]));
        law_peer_id_is_not_cut(state@.peers[i]);
    }
    assert(cell_texts(frame.rows@).len() == state@.recent_txs.len());
    assert forall|i: int| 0 <= i < state@.recent_txs.len() implies texts(
        (#[trigger] frame.rows@[i])@,
    ) == row_of(state@.recent_txs[i]) by {
        assert(cell_texts(frame.rows@)[i] == row_of(state@.recent_txs[i]));
    }
    assert(texts(frame.stats@).len() == 8);
    assert(frame.stats@[4]@ == texts(frame.stats@)[4]);
    assert(frame.stats@[5]@ == texts(frame.stats@)[5]);
}

} // verus!
