//! Laws of the user interface's state.

use crate::analysis::TxAnalysisResult;
use crate::network::{
    announces, law_list_is_exact, law_list_length, lists_exactly, peer_entries, sessions_after,
    PeerEvent,
};
use crate::text::at_most;
use crate::transaction::{TransactionSigned, TxType};
use crate::types::{PeerInfo, UiUpdate};
use crate::ui::{count_of, new_txs, AppModel, AppState, KeyCode, MAX_RECENT_TXS};
use std::collections::VecDeque;
use std::time::Instant;
use vstd::prelude::*;

verus! {

/// The state once `key` was pressed `n` times.
pub open spec fn after_presses(state: AppModel, key: KeyCode, n: nat) -> AppModel
    decreases n,
{
    if n == 0 {
        state
    } else {
        after_presses(state, key, (n - 1) as nat).after_key(key)
    }
}

/// What holds of a fresh state, and is kept by every round, holds at any time.
pub proof fn law_every_state_is_well_formed(
    state: AppModel,
    key: Option<KeyCode>,
    updates: Seq<UiUpdate>,
    now: Instant,
)
    ensures
        AppModel::initial(now).wf(),
        state.wf() ==> state.after_step(key, updates, now).wf(),
    decreases updates.len(),
{
    if updates.len() > 0 {
        law_every_state_is_well_formed(state, key, updates.drop_last(), now);
    }
}

/// The arrow up undoes the arrow down, and the other way round.
pub proof fn law_arrows_undo_each_other(state: AppModel)
    requires
        state.wf(),
    ensures
        state.after_key(KeyCode::Down).after_key(KeyCode::Up) == state,
        state.after_key(KeyCode::Up).after_key(KeyCode::Down) == state,
{
}

/// Pressing an arrow as often as there are rows leads back to the row where it began.
pub proof fn law_arrows_go_round(state: AppModel)
    requires
        state.wf(),
    ensures
        after_presses(state, KeyCode::Down, state.recent_txs.len()) == state,
        after_presses(state, KeyCode::Up, state.recent_txs.len()) == state,
{
    if state.recent_txs.len() > 0 {
        lemma_down_presses(state, state.recent_txs.len());
        lemma_up_presses(state, state.recent_txs.len());
    }
}

proof fn lemma_down_presses(state: AppModel, n: nat)
    requires
        state.wf(),
        state.recent_txs.len() > 0,
        n <= state.recent_txs.len(),
    ensures
        after_presses(state, KeyCode::Down, n) == (AppModel {
            selected: Some(
                (state.selected->0 + n - (if state.selected->0 + n >= state.recent_txs.len() {
                    state.recent_txs.len() as int
                } else {
                    0
                })) as nat,
            ),
            ..state
        }),
    decreases n,
{
    if n > 0 {
        lemma_down_presses(state, (n - 1) as nat);
    }
}

proof fn lemma_up_presses(state: AppModel, n: nat)
    requires
        state.wf(),
        state.recent_txs.len() > 0,
        n <= state.recent_txs.len(),
    ensures
        after_presses(state, KeyCode::Up, n) == (AppModel {
            selected: Some(
                (state.selected->0 - n + (if state.selected->0 < n {
                    state.recent_txs.len() as int
                } else {
                    0
                })) as nat,
            ),
            ..state
        }),
    decreases n,
{
    if n > 0 {
        lemma_up_presses(state, (n - 1) as nat);
    }
}

/// A key changes nothing but the selection and whether the user interface is to end.
pub proof fn law_keys_leave_the_data_alone(state: AppModel, key: KeyCode)
    ensures
        state.after_key(key) == (AppModel {
            selected: state.after_key(key).selected,
            should_quit: state.after_key(key).should_quit,
            ..state
        }),
        state.after_key(key).should_quit == (state.should_quit || key == KeyCode::Char('q')),
{
}

/// The table shows the latest transactions, the newest first, up to its limit.
pub proof fn law_table_shows_the_latest(state: AppModel, updates: Seq<UiUpdate>, now: Instant)
    requires
        state.recent_txs.len() <= MAX_RECENT_TXS,
    ensures
        state.after_updates(updates, now).recent_txs == at_most(
            new_txs(updates).reverse() + state.recent_txs,
            MAX_RECENT_TXS as nat,
        ),
    decreases updates.len(),
{
    if updates.len() > 0 {
        law_table_shows_the_latest(state, updates.drop_last(), now);
        let before = new_txs(updates.drop_last());
        if let UiUpdate::NewTx(tx) = updates.last() {
            let all = seq![*tx] + (before.reverse() + state.recent_txs);
            assert(before.push(*tx).reverse() + state.recent_txs =~= all);
            assert(at_most(
                seq![*tx] + at_most(
                    before.reverse() + state.recent_txs,
                    MAX_RECENT_TXS as nat,
                ),
                MAX_RECENT_TXS as nat,
            ) =~= at_most(all, MAX_RECENT_TXS as nat));
        }
    } else {
        assert(new_txs(updates).reverse() + state.recent_txs =~= state.recent_txs);
    }
}

/// Each transaction is counted once in the total, and once under its kind.
pub proof fn law_counters_count(
    state: AppModel,
    updates: Seq<UiUpdate>,
    now: Instant,
    tx_type: TxType,
)
    ensures
        state.after_updates(updates, now).total == state.total + new_txs(updates).len(),
        state.after_updates(updates, now).count(tx_type) == state.count(tx_type) + count_of(
            new_txs(updates),
            tx_type,
        ),
    decreases updates.len(),
{
    if updates.len() > 0 {
        law_counters_count(state, updates.drop_last(), now, tx_type);
        if let UiUpdate::NewTx(tx) = updates.last() {
            let before = new_txs(updates.drop_last());
            assert(before.push(*tx).drop_last() =~= before);
        }
    }
}

/// Messages never move the selection: they only select the first row when the first transaction
/// comes.
pub proof fn law_messages_keep_the_selection(state: AppModel, updates: Seq<UiUpdate>, now: Instant)
    ensures
        state.after_updates(updates, now).selected == (if state.selected is None && new_txs(
            updates,
        ).len() > 0 {
            Some(0nat)
        } else {
            state.selected
        }),
    decreases updates.len(),
{
    if updates.len() > 0 {
        law_messages_keep_the_selection(state, updates.drop_last(), now);
    }
}

/// The user interface ends exactly when `q` was pressed or a shutdown was asked for, now or
/// before: nothing takes that back.
pub proof fn law_when_the_interface_ends(
    state: AppModel,
    key: Option<KeyCode>,
    updates: Seq<UiUpdate>,
    now: Instant,
)
    ensures
        state.after_step(key, updates, now).should_quit <==> {
            ||| state.should_quit
            ||| key == Some(KeyCode::Char('q'))
            ||| exists|i: int| 0 <= i < updates.len() && #[trigger] updates[i] is Shutdown
        },
    decreases updates.len(),
{
    if updates.len() > 0 {
        let before = updates.drop_last();
        law_when_the_interface_ends(state, key, before, now);
        assert forall|i: int| 0 <= i < before.len() implies #[trigger] before[i] == updates[i] by {}
        if updates.last() is Shutdown {
            assert(updates[updates.len() - 1] is Shutdown);
        }
        if exists|i: int| 0 <= i < before.len() && #[trigger] before[i] is Shutdown {
            let i = choose|i: int| 0 <= i < before.len() && #[trigger] before[i] is Shutdown;
            assert(updates[i] is Shutdown);
        }
        if exists|i: int| 0 <= i < updates.len() && #[trigger] updates[i] is Shutdown {
            let i = choose|i: int| 0 <= i < updates.len() && #[trigger] updates[i] is Shutdown;
            if i < before.len() {
                assert(before[i] is Shutdown);
            }
        }
    }
}

/// The peers that are shown are those of the latest list that came, if one came.
pub proof fn law_latest_peer_list_is_shown(
    state: AppModel,
    updates: Seq<UiUpdate>,
    now: Instant,
    latest: int,
)
    requires
        -1 <= latest < updates.len(),
        latest >= 0 ==> updates[latest] is PeerUpdate,
        forall|i: int| latest < i < updates.len() ==> !(#[trigger] updates[i] is PeerUpdate),
    ensures
        state.after_updates(updates, now).peers == (if latest >= 0 {
            updates[latest]->PeerUpdate_0.connected_peers@
        } else {
            state.peers
        }),
    decreases updates.len(),
{
    if updates.len() > 0 {
        if latest < updates.len() - 1 {
            let before = updates.drop_last();
            assert(!(updates[updates.len() - 1] is PeerUpdate));
            assert forall|i: int| latest < i < before.len() implies !(#[trigger] before[
                i
            ] is PeerUpdate) by {
                assert(!(updates[i] is PeerUpdate));
            }
            law_latest_peer_list_is_shown(state, before, now, latest);
        }
    }
}

/// The message that an event calls for makes the user interface show each peer that is connected
/// after the event, once and with the version of its client, and nothing else.
pub proof fn law_connected_peers_are_shown(
    state: AppModel,
    sessions: Map<Seq<u8>, Seq<char>>,
    event: PeerEvent,
    update: UiUpdate,
    now: Instant,
)
    requires
        announces(Some(update), event, sessions_after(sessions, event)),
    ensures
        lists_exactly(
            peer_entries(state.after_update(update, now).peers),
            sessions_after(sessions, event),
        ),
{
}

/// The message that tells of a transaction puts it on top of the table. The rows that were there
/// move down by one, and the last one leaves a full table.
pub proof fn law_new_transaction_tops_the_table(
    state: AppModel,
    tx: TransactionSigned,
    update: UiUpdate,
    now: Instant,
)
    requires
        state.wf(),
        update matches UiUpdate::NewTx(shown) && shown.describes(tx),
    ensures
        ({
            let rows = state.after_update(update, now).recent_txs;
            &&& rows.len() == (if state.recent_txs.len() < MAX_RECENT_TXS {
                state.recent_txs.len() + 1
            } else {
                MAX_RECENT_TXS as nat
            })
            &&& rows[0].describes(tx)
            &&& forall|i: int|
                0 < i < rows.len() ==> #[trigger] rows[i] == state.recent_txs[i - 1]
        }),
{
}

/// A state is well-formed exactly if the table holds as many rows as transactions were seen, up to
/// fifty, each transaction was counted under one kind, and the selected row is one of the table.
pub proof fn law_what_is_well_formed(state: AppModel)
    ensures
        state.wf() <==> {
            &&& state.recent_txs.len() <= 50
            &&& state.recent_txs.len() <= state.total
            &&& state.recent_txs.len() == 50 || state.recent_txs.len() == state.total
            &&& state.total == state.count(TxType::Legacy) + state.count(TxType::Eip2930)
                + state.count(TxType::Eip1559) + state.count(TxType::Eip4844) + state.count(
                TxType::Eip7702,
            )
            &&& (state.selected is None <==> state.recent_txs.len() == 0)
            &&& (state.selected matches Some(i) ==> i < state.recent_txs.len())
        },
{
}

/// A fresh state shows nothing, has seen nothing, and goes on.
pub proof fn law_fresh_state_is_empty(now: Instant, state: AppState, tx_type: TxType)
    requires
        call_ensures(AppState::new, (now,), state),
    ensures
        state@.peers.len() == 0,
        state@.recent_txs.len() == 0,
        state@.selected is None,
        state@.total == 0,
        state@.count(tx_type) == 0,
        state@.last_update == now,
        !state@.should_quit,
        state@ == AppModel::initial(now),
{
}

/// Each kind has a counter of its own.
pub proof fn law_each_kind_has_its_counter(state: AppModel, other: AppModel)
    ensures
        (forall|tx_type: TxType| #[trigger] state.count(tx_type) == other.count(tx_type)) <==> {
            &&& state.legacy == other.legacy
            &&& state.eip2930 == other.eip2930
            &&& state.eip1559 == other.eip1559
            &&& state.eip4844 == other.eip4844
            &&& state.eip7702 == other.eip7702
        },
        state.count(TxType::Legacy) == state.legacy,
        state.count(TxType::Eip2930) == state.eip2930,
        state.count(TxType::Eip1559) == state.eip1559,
        state.count(TxType::Eip4844) == state.eip4844,
        state.count(TxType::Eip7702) == state.eip7702,
{
    if forall|tx_type: TxType| #[trigger] state.count(tx_type) == other.count(tx_type) {
        assert(state.count(TxType::Legacy) == other.count(TxType::Legacy));
        assert(state.count(TxType::Eip2930) == other.count(TxType::Eip2930));
        assert(state.count(TxType::Eip1559) == other.count(TxType::Eip1559));
        assert(state.count(TxType::Eip4844) == other.count(TxType::Eip4844));
        assert(state.count(TxType::Eip7702) == other.count(TxType::Eip7702));
    }
}

/// An arrow moves the selection by one row, and round at the ends of the table. It does nothing
/// where the table is empty.
pub proof fn law_arrows_move_by_one(state: AppModel)
    requires
        state.wf(),
    ensures
        state.recent_txs.len() == 0 ==> state.after_key(KeyCode::Down) == state && state.after_key(
            KeyCode::Up,
        ) == state,
        state.recent_txs.len() > 0 ==> {
            let rows = state.recent_txs.len() as int;
            let row = state.selected->0 as int;
            &&& state.after_key(KeyCode::Down).selected == Some(((row + 1) % rows) as nat)
            &&& state.after_key(KeyCode::Up).selected == Some(((row + rows - 1) % rows) as nat)
        },
{
    if state.recent_txs.len() > 0 {
        let rows = state.recent_txs.len() as int;
        let row = state.selected->0 as int;
        if row + 1 < rows {
            vstd::arithmetic::div_mod::lemma_small_mod((row + 1) as nat, rows as nat);
        } else {
            vstd::arithmetic::div_mod::lemma_mod_self_0(rows);
        }
        if row == 0 {
            vstd::arithmetic::div_mod::lemma_small_mod((rows - 1) as nat, rows as nat);
        } else {
            vstd::arithmetic::div_mod::lemma_mod_add_multiples_vanish(row - 1, rows);
            vstd::arithmetic::div_mod::lemma_small_mod((row - 1) as nat, rows as nat);
            assert(row + rows - 1 == rows + (row - 1));
        }
    }
}

/// Where rows stand in the table and none is selected, an arrow selects the one at the end where
/// the arrow begins: the first one going down, the last one going up.
pub proof fn law_arrows_begin_at_the_ends(state: AppModel)
    requires
        state.selected is None,
        state.recent_txs.len() > 0,
    ensures
        state.after_key(KeyCode::Down).selected == Some(0nat),
        state.after_key(KeyCode::Up).selected == Some((state.recent_txs.len() - 1) as nat),
{
}

/// Only the arrows and `q` do anything.
pub proof fn law_other_keys_do_nothing(state: AppModel, key: KeyCode)
    requires
        key != KeyCode::Down,
        key != KeyCode::Up,
        key != KeyCode::Char('q'),
    ensures
        state.after_key(key) == state,
{
}

/// A round is the key, if one was pressed, and then each message: nothing happens without a key
/// and messages, and messages may come in one round or in two.
pub proof fn law_a_round_is_its_parts(
    state: AppModel,
    key: Option<KeyCode>,
    first: Seq<UiUpdate>,
    second: Seq<UiUpdate>,
    now: Instant,
)
    ensures
        state.after_step(None, Seq::empty(), now) == state,
        key matches Some(k) ==> state.after_step(key, Seq::empty(), now) == state.after_key(k),
        state.after_step(key, first + second, now) == state.after_step(
            key,
            first,
            now,
        ).after_step(None, second, now),
    decreases second.len(),
{
    if second.len() > 0 {
        law_a_round_is_its_parts(state, key, first, second.drop_last(), now);
        assert((first + second).drop_last() =~= first + second.drop_last());
        assert((first + second).last() == second.last());
    } else {
        assert(first + second =~= first);
    }
}

/// A round with a single message and no key does what the message asks for.
pub proof fn law_one_message_makes_a_round(state: AppModel, update: UiUpdate, now: Instant)
    ensures
        state.after_step(None, seq![update], now) == state.after_update(update, now),
{
    reveal_with_fuel(AppModel::after_updates, 2);
    assert(seq![update].drop_last() =~= Seq::<UiUpdate>::empty());
}

/// The transactions that messages tell of are those of each message that tells of one, whatever
/// the transaction, in their order.
pub proof fn law_messages_tell_of_transactions(
    first: Seq<UiUpdate>,
    second: Seq<UiUpdate>,
    update: UiUpdate,
)
    ensures
        new_txs(Seq::empty()).len() == 0,
        update matches UiUpdate::NewTx(tx) ==> new_txs(seq![update]) == seq![*tx],
        !(update is NewTx) ==> new_txs(seq![update]).len() == 0,
        new_txs(first + second) == new_txs(first) + new_txs(second),
    decreases second.len(),
{
    reveal_with_fuel(new_txs, 2);
    assert(seq![update].drop_last() =~= Seq::<UiUpdate>::empty());
    if let UiUpdate::NewTx(tx) = update {
        assert(new_txs(seq![update]) =~= seq![*tx]);
    }
    if second.len() > 0 {
        law_messages_tell_of_transactions(first, second.drop_last(), update);
        assert((first + second).drop_last() =~= first + second.drop_last());
        assert((first + second).last() == second.last());
        assert(new_txs(first + second) =~= new_txs(first) + new_txs(second));
    } else {
        assert(first + second =~= first);
        assert(new_txs(first + second) =~= new_txs(first) + new_txs(second));
    }
}

/// Counting by kind counts each transaction once: the counts of two lists add up, those of all
/// kinds make the length, and a single transaction counts for its own kind only.
pub proof fn law_counts_add_up(
    first: Seq<TxAnalysisResult>,
    second: Seq<TxAnalysisResult>,
    tx: TxAnalysisResult,
    tx_type: TxType,
)
    ensures
        count_of(seq![tx], tx_type) == (if tx.tx_type == tx_type {
            1nat
        } else {
            0
        }),
        count_of(first + second, tx_type) == count_of(first, tx_type) + count_of(second, tx_type),
        second.len() == count_of(second, TxType::Legacy) + count_of(second, TxType::Eip2930)
            + count_of(second, TxType::Eip1559) + count_of(second, TxType::Eip4844) + count_of(
            second,
            TxType::Eip7702,
        ),
    decreases second.len(),
{
    reveal_with_fuel(count_of, 2);
    assert(seq![tx].drop_last() =~= Seq::<TxAnalysisResult>::empty());
    if second.len() > 0 {
        law_counts_add_up(first, second.drop_last(), tx, tx_type);
        assert((first + second).drop_last() =~= first + second.drop_last());
        assert((first + second).last() == second.last());
    } else {
        assert(first + second =~= first);
    }
}

/// A transaction that comes, whatever it is, is one more in the total and one more of its kind,
/// and the counts of the other kinds stay. The peers stay, and so does whether the interface ends.
pub proof fn law_one_transaction_counts_once(
    state: AppModel,
    tx: Box<TxAnalysisResult>,
    now: Instant,
    tx_type: TxType,
)
    ensures
        ({
            let after = state.after_update(UiUpdate::NewTx(tx), now);
            &&& after.total == state.total + 1
            &&& after.count(tx.tx_type) == state.count(tx.tx_type) + 1
            &&& tx_type != tx.tx_type ==> after.count(tx_type) == state.count(tx_type)
            &&& after.recent_txs.len() > 0 && after.recent_txs[0] == *tx
            &&& after.peers == state.peers
            &&& after.should_quit == state.should_quit
            &&& after.last_update == now
        }),
{
}

/// A list of peers that comes is shown as it is, an empty one too, and a shutdown ends the
/// interface. Neither touches the transactions.
pub proof fn law_other_messages_leave_the_transactions(
    state: AppModel,
    update: UiUpdate,
    now: Instant,
    tx_type: TxType,
)
    requires
        !(update is NewTx),
    ensures
        ({
            let after = state.after_update(update, now);
            &&& update matches UiUpdate::PeerUpdate(data) ==> after.peers
                == data.connected_peers@ && after.should_quit == state.should_quit
            &&& update is Shutdown ==> after.peers == state.peers && after.should_quit
            &&& after.recent_txs == state.recent_txs
            &&& after.selected == state.selected
            &&& after.total == state.total
            &&& after.count(tx_type) == state.count(tx_type)
            &&& after.last_update == now
        }),
{
}

/// The time on the state is that of the latest message; where none came, it stays, whatever key
/// was pressed.
pub proof fn law_time_of_the_latest_message(
    state: AppModel,
    key: Option<KeyCode>,
    updates: Seq<UiUpdate>,
    now: Instant,
)
    ensures
        state.after_step(key, updates, now).last_update == (if updates.len() > 0 {
            now
        } else {
            state.last_update
        }),
{
}

/// Where the peers that are shown were exactly the connected ones before an event, they are after
/// it, once the message that the event calls for was received, if it calls for one.
pub proof fn law_shown_peers_stay_current(
    before: AppModel,
    sessions: Map<Seq<u8>, Seq<char>>,
    event: PeerEvent,
    update: Option<UiUpdate>,
    now: Instant,
    after: AppModel,
)
    requires
        lists_exactly(peer_entries(before.peers), sessions),
        announces(update, event, sessions_after(sessions, event)),
        update matches Some(message) ==> after == before.after_update(message, now),
        update is None ==> after == before,
    ensures
        after.peers.len() == sessions_after(sessions, event).dom().len(),
        forall|i: int|
            0 <= i < after.peers.len() ==> sessions_after(sessions, event).contains_key(
                (#[trigger] after.peers[i]).id@,
            ) && sessions_after(sessions, event)[after.peers[i].id@]
                == after.peers[i].client_version@,
        forall|id: Seq<u8>| #[trigger]
            sessions_after(sessions, event).contains_key(id) ==> exists|i: int|
                0 <= i < after.peers.len() && (#[trigger] after.peers[i]).id@ == id,
{
    law_list_is_exact(after.peers, sessions_after(sessions, event));
    law_list_length(after.peers, sessions_after(sessions, event));
}

/// What can be asked of a state is what it holds: the row that is selected, and the counts.
pub proof fn law_state_tells_what_it_holds(
    state: &AppState,
    selected: Option<usize>,
    total: u64,
    tx_type: TxType,
    count: u64,
    quit: bool,
    last_update: Instant,
)
    requires
        call_ensures(AppState::selected, (state,), selected),
        call_ensures(AppState::total_txs_seen, (state,), total),
        call_ensures(AppState::tx_count, (state, tx_type), count),
        call_ensures(AppState::should_quit, (state,), quit),
        call_ensures(AppState::last_update, (state,), last_update),
    ensures
        selected is Some <==> state@.selected is Some,
        selected matches Some(i) ==> state@.selected == Some(i as nat),
        total == state@.total,
        count == state@.count(tx_type),
        quit == state@.should_quit,
        last_update == state@.last_update,
{
}

/// After a round, the counts have grown by the transactions that the messages told of, in total
/// and by kind, the table shows the latest fifty, and the interface ends exactly if it was to end
/// or `q` or a shutdown asked for it.
pub proof fn law_rounds_take_everything_in(
    key: Option<KeyCode>,
    updates: Vec<UiUpdate>,
    now: Instant,
    quit: bool,
    tx_type: TxType,
)
    ensures
        forall|state: &mut AppState|
            (*state)@.wf() && #[trigger] call_ensures(AppState::step_at, (state, key, updates, now), quit) ==> {
                &&& final(state)@.wf()
                &&& final(state)@.total == (*state)@.total + new_txs(updates@).len()
                &&& final(state)@.count(tx_type) == (*state)@.count(tx_type) + count_of(
                    new_txs(updates@),
                    tx_type,
                )
                &&& final(state)@.recent_txs == at_most(
                    new_txs(updates@).reverse() + (*state)@.recent_txs,
                    50,
                )
                &&& quit <==> {
                    ||| (*state)@.should_quit
                    ||| key == Some(KeyCode::Char('q'))
                    ||| exists|i: int|
                        0 <= i < updates@.len() && #[trigger] updates@[i] is Shutdown
                }
                &&& quit == final(state)@.should_quit
                &&& updates@.len() == 0 ==> final(state)@.last_update == (*state)@.last_update
                &&& updates@.len() > 0 ==> final(state)@.last_update == now
                &&& (forall|i: int| 0 <= i < updates@.len() ==> !(#[trigger] updates@[i] is PeerUpdate))
                    ==> final(state)@.peers == (*state)@.peers
            },
{
    assert forall|state: &mut AppState|
        (*state)@.wf() && #[trigger] call_ensures(AppState::step_at, (state, key, updates, now), quit) implies {
                &&& final(state)@.wf()
                &&& final(state)@.total == (*state)@.total + new_txs(updates@).len()
                &&& final(state)@.count(tx_type) == (*state)@.count(tx_type) + count_of(
                    new_txs(updates@),
                    tx_type,
                )
                &&& final(state)@.recent_txs == at_most(
                    new_txs(updates@).reverse() + (*state)@.recent_txs,
                    50,
                )
                &&& quit <==> {
                    ||| (*state)@.should_quit
                    ||| key == Some(KeyCode::Char('q'))
                    ||| exists|i: int|
                        0 <= i < updates@.len() && #[trigger] updates@[i] is Shutdown
                }
                &&& quit == final(state)@.should_quit
                &&& updates@.len() == 0 ==> final(state)@.last_update == (*state)@.last_update
                &&& updates@.len() > 0 ==> final(state)@.last_update == now
                &&& (forall|i: int| 0 <= i < updates@.len() ==> !(#[trigger] updates@[i] is PeerUpdate))
                    ==> final(state)@.peers == (*state)@.peers
            } by {
        let time = now;
        let before = (*state)@;
        let keyed = match key {
            Some(k) => before.after_key(k),
            None => before,
        };
        if let Some(k) = key {
            law_keys_leave_the_data_alone(before, k);
        }
        assert(final(state)@ == keyed.after_updates(updates@, time));
        assert(keyed.recent_txs == before.recent_txs);
        law_counters_count(keyed, updates@, time, tx_type);
        law_table_shows_the_latest(keyed, updates@, time);
        law_when_the_interface_ends(before, key, updates@, time);
        if forall|i: int| 0 <= i < updates@.len() ==> !(#[trigger] updates@[i] is PeerUpdate) {
            law_latest_peer_list_is_shown(keyed, updates@, time, -1);
        }
    }
}

/// The same holds of a round at the present time, whatever the clock says.
pub proof fn law_present_rounds_take_everything_in(
    key: Option<KeyCode>,
    updates: Vec<UiUpdate>,
    quit: bool,
    tx_type: TxType,
)
    ensures
        forall|state: &mut AppState|
            (*state)@.wf() && #[trigger] call_ensures(AppState::step, (state, key, updates), quit) ==> {
                &&& final(state)@.wf()
                &&& final(state)@.total == (*state)@.total + new_txs(updates@).len()
                &&& final(state)@.count(tx_type) == (*state)@.count(tx_type) + count_of(
                    new_txs(updates@),
                    tx_type,
                )
                &&& final(state)@.recent_txs == at_most(
                    new_txs(updates@).reverse() + (*state)@.recent_txs,
                    50,
                )
                &&& quit <==> {
                    ||| (*state)@.should_quit
                    ||| key == Some(KeyCode::Char('q'))
                    ||| exists|i: int|
                        0 <= i < updates@.len() && #[trigger] updates@[i] is Shutdown
                }
                &&& quit == final(state)@.should_quit
                &&& updates@.len() == 0 ==> final(state)@.last_update == (*state)@.last_update
                &&& (forall|i: int| 0 <= i < updates@.len() ==> !(#[trigger] updates@[i] is PeerUpdate))
                    ==> final(state)@.peers == (*state)@.peers
            },
{
    assert forall|state: &mut AppState|
        (*state)@.wf() && #[trigger] call_ensures(AppState::step, (state, key, updates), quit) implies {
                &&& final(state)@.wf()
                &&& final(state)@.total == (*state)@.total + new_txs(updates@).len()
                &&& final(state)@.count(tx_type) == (*state)@.count(tx_type) + count_of(
                    new_txs(updates@),
                    tx_type,
                )
                &&& final(state)@.recent_txs == at_most(
                    new_txs(updates@).reverse() + (*state)@.recent_txs,
                    50,
                )
                &&& quit <==> {
                    ||| (*state)@.should_quit
                    ||| key == Some(KeyCode::Char('q'))
                    ||| exists|i: int|
                        0 <= i < updates@.len() && #[trigger] updates@[i] is Shutdown
                }
                &&& quit == final(state)@.should_quit
                &&& updates@.len() == 0 ==> final(state)@.last_update == (*state)@.last_update
                &&& (forall|i: int| 0 <= i < updates@.len() ==> !(#[trigger] updates@[i] is PeerUpdate))
                    ==> final(state)@.peers == (*state)@.peers
            } by {
        let time = final(state)@.last_update;
        let before = (*state)@;
        let keyed = match key {
            Some(k) => before.after_key(k),
            None => before,
        };
        if let Some(k) = key {
            law_keys_leave_the_data_alone(before, k);
        }
        assert(final(state)@ == keyed.after_updates(updates@, time));
        assert(keyed.recent_txs == before.recent_txs);
        law_counters_count(keyed, updates@, time, tx_type);
        law_table_shows_the_latest(keyed, updates@, time);
        law_when_the_interface_ends(before, key, updates@, time);
        if forall|i: int| 0 <= i < updates@.len() ==> !(#[trigger] updates@[i] is PeerUpdate) {
            law_latest_peer_list_is_shown(keyed, updates@, time, -1);
        }
    }
}

/// A key moves the selection by a row, or ends the interface, or does nothing, and it leaves all
/// else as it was.
pub proof fn law_pressed_keys_are_obeyed(key: KeyCode)
    ensures
        forall|state: &mut AppState|
            (*state)@.wf() && #[trigger] call_ensures(AppState::handle_key, (state, key), ()) ==> {
                let rows = (*state)@.recent_txs.len() as int;
                let row = (*state)@.selected->0 as int;
                &&& final(state)@.wf()
                &&& key == KeyCode::Down && rows > 0 ==> final(state)@.selected == Some(
                    ((row + 1) % rows) as nat,
                )
                &&& key == KeyCode::Up && rows > 0 ==> final(state)@.selected == Some(
                    ((row + rows - 1) % rows) as nat,
                )
                &&& rows == 0 || (key != KeyCode::Down && key != KeyCode::Up)
                    ==> final(state)@.selected == (*state)@.selected
                &&& final(state)@.should_quit == ((*state)@.should_quit || key == KeyCode::Char(
                    'q',
                ))
                &&& final(state)@ == (AppModel {
                    selected: final(state)@.selected,
                    should_quit: final(state)@.should_quit,
                    ..(*state)@
                })
            },
{
    assert forall|state: &mut AppState|
        (*state)@.wf() && #[trigger] call_ensures(AppState::handle_key, (state, key), ()) implies {
        let rows = (*state)@.recent_txs.len() as int;
        let row = (*state)@.selected->0 as int;
        &&& final(state)@.wf()
        &&& key == KeyCode::Down && rows > 0 ==> final(state)@.selected == Some(
            ((row + 1) % rows) as nat,
        )
        &&& key == KeyCode::Up && rows > 0 ==> final(state)@.selected == Some(
            ((row + rows - 1) % rows) as nat,
        )
        &&& rows == 0 || (key != KeyCode::Down && key != KeyCode::Up) ==> final(state)@.selected
            == (*state)@.selected
        &&& final(state)@.should_quit == ((*state)@.should_quit || key == KeyCode::Char('q'))
        &&& final(state)@ == (AppModel {
            selected: final(state)@.selected,
            should_quit: final(state)@.should_quit,
            ..(*state)@
        })
    } by {
        law_arrows_move_by_one((*state)@);
        law_keys_leave_the_data_alone((*state)@, key);
    }
}

/// A message does what it asks for: a transaction is counted once and tops the table, a list of
/// peers is shown as it is, and a shutdown ends the interface.
pub proof fn law_received_messages_are_obeyed(update: UiUpdate, now: Instant)
    ensures
        forall|state: &mut AppState|
            (*state)@.wf() && #[trigger] call_ensures(
                AppState::apply_update,
                (state, update, now),
                (),
            ) ==> {
                &&& final(state)@.wf()
                &&& final(state)@.last_update == now
                &&& update matches UiUpdate::NewTx(tx) ==> {
                    &&& final(state)@.total == (*state)@.total + 1
                    &&& final(state)@.count(tx.tx_type) == (*state)@.count(tx.tx_type) + 1
                    &&& final(state)@.recent_txs[0] == *tx
                    &&& final(state)@.peers == (*state)@.peers
                    &&& final(state)@.should_quit == (*state)@.should_quit
                }
                &&& update matches UiUpdate::PeerUpdate(data) ==> {
                    &&& final(state)@.peers == data.connected_peers@
                    &&& final(state)@.recent_txs == (*state)@.recent_txs
                    &&& final(state)@.should_quit == (*state)@.should_quit
                }
                &&& update is Shutdown ==> {
                    &&& final(state)@.should_quit
                    &&& final(state)@.peers == (*state)@.peers
                    &&& final(state)@.recent_txs == (*state)@.recent_txs
                }
            },
{
}

/// The peers and the rows that a state hands out are all that it holds, each in its place.
pub proof fn law_state_hands_out_its_lists(
    state: &AppState,
    peers: &Vec<PeerInfo>,
    rows: &VecDeque<TxAnalysisResult>,
)
    requires
        call_ensures(AppState::peers, (state,), peers),
        call_ensures(AppState::recent_txs, (state,), rows),
    ensures
        peers@ == state@.peers,
        rows@ == state@.recent_txs,
{
}

} // verus!
