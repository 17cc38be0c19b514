//! The state of the user interface, and how keys and messages change it.

use crate::analysis::TxAnalysisResult;
use crate::text::at_most;
use crate::transaction::TxType;
use crate::types::{instant_now, PeerInfo, UiUpdate};
use std::collections::VecDeque;
use std::time::Instant;
use vstd::prelude::*;

verus! {

/// How many transactions the table keeps.
pub const MAX_RECENT_TXS: usize = 50;

/// A key that was pressed.
#[derive(Clone, Copy, Debug, PartialEq, Eq)]
pub enum KeyCode {
    Char(char),
    Down,
    Up,
    Other,
}

/// What the user interface shows, and whether it is to end.
#[derive(Debug)]
pub struct AppState {
    peers: Vec<PeerInfo>,
    recent_txs: VecDeque<TxAnalysisResult>,
    selected: Option<usize>,
    total_txs_seen: u64,
    legacy_tx_count: u64,
    eip1559_tx_count: u64,
    eip2930_tx_count: u64,
    eip4844_tx_count: u64,
    eip7702_tx_count: u64,
    last_update: Instant,
    should_quit: bool,
}

/// What an [`AppState`] holds.
pub ghost struct AppModel {
    pub peers: Seq<PeerInfo>,
    /// The latest transactions, the newest first.
    pub recent_txs: Seq<TxAnalysisResult>,
    /// The row of the table that is selected.
    pub selected: Option<nat>,
    pub total: nat,
    pub legacy: nat,
    pub eip1559: nat,
    pub eip2930: nat,
    pub eip4844: nat,
    pub eip7702: nat,
    pub last_update: Instant,
    pub should_quit: bool,
}

impl AppModel {
    /// What a fresh state holds.
    pub open spec fn initial(now: Instant) -> AppModel {
        AppModel {
            peers: Seq::empty(),
            recent_txs: Seq::empty(),
            selected: None,
            total: 0,
            legacy: 0,
            eip1559: 0,
            eip2930: 0,
            eip4844: 0,
            eip7702: 0,
            last_update: now,
            should_quit: false,
        }
    }

    /// What holds at any time: the table has the latest transactions up to its limit, each
    /// transaction was counted under one kind, and a row is selected as soon as there is one.
    pub open spec fn wf(self) -> bool {
        &&& self.recent_txs.len() == (if self.total < MAX_RECENT_TXS {
            self.total
        } else {
            MAX_RECENT_TXS as nat
        })
        &&& self.total == self.legacy + self.eip1559 + self.eip2930 + self.eip4844 + self.eip7702
        &&& match self.selected {
            Some(i) => i < self.recent_txs.len(),
            None => self.recent_txs.len() == 0,
        }
    }

    /// How many transactions of the kind were seen.
    pub open spec fn count(self, tx_type: TxType) -> nat {
        match tx_type {
            TxType::Legacy => self.legacy,
            TxType::Eip1559 => self.eip1559,
            TxType::Eip2930 => self.eip2930,
            TxType::Eip4844 => self.eip4844,
            TxType::Eip7702 => self.eip7702,
        }
    }

    /// The row below the selected one; behind the last one comes the first.
    pub open spec fn row_below(self) -> nat {
        match self.selected {
            Some(i) => if i + 1 >= self.recent_txs.len() {
                0
            } else {
                i + 1
            },
            None => 0,
        }
    }

    /// The row above the selected one; before the first one comes the last.
    pub open spec fn row_above(self) -> nat {
        match self.selected {
            Some(i) if i > 0 => (i - 1) as nat,
            _ => (self.recent_txs.len() - 1) as nat,
        }
    }

    /// The state once the key was pressed.
    pub open spec fn after_key(self, key: KeyCode) -> AppModel {
        match key {
            KeyCode::Char(c) if c == 'q' => AppModel { should_quit: true, ..self },
            KeyCode::Down if self.recent_txs.len() > 0 => AppModel {
                selected: Some(self.row_below()),
                ..self
            },
            KeyCode::Up if self.recent_txs.len() > 0 => AppModel {
                selected: Some(self.row_above()),
                ..self
            },
            _ => self,
        }
    }

    /// The state once the transaction was shown.
    pub open spec fn after_tx(self, tx: TxAnalysisResult) -> AppModel {
        AppModel {
            recent_txs: at_most(seq![tx] + self.recent_txs, MAX_RECENT_TXS as nat),
            selected: if self.selected is None {
                Some(0)
            } else {
                self.selected
            },
            total: self.total + 1,
            legacy: self.legacy + (if tx.tx_type == TxType::Legacy { 1nat } else { 0 }),
            eip1559: self.eip1559 + (if tx.tx_type == TxType::Eip1559 { 1nat } else { 0 }),
            eip2930: self.eip2930 + (if tx.tx_type == TxType::Eip2930 { 1nat } else { 0 }),
            eip4844: self.eip4844 + (if tx.tx_type == TxType::Eip4844 { 1nat } else { 0 }),
            eip7702: self.eip7702 + (if tx.tx_type == TxType::Eip7702 { 1nat } else { 0 }),
            ..self
        }
    }

    /// The state once the message was received at `now`.
    pub open spec fn after_update(self, update: UiUpdate, now: Instant) -> AppModel {
        let shown = match update {
            UiUpdate::PeerUpdate(data) => AppModel { peers: data.connected_peers@, ..self },
            UiUpdate::NewTx(tx) => self.after_tx(*tx),
            UiUpdate::Shutdown => AppModel { should_quit: true, ..self },
        };
        AppModel { last_update: now, ..shown }
    }

    /// The state once the messages were received, in their order, at `now`.
    pub open spec fn after_updates(self, updates: Seq<UiUpdate>, now: Instant) -> AppModel
        decreases updates.len(),
    {
        if updates.len() == 0 {
            self
        } else {
            self.after_updates(updates.drop_last(), now).after_update(updates.last(), now)
        }
    }

    /// The state after a round: first the key, if one was pressed, then all messages.
    pub open spec fn after_step(
        self,
        key: Option<KeyCode>,
        updates: Seq<UiUpdate>,
        now: Instant,
    ) -> AppModel {
        let keyed = match key {
            Some(k) => self.after_key(k),
            None => self,
        };
        keyed.after_updates(updates, now)
    }
}

/// The transactions that the messages tell of, in their order.
pub open spec fn new_txs(updates: Seq<UiUpdate>) -> Seq<TxAnalysisResult>
    decreases updates.len(),
{
    if updates.len() == 0 {
        Seq::empty()
    } else {
        let before = new_txs(updates.drop_last());
        match updates.last() {
            UiUpdate::NewTx(tx) => before.push(*tx),
            _ => before,
        }
    }
}

/// How many of the transactions are of the kind.
pub open spec fn count_of(txs: Seq<TxAnalysisResult>, tx_type: TxType) -> nat
    decreases txs.len(),
{
    if txs.len() == 0 {
        0
    } else {
        count_of(txs.drop_last(), tx_type) + (if txs.last().tx_type == tx_type {
            1nat
        } else {
            0
        })
    }
}

impl View for AppState {
    type V = AppModel;

    closed spec fn view(&self) -> AppModel {
        AppModel {
            peers: self.peers@,
            recent_txs: self.recent_txs@,
            selected: match self.selected {
                Some(i) => Some(i as nat),
                None => None,
            },
            total: self.total_txs_seen as nat,
            legacy: self.legacy_tx_count as nat,
            eip1559: self.eip1559_tx_count as nat,
            eip2930: self.eip2930_tx_count as nat,
            eip4844: self.eip4844_tx_count as nat,
            eip7702: self.eip7702_tx_count as nat,
            last_update: self.last_update,
            should_quit: self.should_quit,
        }
    }
}

impl AppState {
    /// A state that shows nothing yet, made at `now`.
    pub fn new(now: Instant) -> (r: AppState)
        ensures
            r@ == AppModel::initial(now),
            r@.wf(),
    {
        AppState {
            peers: Vec::new(),
            recent_txs: VecDeque::with_capacity(MAX_RECENT_TXS),
            selected: None,
            total_txs_seen: 0,
            legacy_tx_count: 0,
            eip1559_tx_count: 0,
            eip2930_tx_count: 0,
            eip4844_tx_count: 0,
            eip7702_tx_count: 0,
            last_update: now,
            should_quit: false,
        }
    }

    /// Changes the state as the key asks for: `q` ends the user interface, the arrows move the
    /// selection, and any other key does nothing.
    pub fn handle_key(&mut self, key: KeyCode)
        requires
            old(self)@.wf(),
        ensures
            final(self)@ == old(self)@.after_key(key),
            final(self)@.wf(),
    {
        match key {
            KeyCode::Char('q') => {
                self.should_quit = true;
            },
            KeyCode::Down => {
                let i: usize = match self.selected {
                    Some(i) => if i >= self.recent_txs.len().saturating_sub(1) {
                        0
                    } else {
                        i + 1
                    },
                    None => 0,
                };
                if self.recent_txs.len() > 0 {
                    self.selected = Some(i);
                }
            },
            KeyCode::Up => {
                let i: usize = match self.selected {
                    Some(i) => if i == 0 {
                        self.recent_txs.len().saturating_sub(1)
                    } else {
                        i - 1
                    },
                    None => self.recent_txs.len().saturating_sub(1),
                };
                if self.recent_txs.len() > 0 {
                    self.selected = Some(i);
                }
            },
            _ => {},
        }
    }

    /// Shows the transaction: counts it, puts it on top of the table, and selects its row where
    /// none was selected.
    fn show_tx(&mut self, tx: TxAnalysisResult)
        requires
            old(self)@.wf(),
            old(self)@.total < u64::MAX,
        ensures
            final(self)@ == old(self)@.after_tx(tx),
            final(self)@.wf(),
    {
        self.total_txs_seen = self.total_txs_seen + 1;
        match tx.tx_type {
            TxType::Legacy => self.legacy_tx_count = self.legacy_tx_count + 1,
            TxType::Eip1559 => self.eip1559_tx_count = self.eip1559_tx_count + 1,
            TxType::Eip2930 => self.eip2930_tx_count = self.eip2930_tx_count + 1,
            TxType::Eip4844 => self.eip4844_tx_count = self.eip4844_tx_count + 1,
            TxType::Eip7702 => self.eip7702_tx_count = self.eip7702_tx_count + 1,
        }
        self.recent_txs.push_front(tx);
        if self.recent_txs.len() > MAX_RECENT_TXS {
            let _ = self.recent_txs.pop_back();
        }
        if self.selected.is_none() && self.recent_txs.len() > 0 {
            self.selected = Some(0);
        }
        assert(self@.recent_txs =~= old(self)@.after_tx(tx).recent_txs);
    }

    /// Changes the state as the message, received at `now`, asks for.
    pub fn apply_update(&mut self, update: UiUpdate, now: Instant)
        requires
            old(self)@.wf(),
            update is NewTx ==> old(self)@.total < u64::MAX,
        ensures
            final(self)@ == old(self)@.after_update(update, now),
            final(self)@.wf(),
    {
        match update {
            UiUpdate::PeerUpdate(data) => {
                self.peers = data.connected_peers;
            },
            UiUpdate::NewTx(tx) => {
                self.show_tx(*tx);
            },
            UiUpdate::Shutdown => {
                self.should_quit = true;
            },
        }
        self.last_update = now;
    }

    /// Goes through a round of the user interface at `now`: first the key, if one was pressed,
    /// then all messages, in their order. Says whether the user interface is to end.
    pub fn step_at(
        &mut self,
        key: Option<KeyCode>,
        updates: Vec<UiUpdate>,
        now: Instant,
    ) -> (quit: bool)
        requires
            old(self)@.wf(),
            old(self)@.total + new_txs(updates@).len() <= u64::MAX,
        ensures
            final(self)@ == old(self)@.after_step(key, updates@, now),
            final(self)@.wf(),
            quit == final(self)@.should_quit,
    {
        if let Some(k) = key {
            self.handle_key(k);
        }
        let ghost keyed = self@;
        let ghost all = updates@;
        for update in iter: updates
            invariant
                updates@ == all,
                self@ == keyed.after_updates(all.take(iter.index()), now),
                self@.wf(),
                self@.total == keyed.total + new_txs(all.take(iter.index())).len(),
                keyed.total + new_txs(all).len() <= u64::MAX,
        {
            let ghost next = all.take(iter.index() + 1);
            proof {
                assert(next.drop_last() =~= all.take(iter.index()));
                assert(next.last() == update);
                lemma_new_txs_grow(all, iter.index() + 1);
            }
            self.apply_update(update, now);
        }
        assert(all.take(all.len() as int) =~= all);
        self.should_quit
    }

    /// Goes through a round of the user interface at the present time.
    pub fn step(&mut self, key: Option<KeyCode>, updates: Vec<UiUpdate>) -> (quit: bool)
        requires
            old(self)@.wf(),
            old(self)@.total + new_txs(updates@).len() <= u64::MAX,
        ensures
            final(self)@ == old(self)@.after_step(key, updates@, final(self)@.last_update),
            final(self)@.wf(),
            quit == final(self)@.should_quit,
    {
        let now: Instant = instant_now();
        let quit: bool = self.step_at(key, updates, now);
        proof {
            lemma_last_update(
                match key {
                    Some(k) => old(self)@.after_key(k),
                    None => old(self)@,
                },
                updates@,
                now,
            );
        }
        quit
    }
}

impl AppState {
    /// The connected peers.
    pub fn peers(&self) -> (r: &Vec<PeerInfo>)
        ensures
            r@ == self@.peers,
    {
        &self.peers
    }

    /// The latest transactions, the newest first.
    pub fn recent_txs(&self) -> (r: &VecDeque<TxAnalysisResult>)
        ensures
            r@ == self@.recent_txs,
    {
        &self.recent_txs
    }

    /// The row of the table that is selected.
    pub fn selected(&self) -> (r: Option<usize>)
        ensures
            self@.selected == (match r {
                Some(i) => Some(i as nat),
                None => None,
            }),
    {
        self.selected
    }

    /// How many transactions were seen.
    pub fn total_txs_seen(&self) -> (r: u64)
        ensures
            r == self@.total,
    {
        self.total_txs_seen
    }

    /// How many transactions of the kind were seen.
    pub fn tx_count(&self, tx_type: TxType) -> (r: u64)
        ensures
            r == self@.count(tx_type),
    {
        match tx_type {
            TxType::Legacy => self.legacy_tx_count,
            TxType::Eip1559 => self.eip1559_tx_count,
            TxType::Eip2930 => self.eip2930_tx_count,
            TxType::Eip4844 => self.eip4844_tx_count,
            TxType::Eip7702 => self.eip7702_tx_count,
        }
    }

    /// When the latest message was received, or the state was made.
    pub fn last_update(&self) -> (r: Instant)
        ensures
            r == self@.last_update,
    {
        self.last_update
    }

    /// Whether the user interface is to end.
    pub fn should_quit(&self) -> (r: bool)
        ensures
            r == self@.should_quit,
    {
        self.should_quit
    }
}

impl Default for AppState {
    fn default() -> (r: AppState)
        ensures
            r@ == AppModel::initial(r@.last_update),
            r@.wf(),
    {
        AppState::new(instant_now())
    }
}

/// A prefix of the messages tells of no more transactions than all of them.
proof fn lemma_new_txs_grow(updates: Seq<UiUpdate>, n: int)
    requires
        0 <= n <= updates.len(),
    ensures
        new_txs(updates.take(n)).len() <= new_txs(updates).len(),
    decreases updates.len(),
{
    if n < updates.len() {
        lemma_new_txs_grow(updates.drop_last(), n);
        assert(updates.drop_last().take(n) =~= updates.take(n));
    } else {
        assert(updates.take(n) =~= updates);
    }
}

/// The time on the state is that of the messages, if there were any.
proof fn lemma_last_update(state: AppModel, updates: Seq<UiUpdate>, now: Instant)
    ensures
        updates.len() > 0 ==> state.after_updates(updates, now).last_update == now,
{
}

} // verus!
