//! How the crawler answers what peers say of pending transactions.

use crate::network::EthP2PHandler;
use crate::primitives::{PeerId, B256};
use crate::transaction::{transaction_hash, Signature, Transaction, TransactionSigned};
use vstd::prelude::*;

verus! {

/// The hashes of transactions that a peer has, in either form of the announcement.
#[derive(Debug)]
pub enum NewPooledTransactionHashes {
    Eth66(Vec<B256>),
    Eth68 { types: Vec<u8>, sizes: Vec<usize>, hashes: Vec<B256> },
}

impl NewPooledTransactionHashes {
    /// The hashes that are announced.
    pub open spec fn spec_hashes(self) -> Vec<B256> {
        match self {
            NewPooledTransactionHashes::Eth66(hashes) => hashes,
            NewPooledTransactionHashes::Eth68 { hashes, .. } => hashes,
        }
    }

    /// The hashes that are announced.
    pub fn into_hashes(self) -> (r: Vec<B256>)
        ensures
            r == self.spec_hashes(),
    {
        match self {
            NewPooledTransactionHashes::Eth66(hashes) => hashes,
            NewPooledTransactionHashes::Eth68 { hashes, .. } => hashes,
        }
    }
}

/// A transaction as a peer hands it out of its pool, under the hash by which it was found there.
#[derive(Debug)]
pub struct PooledTransaction {
    pub hash: B256,
    pub transaction: Transaction,
    pub signature: Signature,
}

impl PooledTransaction {
    /// The signed transaction, whatever the pool's hash for it.
    pub open spec fn signed(self) -> TransactionSigned {
        TransactionSigned { transaction: self.transaction, signature: self.signature }
    }

    /// Whether the transaction's own hash differs from the one under which it was handed out.
    pub open spec fn is_mislabelled(self) -> bool {
        self.signed().spec_hash() != self.hash@
    }
}

/// Something that a peer said of pending transactions.
#[derive(Debug)]
pub enum NetworkTransactionEvent {
    IncomingTransactions { peer_id: PeerId, transactions: Vec<TransactionSigned> },
    IncomingPooledTransactionHashes { peer_id: PeerId, msg: NewPooledTransactionHashes },
    GetPooledTransactions { peer_id: PeerId, hashes: Vec<B256> },
    Other,
}

/// How an event is answered.
#[derive(Debug)]
pub enum TransactionAction {
    /// Hand the transactions on, in their order.
    Forward { transactions: Vec<TransactionSigned> },
    /// Ask the peer for the transactions with these hashes.
    Request { peer_id: PeerId, hashes: Vec<B256> },
    /// Answer the peer with these transactions.
    Reply { pooled: Vec<PooledTransaction> },
    /// Do nothing.
    Ignore,
}

/// What came back on a request for transactions.
#[derive(Debug)]
pub enum PooledResponse {
    Delivered(Vec<PooledTransaction>),
    RequestFailed,
    ChannelClosed,
}

/// A transaction that was handed out under a hash that is not its own.
#[derive(Clone, Copy, Debug, PartialEq, Eq)]
pub struct HashMismatch {
    pub received: B256,
    pub computed: B256,
}

/// What follows from the response to a request: the transactions to hand on, in their order, and
/// those among them that came under a wrong hash.
#[derive(Debug)]
pub struct PooledOutcome {
    pub forward: Vec<TransactionSigned>,
    pub mismatches: Vec<HashMismatch>,
}

/// Whether `action` is the answer to `event`.
pub open spec fn answers(action: TransactionAction, event: NetworkTransactionEvent) -> bool {
    match event {
        NetworkTransactionEvent::IncomingTransactions { transactions, .. } => action
            == (TransactionAction::Forward { transactions }),
        NetworkTransactionEvent::IncomingPooledTransactionHashes { peer_id, msg } => {
            let hashes = msg.spec_hashes();
            if hashes@.len() > 0 {
                action == (TransactionAction::Request { peer_id, hashes })
            } else {
                action is Ignore
            }
        },
        NetworkTransactionEvent::GetPooledTransactions { .. } => {
            action matches TransactionAction::Reply { pooled } && pooled@.len() == 0
        },
        NetworkTransactionEvent::Other => action is Ignore,
    }
}

/// The transactions that a response delivers.
pub open spec fn delivered(response: PooledResponse) -> Seq<PooledTransaction> {
    match response {
        PooledResponse::Delivered(transactions) => transactions@,
        PooledResponse::RequestFailed | PooledResponse::ChannelClosed => Seq::empty(),
    }
}

/// The signed transactions, in their order.
pub open spec fn signed_transactions(pooled: Seq<PooledTransaction>) -> Seq<TransactionSigned> {
    pooled.map_values(|tx: PooledTransaction| tx.signed())
}

/// The received and the computed hash of each transaction that came under a wrong one, in order.
pub open spec fn mismatches_in(pooled: Seq<PooledTransaction>) -> Seq<(Seq<u8>, Seq<u8>)>
    decreases pooled.len(),
{
    if pooled.len() == 0 {
        Seq::empty()
    } else {
        let before = mismatches_in(pooled.drop_last());
        let last = pooled.last();
        if last.is_mislabelled() {
            before.push((last.hash@, last.signed().spec_hash()))
        } else {
            before
        }
    }
}

/// The pairs of hashes in a list of mismatches.
pub open spec fn mismatch_pairs(mismatches: Seq<HashMismatch>) -> Seq<(Seq<u8>, Seq<u8>)> {
    mismatches.map_values(|m: HashMismatch| (m.received@, m.computed@))
}

/// Whether two hashes are the same.
fn same_hash(a: &B256, b: &B256) -> (r: bool)
    ensures
        r == (a@ == b@),
{
    for i in 0..32usize
        invariant
            forall|j: int| 0 <= j < i ==> a@[j] == b@[j],
    {
        if a[i] != b[i] {
            return false;
        }
    }
    assert(a@ =~= b@);
    true
}

/// Compares the hash under which a transaction came with its own, and tells both where they differ.
pub fn hash_mismatch(received: B256, computed: B256) -> (r: Option<HashMismatch>)
    ensures
        r is None <==> received@ == computed@,
        r matches Some(m) ==> m.received@ == received@ && m.computed@ == computed@,
{
    if same_hash(&computed, &received) {
        None
    } else {
        Some(HashMismatch { received, computed })
    }
}

impl EthP2PHandler {
    /// How to answer `event`. Full transactions are handed on. Hashes are asked back from the peer
    /// that announced them, unless there are none. A request gets an empty answer.
    pub fn handle_transaction_event(&self, event: NetworkTransactionEvent) -> (r: TransactionAction)
        ensures
            answers(r, event),
    {
        match event {
            NetworkTransactionEvent::IncomingTransactions { transactions, .. } => {
                TransactionAction::Forward { transactions }
            },
            NetworkTransactionEvent::IncomingPooledTransactionHashes { peer_id, msg } => {
                let hashes = msg.into_hashes();
                if hashes.len() > 0 {
                    TransactionAction::Request { peer_id, hashes }
                } else {
                    TransactionAction::Ignore
                }
            },
            NetworkTransactionEvent::GetPooledTransactions { .. } => {
                TransactionAction::Reply { pooled: Vec::new() }
            },
            NetworkTransactionEvent::Other => TransactionAction::Ignore,
        }
    }

    /// What follows from the response to a request for transactions. All that was delivered is
    /// handed on, also where it came under a wrong hash. A request that failed delivers nothing.
    pub fn handle_pooled_response(&self, response: PooledResponse) -> (r: PooledOutcome)
        ensures
            r.forward@ == signed_transactions(delivered(response)),
            mismatch_pairs(r.mismatches@) == mismatches_in(delivered(response)),
    {
        let pooled: Vec<PooledTransaction> = match response {
            PooledResponse::Delivered(transactions) => transactions,
            PooledResponse::RequestFailed | PooledResponse::ChannelClosed => Vec::new(),
        };
        let ghost all = pooled@;
        assert(all =~= delivered(response));
        let mut forward: Vec<TransactionSigned> = Vec::new();
        let mut mismatches: Vec<HashMismatch> = Vec::new();
        for tx in iter: pooled
            invariant
                pooled@ == all,
                forward@ == signed_transactions(all.take(iter.index())),
                mismatch_pairs(mismatches@) == mismatches_in(all.take(iter.index())),
        {
            let ghost done = all.take(iter.index());
            let ghost next = all.take(iter.index() + 1);
            assert(next.drop_last() =~= done);
            assert(next.last() == tx);
            let received: B256 = tx.hash;
            let signed = TransactionSigned { transaction: tx.transaction, signature: tx.signature };
            let computed: B256 = signed.hash();
            if let Some(mismatch) = hash_mismatch(received, computed) {
                let ghost before = mismatches@;
                mismatches.push(mismatch);
                assert(mismatch_pairs(mismatches@) =~= mismatch_pairs(before).push(
                    (received@, computed@),
                ));
            }
            forward.push(signed);
            assert(forward@ =~= signed_transactions(next));
        }
        assert(all.take(all.len() as int) =~= all);
        PooledOutcome { forward, mismatches }
    }
}

/// The mismatches are those of the mislabelled transactions, all of them and no others.
pub proof fn law_mismatches_are_the_mislabelled(
    pooled: Seq<PooledTransaction>,
    received: Seq<u8>,
    computed: Seq<u8>,
)
    ensures
        mismatches_in(pooled).contains((received, computed)) <==> exists|i: int|
            0 <= i < pooled.len() && (#[trigger] pooled[i]).is_mislabelled() && pooled[i].hash@
                == received && pooled[i].signed().spec_hash() == computed,
    decreases pooled.len(),
{
    let found = mismatches_in(pooled);
    if pooled.len() > 0 {
        let shorter = pooled.drop_last();
        let before = mismatches_in(shorter);
        law_mismatches_are_the_mislabelled(shorter, received, computed);
        let last = pooled.last();
        let last_pair = (last.hash@, last.signed().spec_hash());
        if found.contains((received, computed)) {
            let k = choose|k: int| 0 <= k < found.len() && found[k] == (received, computed);
            if k < before.len() {
                assert(before[k] == (received, computed));
                let i = choose|i: int|
                    0 <= i < shorter.len() && (#[trigger] shorter[i]).is_mislabelled()
                        && shorter[i].hash@ == received && shorter[i].signed().spec_hash()
                        == computed;
                assert(pooled[i] == shorter[i]);
            } else {
                assert(pooled[pooled.len() - 1].is_mislabelled());
            }
        }
        if exists|i: int|
            0 <= i < pooled.len() && (#[trigger] pooled[i]).is_mislabelled() && pooled[i].hash@
                == received && pooled[i].signed().spec_hash() == computed {
            let i = choose|i: int|
                0 <= i < pooled.len() && (#[trigger] pooled[i]).is_mislabelled() && pooled[i].hash@
                    == received && pooled[i].signed().spec_hash() == computed;
            if i < shorter.len() {
                assert(shorter[i].is_mislabelled());
                let k = choose|k: int| 0 <= k < before.len() && before[k] == (received, computed);
                assert(found[k] == (received, computed));
            } else {
                assert(found[found.len() - 1] == last_pair);
            }
        }
    }
}

/// Whatever a peer broadcasts in full, however many transactions, is handed on: each of them, in
/// its place, and nothing else.
pub proof fn law_broadcasts_are_forwarded(
    handler: &EthP2PHandler,
    peer_id: PeerId,
    txs: Vec<TransactionSigned>,
    action: TransactionAction,
)
    requires
        call_ensures(
            EthP2PHandler::handle_transaction_event,
            (handler, NetworkTransactionEvent::IncomingTransactions { peer_id, transactions: txs }),
            action,
        ),
    ensures
        action matches TransactionAction::Forward { transactions } && transactions@.len()
            == txs@.len() && forall|i: int|
            0 <= i < txs@.len() ==> #[trigger] transactions@[i] == txs@[i],
{
}

/// All hashes that a peer announces, in either form, are asked back from that peer, and from no
/// other; nothing is asked where none is announced.
pub proof fn law_announced_hashes_are_asked_for(
    handler: &EthP2PHandler,
    peer_id: PeerId,
    msg: NewPooledTransactionHashes,
    announced: Vec<B256>,
    action: TransactionAction,
)
    requires
        msg matches NewPooledTransactionHashes::Eth66(hashes) ==> hashes == announced,
        msg matches NewPooledTransactionHashes::Eth68 { hashes, .. } ==> hashes == announced,
        call_ensures(
            EthP2PHandler::handle_transaction_event,
            (handler, NetworkTransactionEvent::IncomingPooledTransactionHashes { peer_id, msg }),
            action,
        ),
    ensures
        action is Request <==> announced@.len() > 0,
        action is Ignore <==> announced@.len() == 0,
        action matches TransactionAction::Request { peer_id: asked, hashes } ==> asked == peer_id
            && hashes@.len() == announced@.len() && forall|i: int|
            0 <= i < announced@.len() ==> #[trigger] hashes@[i] == announced@[i],
{
}

/// Both forms of an announcement hold the hashes that are taken out of it.
pub proof fn law_either_form_holds_the_hashes(msg: NewPooledTransactionHashes, taken: Vec<B256>)
    requires
        call_ensures(NewPooledTransactionHashes::into_hashes, (msg,), taken),
    ensures
        msg matches NewPooledTransactionHashes::Eth66(hashes) ==> taken == hashes,
        msg matches NewPooledTransactionHashes::Eth68 { hashes, .. } ==> taken == hashes,
{
}

/// Whatever a peer asks for, it is answered, and with nothing.
pub proof fn law_requests_get_an_empty_answer(
    handler: &EthP2PHandler,
    peer_id: PeerId,
    hashes: Vec<B256>,
    action: TransactionAction,
)
    requires
        call_ensures(
            EthP2PHandler::handle_transaction_event,
            (handler, NetworkTransactionEvent::GetPooledTransactions { peer_id, hashes }),
            action,
        ),
    ensures
        action matches TransactionAction::Reply { pooled } && pooled@.len() == 0,
{
}

/// Any other event calls for nothing.
pub proof fn law_other_events_are_ignored(handler: &EthP2PHandler, action: TransactionAction)
    requires
        call_ensures(
            EthP2PHandler::handle_transaction_event,
            (handler, NetworkTransactionEvent::Other),
            action,
        ),
    ensures
        action is Ignore,
{
}

/// Whatever is delivered, however many transactions and under whatever hashes, is handed on: each
/// of them, in its place, as it came, and nothing else.
pub proof fn law_deliveries_are_forwarded(
    handler: &EthP2PHandler,
    txs: Vec<PooledTransaction>,
    outcome: PooledOutcome,
)
    requires
        call_ensures(
            EthP2PHandler::handle_pooled_response,
            (handler, PooledResponse::Delivered(txs)),
            outcome,
        ),
    ensures
        outcome.forward@.len() == txs@.len(),
        forall|i: int|
            0 <= i < txs@.len() ==> (#[trigger] outcome.forward@[i]).transaction
                == txs@[i].transaction && outcome.forward@[i].signature == txs@[i].signature,
{
}

/// A request that failed delivers nothing, and nothing is wrong with what it delivers.
pub proof fn law_failed_requests_deliver_nothing(
    handler: &EthP2PHandler,
    response: PooledResponse,
    outcome: PooledOutcome,
)
    requires
        !(response is Delivered),
        call_ensures(EthP2PHandler::handle_pooled_response, (handler, response), outcome),
    ensures
        outcome.forward@.len() == 0,
        outcome.mismatches@.len() == 0,
{
    assert(mismatch_pairs(outcome.mismatches@).len() == 0);
}

/// The mismatches of two deliveries, one behind the other, are those of the first and then those
/// of the second. A single transaction has one exactly if the hash of its contents is not the one
/// under which it came, and no transaction has none.
pub proof fn law_mismatches_add_up(
    first: Seq<PooledTransaction>,
    second: Seq<PooledTransaction>,
    tx: PooledTransaction,
)
    ensures
        mismatches_in(first + second) == mismatches_in(first) + mismatches_in(second),
        mismatches_in(seq![tx]) == (if transaction_hash(tx.transaction@, tx.signature@)
            == tx.hash@ {
            Seq::empty()
        } else {
            seq![(tx.hash@, transaction_hash(tx.transaction@, tx.signature@))]
        }),
        mismatches_in(Seq::empty()).len() == 0,
    decreases second.len(),
{
    reveal_with_fuel(mismatches_in, 2);
    assert(seq![tx].drop_last() =~= Seq::<PooledTransaction>::empty());
    if second.len() > 0 {
        law_mismatches_add_up(first, second.drop_last(), tx);
        assert((first + second).drop_last() =~= first + second.drop_last());
        assert((first + second).last() == second.last());
        assert(mismatches_in(first + second) =~= mismatches_in(first) + mismatches_in(second));
    } else {
        assert(first + second =~= first);
        assert(mismatches_in(first + second) =~= mismatches_in(first) + mismatches_in(second));
    }
}

/// A delivery is told to be mislabelled exactly where the hash of a transaction's contents is not
/// the one under which it came, and both hashes are told.
pub proof fn law_mislabelled_deliveries_are_told(
    handler: &EthP2PHandler,
    txs: Vec<PooledTransaction>,
    outcome: PooledOutcome,
)
    requires
        call_ensures(
            EthP2PHandler::handle_pooled_response,
            (handler, PooledResponse::Delivered(txs)),
            outcome,
        ),
    ensures
        outcome.mismatches@.len() == mismatches_in(txs@).len(),
        forall|k: int|
            0 <= k < outcome.mismatches@.len() ==> mismatches_in(txs@)[k] == (
                (#[trigger] outcome.mismatches@[k]).received@,
                outcome.mismatches@[k].computed@,
            ),
        forall|k: int|
            0 <= k < outcome.mismatches@.len() ==> exists|i: int|
                0 <= i < txs@.len() && (#[trigger] txs@[i]).hash@ == (
                #[trigger] outcome.mismatches@[k]).received@ && transaction_hash(
                    txs@[i].transaction@,
                    txs@[i].signature@,
                ) == outcome.mismatches@[k].computed@ && outcome.mismatches@[k].received@
                    != outcome.mismatches@[k].computed@,
        forall|i: int|
            0 <= i < txs@.len() && transaction_hash(
                (#[trigger] txs@[i]).transaction@,
                txs@[i].signature@,
            ) != txs@[i].hash@ ==> exists|k: int|
                0 <= k < outcome.mismatches@.len() && (#[trigger] outcome.mismatches@[k]).received@
                    == txs@[i].hash@ && outcome.mismatches@[k].computed@ == transaction_hash(
                    txs@[i].transaction@,
                    txs@[i].signature@,
                ),
{
    let pairs = mismatch_pairs(outcome.mismatches@);
    assert(pairs == mismatches_in(txs@));
    assert forall|k: int| 0 <= k < outcome.mismatches@.len() implies mismatches_in(txs@)[k] == (
        (#[trigger] outcome.mismatches@[k]).received@,
        outcome.mismatches@[k].computed@,
    ) by {
        assert(pairs[k] == (
            outcome.mismatches@[k].received@,
            outcome.mismatches@[k].computed@,
        ));
    }
    assert forall|k: int| 0 <= k < outcome.mismatches@.len() implies exists|i: int|
        0 <= i < txs@.len() && (#[trigger] txs@[i]).hash@ == (
        #[trigger] outcome.mismatches@[k]).received@ && transaction_hash(
            txs@[i].transaction@,
            txs@[i].signature@,
        ) == outcome.mismatches@[k].computed@ && outcome.mismatches@[k].received@
            != outcome.mismatches@[k].computed@ by {
        let m = outcome.mismatches@[k];
        assert(pairs[k] == (m.received@, m.computed@));
        assert(pairs.contains((m.received@, m.computed@)));
        law_mismatches_are_the_mislabelled(txs@, m.received@, m.computed@);
        let i = choose|i: int|
            0 <= i < txs@.len() && (#[trigger] txs@[i]).is_mislabelled() && txs@[i].hash@
                == m.received@ && txs@[i].signed().spec_hash() == m.computed@;
        assert(txs@[i].hash@ == m.received@);
    }
    assert forall|i: int|
        0 <= i < txs@.len() && transaction_hash(
            (#[trigger] txs@[i]).transaction@,
            txs@[i].signature@,
        ) != txs@[i].hash@ implies exists|k: int|
        0 <= k < outcome.mismatches@.len() && (#[trigger] outcome.mismatches@[k]).received@
            == txs@[i].hash@ && outcome.mismatches@[k].computed@ == transaction_hash(
            txs@[i].transaction@,
            txs@[i].signature@,
        ) by {
        let tx = txs@[i];
        assert(tx.is_mislabelled());
        law_mismatches_are_the_mislabelled(txs@, tx.hash@, tx.signed().spec_hash());
        let k = choose|k: int|
            0 <= k < pairs.len() && pairs[k] == (tx.hash@, tx.signed().spec_hash());
        assert(pairs[k] == (
            outcome.mismatches@[k].received@,
            outcome.mismatches@[k].computed@,
        ));
    }
}

/// Two hashes mismatch exactly if they differ in some byte.
pub proof fn law_hashes_differ_in_some_byte(
    received: B256,
    computed: B256,
    mismatch: Option<HashMismatch>,
)
    requires
        call_ensures(hash_mismatch, (received, computed), mismatch),
    ensures
        mismatch is Some <==> exists|i: int| 0 <= i < 32 && received@[i] != #[trigger] computed@[i],
        mismatch matches Some(m) ==> m.received@ == received@ && m.computed@ == computed@,
{
    if forall|i: int| 0 <= i < 32 ==> received@[i] == #[trigger] computed@[i] {
        assert(received@ =~= computed@);
    }
}

} // verus!
