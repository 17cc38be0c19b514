use eth_p2p_crawler::mempool::{
    hash_mismatch, HashMismatch, NetworkTransactionEvent, NewPooledTransactionHashes,
    PooledResponse, PooledTransaction, TransactionAction,
};
use eth_p2p_crawler::network::EthP2PHandler;
use eth_p2p_crawler::primitives::U256;
use eth_p2p_crawler::transaction::{Signature, Transaction, TransactionSigned, TxLegacy};

fn signed(nonce: u64) -> TransactionSigned {
    TransactionSigned {
        transaction: Transaction::Legacy(TxLegacy {
            chain_id: Some(1),
            nonce,
            gas_price: 1,
            gas_limit: 21000,
            to: Some([3; 20]),
            value: U256::from_u64(5),
            input: vec![],
        }),
        signature: Signature { r: U256::from_u64(1), s: U256::from_u64(2), odd_y_parity: false },
    }
}

fn pooled(nonce: u64, hash: [u8; 32]) -> PooledTransaction {
    let tx = signed(nonce);
    PooledTransaction { hash, transaction: tx.transaction, signature: tx.signature }
}

#[test]
fn full_transactions_are_forwarded_in_order() {
    let event = NetworkTransactionEvent::IncomingTransactions {
        peer_id: [1; 64],
        transactions: vec![signed(2), signed(1), signed(2)],
    };
    match EthP2PHandler::new().handle_transaction_event(event) {
        TransactionAction::Forward { transactions } => {
            assert_eq!(transactions, vec![signed(2), signed(1), signed(2)]);
        }
        _ => panic!("not forwarded"),
    }
}

#[test]
fn announced_hashes_are_asked_for() {
    let event = NetworkTransactionEvent::IncomingPooledTransactionHashes {
        peer_id: [1; 64],
        msg: NewPooledTransactionHashes::Eth66(vec![[5; 32], [6; 32]]),
    };
    match EthP2PHandler::new().handle_transaction_event(event) {
        TransactionAction::Request { peer_id, hashes } => {
            assert_eq!(peer_id, [1; 64]);
            assert_eq!(hashes, vec![[5; 32], [6; 32]]);
        }
        _ => panic!("not requested"),
    }
    let event = NetworkTransactionEvent::IncomingPooledTransactionHashes {
        peer_id: [2; 64],
        msg: NewPooledTransactionHashes::Eth68 {
            types: vec![2],
            sizes: vec![100],
            hashes: vec![[7; 32]],
        },
    };
    match EthP2PHandler::new().handle_transaction_event(event) {
        TransactionAction::Request { peer_id, hashes } => {
            assert_eq!(peer_id, [2; 64]);
            assert_eq!(hashes, vec![[7; 32]]);
        }
        _ => panic!("not requested"),
    }
}

#[test]
fn an_empty_announcement_is_ignored() {
    let event = NetworkTransactionEvent::IncomingPooledTransactionHashes {
        peer_id: [1; 64],
        msg: NewPooledTransactionHashes::Eth66(vec![]),
    };
    let action = EthP2PHandler::new().handle_transaction_event(event);
    assert!(matches!(action, TransactionAction::Ignore));
}

#[test]
fn a_request_gets_an_empty_answer() {
    let event =
        NetworkTransactionEvent::GetPooledTransactions { peer_id: [1; 64], hashes: vec![[1; 32]] };
    match EthP2PHandler::new().handle_transaction_event(event) {
        TransactionAction::Reply { pooled } => assert!(pooled.is_empty()),
        _ => panic!("not answered"),
    }
}

#[test]
fn other_events_are_ignored() {
    let action = EthP2PHandler::new().handle_transaction_event(NetworkTransactionEvent::Other);
    assert!(matches!(action, TransactionAction::Ignore));
}

#[test]
fn delivered_transactions_are_forwarded() {
    let response = PooledResponse::Delivered(vec![
        pooled(1, signed(1).hash()),
        pooled(2, [9; 32]),
        pooled(3, signed(3).hash()),
    ]);
    let outcome = EthP2PHandler::new().handle_pooled_response(response);
    assert_eq!(outcome.forward, vec![signed(1), signed(2), signed(3)]);
    assert_eq!(
        outcome.mismatches,
        vec![HashMismatch { received: [9; 32], computed: signed(2).hash() }]
    );
}

#[test]
fn a_failed_request_delivers_nothing() {
    for response in [PooledResponse::RequestFailed, PooledResponse::ChannelClosed] {
        let outcome = EthP2PHandler::new().handle_pooled_response(response);
        assert!(outcome.forward.is_empty());
        assert!(outcome.mismatches.is_empty());
    }
}

#[test]
fn hashes_are_compared_to_the_last_byte() {
    let hash: [u8; 32] = [7; 32];
    assert_eq!(hash_mismatch(hash, hash), None);
    let mut other: [u8; 32] = hash;
    other[31] = 8;
    assert_eq!(
        hash_mismatch(hash, other),
        Some(HashMismatch { received: hash, computed: other })
    );
}
