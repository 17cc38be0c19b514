use eth_p2p_crawler::api::{
    get_latest_transactions, get_transaction_by_hash, ApiBody, ApiResponse, ApiTransaction,
    Endpoint, QueryError, Timestamp,
};

fn stored(hash: &str) -> ApiTransaction {
    ApiTransaction {
        hash: hash.to_string(),
        tx_type: 2,
        sender: None,
        receiver: Some("0xabc".to_string()),
        value_wei: "5".to_string(),
        gas_limit: 21000,
        gas_price_or_max_fee_wei: Some("7".to_string()),
        max_priority_fee_wei: None,
        input_len: 0,
        first_seen_at: Timestamp { secs: 1_700_000_000, nanos: 5 },
    }
}

fn text(status: u16, body: &str) -> ApiResponse {
    ApiResponse { status, body: ApiBody::Text(body.to_string()) }
}

#[test]
fn a_stored_transaction_is_found() {
    assert_eq!(
        get_transaction_by_hash("0x1", Ok(stored("0x1"))),
        ApiResponse { status: 200, body: ApiBody::Transaction(stored("0x1")) }
    );
}

#[test]
fn an_unknown_transaction_is_not_found() {
    assert_eq!(
        get_transaction_by_hash("0x1", Err(QueryError::RowNotFound)),
        text(404, "Transaction not found: 0x1")
    );
}

#[test]
fn a_failing_database_is_told_of_without_detail() {
    assert_eq!(
        get_transaction_by_hash("0x1", Err(QueryError::Database)),
        text(500, "Database error")
    );
    assert_eq!(get_latest_transactions(Err(QueryError::Database)), text(500, "Database error"));
    assert_eq!(get_latest_transactions(Err(QueryError::RowNotFound)), text(500, "Database error"));
}

#[test]
fn the_latest_transactions_are_sent() {
    assert_eq!(
        get_latest_transactions(Ok(vec![stored("0x2"), stored("0x1")])),
        ApiResponse {
            status: 200,
            body: ApiBody::Transactions(vec![stored("0x2"), stored("0x1")]),
        }
    );
    assert_eq!(
        get_latest_transactions(Ok(vec![])),
        ApiResponse { status: 200, body: ApiBody::Transactions(vec![]) }
    );
}

#[test]
fn endpoints_have_their_paths_and_queries() {
    assert_eq!(Endpoint::TransactionByHash.path(), "/tx/:hash");
    assert_eq!(Endpoint::LatestTransactions.path(), "/txs/latest");
    assert_eq!(
        Endpoint::TransactionByHash.query(),
        "SELECT * FROM transactions WHERE hash = $1"
    );
    assert_eq!(
        Endpoint::LatestTransactions.query(),
        "SELECT * FROM transactions ORDER BY first_seen_at DESC LIMIT 10"
    );
}
