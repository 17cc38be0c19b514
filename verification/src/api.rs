//! What the web interface answers.

use vstd::prelude::*;

verus! {

/// A point in time: seconds since the start of 1970 in UTC, and nanoseconds on top.
#[derive(Clone, Copy, Debug, PartialEq, Eq)]
pub struct Timestamp {
    pub secs: i64,
    pub nanos: u32,
}

/// A transaction as the database holds it.
#[derive(Debug, PartialEq, Eq)]
pub struct ApiTransaction {
    pub hash: String,
    pub tx_type: i16,
    pub sender: Option<String>,
    pub receiver: Option<String>,
    pub value_wei: String,
    pub gas_limit: i64,
    pub gas_price_or_max_fee_wei: Option<String>,
    pub max_priority_fee_wei: Option<String>,
    pub input_len: i32,
    pub first_seen_at: Timestamp,
}

/// Why the database gave nothing.
#[derive(Clone, Copy, Debug, PartialEq, Eq)]
pub enum QueryError {
    RowNotFound,
    Database,
}

/// What can be asked for.
#[derive(Clone, Copy, Debug, PartialEq, Eq)]
pub enum Endpoint {
    TransactionByHash,
    LatestTransactions,
}

impl Endpoint {
    /// Where the endpoint is found.
    pub open spec fn spec_path(self) -> Seq<char> {
        match self {
            Endpoint::TransactionByHash => "/tx/:hash"@,
            Endpoint::LatestTransactions => "/txs/latest"@,
        }
    }

    /// What the database is asked.
    pub open spec fn spec_query(self) -> Seq<char> {
        match self {
            Endpoint::TransactionByHash => "SELECT * FROM transactions WHERE hash = $1"@,
            Endpoint::LatestTransactions => {
                "SELECT * FROM transactions ORDER BY first_seen_at DESC LIMIT 10"@
            },
        }
    }

    /// Where the endpoint is found.
    pub fn path(self) -> (r: &'static str)
        ensures
            r@ == self.spec_path(),
    {
        match self {
            Endpoint::TransactionByHash => "/tx/:hash",
            Endpoint::LatestTransactions => "/txs/latest",
        }
    }

    /// What the database is asked.
    pub fn query(self) -> (r: &'static str)
        ensures
            r@ == self.spec_query(),
    {
        match self {
            Endpoint::TransactionByHash => "SELECT * FROM transactions WHERE hash = $1",
            Endpoint::LatestTransactions => {
                "SELECT * FROM transactions ORDER BY first_seen_at DESC LIMIT 10"
            },
        }
    }
}

/// What is sent back.
#[derive(Debug, PartialEq, Eq)]
pub enum ApiBody {
    Transaction(ApiTransaction),
    Transactions(Vec<ApiTransaction>),
    Text(String),
}

/// An answer: its HTTP status and what is sent back.
#[derive(Debug, PartialEq, Eq)]
pub struct ApiResponse {
    pub status: u16,
    pub body: ApiBody,
}

/// The HTTP status of a request that went well.
pub const STATUS_OK: u16 = 200;

/// The HTTP status where nothing was found.
pub const STATUS_NOT_FOUND: u16 = 404;

/// The HTTP status where the server failed.
pub const STATUS_INTERNAL_SERVER_ERROR: u16 = 500;

impl ApiResponse {
    /// Whether this is a text with the given status.
    pub open spec fn is_text(self, status: u16, text: Seq<char>) -> bool {
        &&& self.status == status
        &&& self.body matches ApiBody::Text(body) && body@ == text
    }

    /// The answer where the database failed. It tells nothing of how it failed.
    fn database_error() -> (r: ApiResponse)
        ensures
            r.is_text(STATUS_INTERNAL_SERVER_ERROR, "Database error"@),
    {
        ApiResponse {
            status: STATUS_INTERNAL_SERVER_ERROR,
            body: ApiBody::Text("Database error".to_owned()),
        }
    }
}

/// The answer to the request for the transaction with the given hash, from what the database gave.
pub fn get_transaction_by_hash(hash: &str, found: Result<ApiTransaction, QueryError>) -> (r:
    ApiResponse)
    ensures
        match found {
            Ok(tx) => r == (ApiResponse { status: STATUS_OK, body: ApiBody::Transaction(tx) }),
            Err(QueryError::RowNotFound) => r.is_text(
                STATUS_NOT_FOUND,
                "Transaction not found: "@ + hash@,
            ),
            Err(QueryError::Database) => r.is_text(
                STATUS_INTERNAL_SERVER_ERROR,
                "Database error"@,
            ),
        },
{
    match found {
        Ok(tx) => ApiResponse { status: STATUS_OK, body: ApiBody::Transaction(tx) },
        Err(QueryError::RowNotFound) => ApiResponse {
            status: STATUS_NOT_FOUND,
            body: ApiBody::Text("Transaction not found: ".to_owned().concat(hash)),
        },
        Err(QueryError::Database) => ApiResponse::database_error(),
    }
}

/// The answer to the request for the latest transactions, from what the database gave.
pub fn get_latest_transactions(found: Result<Vec<ApiTransaction>, QueryError>) -> (r: ApiResponse)
    ensures
        match found {
            Ok(txs) => r == (ApiResponse { status: STATUS_OK, body: ApiBody::Transactions(txs) }),
            Err(_) => r.is_text(STATUS_INTERNAL_SERVER_ERROR, "Database error"@),
        },
{
    match found {
        Ok(txs) => ApiResponse { status: STATUS_OK, body: ApiBody::Transactions(txs) },
        Err(_) => ApiResponse::database_error(),
    }
}

/// A request for a transaction is answered with it where the database has it. Where it has not,
/// the answer says so and names the hash that was asked for; where the database failed, the answer
/// does not depend on the hash.
pub proof fn law_a_transaction_is_sent_or_its_absence_told(
    hash: &str,
    found: Result<ApiTransaction, QueryError>,
    response: ApiResponse,
)
    requires
        call_ensures(get_transaction_by_hash, (hash, found), response),
    ensures
        response.status == 200 <==> found is Ok,
        response.status == 404 <==> found == Err::<ApiTransaction, QueryError>(
            QueryError::RowNotFound,
        ),
        response.status == 500 <==> found == Err::<ApiTransaction, QueryError>(
            QueryError::Database,
        ),
        found matches Ok(tx) ==> response.body == ApiBody::Transaction(tx),
        response.status == 404 ==> (response.body matches ApiBody::Text(text) && text@
            == "Transaction not found: "@ + hash@),
        response.status == 500 ==> (response.body matches ApiBody::Text(text) && text@
            == "Database error"@),
{
}

/// A request for the latest transactions is answered with all that the database gave, none
/// included, each in its place. Any failure of the database is one of the server.
pub proof fn law_the_latest_transactions_are_sent(
    found: Result<Vec<ApiTransaction>, QueryError>,
    response: ApiResponse,
)
    requires
        call_ensures(get_latest_transactions, (found,), response),
    ensures
        response.status == 200 <==> found is Ok,
        response.status == 500 <==> found is Err,
        found matches Ok(txs) ==> (response.body matches ApiBody::Transactions(sent) && sent@
            == txs@),
        found is Err ==> (response.body matches ApiBody::Text(text) && text@
            == "Database error"@),
{
}

} // verus!
