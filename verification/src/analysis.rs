//! What the crawler shows of a transaction.

use crate::primitives::{law_numbers_tell_the_limbs, Address, B256, U256};
use crate::transaction::{
    address_bytes, half_curve_order, law_bytes_tell_the_address, recovered_signer, signing_hash,
    transaction_hash, Transaction, TransactionSigned, TxType,
};
use crate::types::UiUpdate;
use vstd::prelude::*;

verus! {

/// The parts of a transaction that the crawler shows.
#[derive(Clone, Copy, Debug, PartialEq, Eq)]
pub struct TxAnalysisResult {
    pub hash: B256,
    pub tx_type: TxType,
    /// The signer, where the signature allows to tell.
    pub sender: Option<Address>,
    /// The account that is called; `None` where the transaction creates a contract.
    pub receiver: Option<Address>,
    /// The amount that is transferred, in wei.
    pub value: U256,
    pub gas_limit: u64,
    /// The gas price, or the fee cap where the kind has one, in wei.
    pub gas_price_or_max_fee: Option<u128>,
    /// The tip, where the kind has one, in wei.
    pub max_priority_fee: Option<u128>,
    pub input_len: usize,
}

impl TxAnalysisResult {
    /// Whether this is what the crawler shows of `tx`.
    pub open spec fn describes(self, tx: TransactionSigned) -> bool {
        let model = tx.transaction@;
        &&& self.hash@ == tx.spec_hash()
        &&& self.tx_type == model.tx_type
        &&& address_bytes(self.sender) == tx.spec_signer()
        &&& address_bytes(self.receiver) == model.to
        &&& self.value.as_nat() == model.value
        &&& self.gas_limit == model.gas_limit
        &&& self.gas_price_or_max_fee == Some(model.max_fee)
        &&& self.max_priority_fee == model.max_priority_fee
        &&& self.input_len == model.input.len()
    }
}

/// Picks out of `tx` what the crawler shows, next to the hash and the sender that were found.
pub fn describe_transaction(tx: &Transaction, hash: B256, sender: Option<Address>) -> (r:
    TxAnalysisResult)
    ensures
        r.hash == hash,
        r.sender == sender,
        r.tx_type == tx@.tx_type,
        address_bytes(r.receiver) == tx@.to,
        r.value.as_nat() == tx@.value,
        r.gas_limit == tx@.gas_limit,
        r.gas_price_or_max_fee == Some(tx@.max_fee),
        r.max_priority_fee == tx@.max_priority_fee,
        r.input_len == tx@.input.len(),
        match *tx {
            Transaction::Legacy(t) => r.value == t.value && r.receiver == t.to,
            Transaction::Eip2930(t) => r.value == t.value && r.receiver == t.to,
            Transaction::Eip1559(t) => r.value == t.value && r.receiver == t.to,
            Transaction::Eip4844(t) => r.value == t.value && r.receiver == Some(t.to),
            Transaction::Eip7702(t) => r.value == t.value && r.receiver == Some(t.to),
        },
{
    let (gas_price_or_max_fee, max_priority_fee) = match tx {
        Transaction::Legacy(_) | Transaction::Eip2930(_) => (tx.gas_price(), None),
        Transaction::Eip1559(_) | Transaction::Eip4844(_) | Transaction::Eip7702(_) => (
            Some(tx.max_fee_per_gas()),
            tx.max_priority_fee_per_gas(),
        ),
    };
    TxAnalysisResult {
        hash,
        tx_type: tx.tx_type(),
        sender,
        receiver: tx.to(),
        value: tx.value(),
        gas_limit: tx.gas_limit(),
        gas_price_or_max_fee,
        max_priority_fee,
        input_len: tx.input().len(),
    }
}

/// Picks out of `tx_signed` what the crawler shows, and recovers who signed it.
pub fn analyze_transaction(tx_signed: &TransactionSigned) -> (r: TxAnalysisResult)
    ensures
        r.describes(*tx_signed),
        tx_signed.signature@.s > half_curve_order() ==> r.sender is None,
        match tx_signed.transaction {
            Transaction::Legacy(t) => {
                r.value == t.value && r.receiver == t.to && r.gas_limit == t.gas_limit
            },
            Transaction::Eip2930(t) => {
                r.value == t.value && r.receiver == t.to && r.gas_limit == t.gas_limit
            },
            Transaction::Eip1559(t) => {
                r.value == t.value && r.receiver == t.to && r.gas_limit == t.gas_limit
            },
            Transaction::Eip4844(t) => {
                r.value == t.value && r.receiver == Some(t.to) && r.gas_limit == t.gas_limit
            },
            Transaction::Eip7702(t) => {
                r.value == t.value && r.receiver == Some(t.to) && r.gas_limit == t.gas_limit
            },
        },
{
    let hash: B256 = tx_signed.hash();
    let sender: Option<Address> = tx_signed.recover_signer();
    describe_transaction(&tx_signed.transaction, hash, sender)
}

/// The message that tells the user interface of a transaction.
pub fn new_tx_update(tx_signed: &TransactionSigned) -> (r: UiUpdate)
    ensures
        r matches UiUpdate::NewTx(shown) && shown.describes(*tx_signed),
{
    UiUpdate::NewTx(Box::new(analyze_transaction(tx_signed)))
}

/// A gas price or a fee cap is always shown. A tip is shown for exactly the three kinds that have
/// one, and only the three kinds without blobs and authorizations can lack a receiver.
pub proof fn law_fees_and_receiver_follow_the_kind(tx: TransactionSigned, shown: TxAnalysisResult)
    requires
        shown.describes(tx),
    ensures
        shown.gas_price_or_max_fee is Some,
        shown.max_priority_fee is None <==> (shown.tx_type == TxType::Legacy || shown.tx_type
            == TxType::Eip2930),
        shown.receiver is None ==> shown.tx_type != TxType::Eip4844 && shown.tx_type
            != TxType::Eip7702,
{
}

/// What describes a transaction repeats its fields: the receiver, the value, the gas limit, the
/// fees and the length of the input are those of the transaction, whatever its kind.
pub proof fn law_description_repeats_the_fields(tx: TransactionSigned, shown: TxAnalysisResult)
    requires
        shown.describes(tx),
    ensures
        match tx.transaction {
            Transaction::Legacy(t) => {
                &&& shown.tx_type == TxType::Legacy
                &&& shown.receiver == t.to
                &&& shown.value == t.value
                &&& shown.gas_limit == t.gas_limit
                &&& shown.gas_price_or_max_fee == Some(t.gas_price)
                &&& shown.max_priority_fee is None
                &&& shown.input_len == t.input@.len()
            },
            Transaction::Eip2930(t) => {
                &&& shown.tx_type == TxType::Eip2930
                &&& shown.receiver == t.to
                &&& shown.value == t.value
                &&& shown.gas_limit == t.gas_limit
                &&& shown.gas_price_or_max_fee == Some(t.gas_price)
                &&& shown.max_priority_fee is None
                &&& shown.input_len == t.input@.len()
            },
            Transaction::Eip1559(t) => {
                &&& shown.tx_type == TxType::Eip1559
                &&& shown.receiver == t.to
                &&& shown.value == t.value
                &&& shown.gas_limit == t.gas_limit
                &&& shown.gas_price_or_max_fee == Some(t.max_fee_per_gas)
                &&& shown.max_priority_fee == Some(t.max_priority_fee_per_gas)
                &&& shown.input_len == t.input@.len()
            },
            Transaction::Eip4844(t) => {
                &&& shown.tx_type == TxType::Eip4844
                &&& shown.receiver == Some(t.to)
                &&& shown.value == t.value
                &&& shown.gas_limit == t.gas_limit
                &&& shown.gas_price_or_max_fee == Some(t.max_fee_per_gas)
                &&& shown.max_priority_fee == Some(t.max_priority_fee_per_gas)
                &&& shown.input_len == t.input@.len()
            },
            Transaction::Eip7702(t) => {
                &&& shown.tx_type == TxType::Eip7702
                &&& shown.receiver == Some(t.to)
                &&& shown.value == t.value
                &&& shown.gas_limit == t.gas_limit
                &&& shown.gas_price_or_max_fee == Some(t.max_fee_per_gas)
                &&& shown.max_priority_fee == Some(t.max_priority_fee_per_gas)
                &&& shown.input_len == t.input@.len()
            },
        },
        shown.hash@ == transaction_hash(tx.transaction@, tx.signature@),
        address_bytes(shown.sender) == recovered_signer(
            tx.signature@,
            signing_hash(tx.transaction@),
        ),
{
    match tx.transaction {
        Transaction::Legacy(t) => {
            law_numbers_tell_the_limbs(shown.value, t.value);
            law_bytes_tell_the_address(shown.receiver, t.to);
        },
        Transaction::Eip2930(t) => {
            law_numbers_tell_the_limbs(shown.value, t.value);
            law_bytes_tell_the_address(shown.receiver, t.to);
        },
        Transaction::Eip1559(t) => {
            law_numbers_tell_the_limbs(shown.value, t.value);
            law_bytes_tell_the_address(shown.receiver, t.to);
        },
        Transaction::Eip4844(t) => {
            law_numbers_tell_the_limbs(shown.value, t.value);
            law_bytes_tell_the_address(shown.receiver, Some(t.to));
        },
        Transaction::Eip7702(t) => {
            law_numbers_tell_the_limbs(shown.value, t.value);
            law_bytes_tell_the_address(shown.receiver, Some(t.to));
        },
    }
}

/// The analysis of a transaction repeats its fields, whatever its kind, and the message that tells
/// of the transaction carries the same.
pub proof fn law_analysis_repeats_the_fields(
    tx: &TransactionSigned,
    shown: TxAnalysisResult,
    update: UiUpdate,
)
    requires
        call_ensures(analyze_transaction, (tx,), shown),
        call_ensures(new_tx_update, (tx,), update),
    ensures
        match tx.transaction {
            Transaction::Legacy(t) => {
                &&& shown.tx_type == TxType::Legacy
                &&& shown.receiver == t.to
                &&& shown.value == t.value
                &&& shown.gas_limit == t.gas_limit
                &&& shown.gas_price_or_max_fee == Some(t.gas_price)
                &&& shown.max_priority_fee is None
                &&& shown.input_len == t.input@.len()
            },
            Transaction::Eip2930(t) => {
                &&& shown.tx_type == TxType::Eip2930
                &&& shown.receiver == t.to
                &&& shown.value == t.value
                &&& shown.gas_limit == t.gas_limit
                &&& shown.gas_price_or_max_fee == Some(t.gas_price)
                &&& shown.max_priority_fee is None
                &&& shown.input_len == t.input@.len()
            },
            Transaction::Eip1559(t) => {
                &&& shown.tx_type == TxType::Eip1559
                &&& shown.receiver == t.to
                &&& shown.value == t.value
                &&& shown.gas_limit == t.gas_limit
                &&& shown.gas_price_or_max_fee == Some(t.max_fee_per_gas)
                &&& shown.max_priority_fee == Some(t.max_priority_fee_per_gas)
                &&& shown.input_len == t.input@.len()
            },
            Transaction::Eip4844(t) => {
                &&& shown.tx_type == TxType::Eip4844
                &&& shown.receiver == Some(t.to)
                &&& shown.value == t.value
                &&& shown.gas_limit == t.gas_limit
                &&& shown.gas_price_or_max_fee == Some(t.max_fee_per_gas)
                &&& shown.max_priority_fee == Some(t.max_priority_fee_per_gas)
                &&& shown.input_len == t.input@.len()
            },
            Transaction::Eip7702(t) => {
                &&& shown.tx_type == TxType::Eip7702
                &&& shown.receiver == Some(t.to)
                &&& shown.value == t.value
                &&& shown.gas_limit == t.gas_limit
                &&& shown.gas_price_or_max_fee == Some(t.max_fee_per_gas)
                &&& shown.max_priority_fee == Some(t.max_priority_fee_per_gas)
                &&& shown.input_len == t.input@.len()
            },
        },
        shown.hash@ == transaction_hash(tx.transaction@, tx.signature@),
        shown.sender is Some <==> recovered_signer(
            tx.signature@,
            signing_hash(tx.transaction@),
        ) is Some,
        shown.sender matches Some(a) ==> recovered_signer(
            tx.signature@,
            signing_hash(tx.transaction@),
        ) == Some(a@),
        update matches UiUpdate::NewTx(told) && *told == shown,
{
    law_description_repeats_the_fields(*tx, shown);
    let told = *update->NewTx_0;
    law_description_repeats_the_fields(*tx, told);
    law_bytes_tell_the_address(told.sender, shown.sender);
    assert(told.hash =~= shown.hash);
    assert(told.value == shown.value);
    assert(told.receiver == shown.receiver);
}

/// Whatever hash and sender were found, they are shown next to the fields of the transaction.
pub proof fn law_findings_stand_next_to_the_fields(
    tx: &Transaction,
    hash: B256,
    sender: Option<Address>,
    shown: TxAnalysisResult,
)
    requires
        call_ensures(describe_transaction, (tx, hash, sender), shown),
    ensures
        shown.hash == hash,
        shown.sender == sender,
        match *tx {
            Transaction::Legacy(t) => {
                &&& shown.tx_type == TxType::Legacy
                &&& shown.receiver == t.to
                &&& shown.value == t.value
                &&& shown.gas_limit == t.gas_limit
                &&& shown.gas_price_or_max_fee == Some(t.gas_price)
                &&& shown.max_priority_fee is None
                &&& shown.input_len == t.input@.len()
            },
            Transaction::Eip2930(t) => {
                &&& shown.tx_type == TxType::Eip2930
                &&& shown.receiver == t.to
                &&& shown.value == t.value
                &&& shown.gas_limit == t.gas_limit
                &&& shown.gas_price_or_max_fee == Some(t.gas_price)
                &&& shown.max_priority_fee is None
                &&& shown.input_len == t.input@.len()
            },
            Transaction::Eip1559(t) => {
                &&& shown.tx_type == TxType::Eip1559
                &&& shown.receiver == t.to
                &&& shown.value == t.value
                &&& shown.gas_limit == t.gas_limit
                &&& shown.gas_price_or_max_fee == Some(t.max_fee_per_gas)
                &&& shown.max_priority_fee == Some(t.max_priority_fee_per_gas)
                &&& shown.input_len == t.input@.len()
            },
            Transaction::Eip4844(t) => {
                &&& shown.tx_type == TxType::Eip4844
                &&& shown.receiver == Some(t.to)
                &&& shown.value == t.value
                &&& shown.gas_limit == t.gas_limit
                &&& shown.gas_price_or_max_fee == Some(t.max_fee_per_gas)
                &&& shown.max_priority_fee == Some(t.max_priority_fee_per_gas)
                &&& shown.input_len == t.input@.len()
            },
            Transaction::Eip7702(t) => {
                &&& shown.tx_type == TxType::Eip7702
                &&& shown.receiver == Some(t.to)
                &&& shown.value == t.value
                &&& shown.gas_limit == t.gas_limit
                &&& shown.gas_price_or_max_fee == Some(t.max_fee_per_gas)
                &&& shown.max_priority_fee == Some(t.max_priority_fee_per_gas)
                &&& shown.input_len == t.input@.len()
            },
        },
{
    match *tx {
        Transaction::Legacy(t) => {
            law_numbers_tell_the_limbs(shown.value, t.value);
            law_bytes_tell_the_address(shown.receiver, t.to);
        },
        Transaction::Eip2930(t) => {
            law_numbers_tell_the_limbs(shown.value, t.value);
            law_bytes_tell_the_address(shown.receiver, t.to);
        },
        Transaction::Eip1559(t) => {
            law_numbers_tell_the_limbs(shown.value, t.value);
            law_bytes_tell_the_address(shown.receiver, t.to);
        },
        Transaction::Eip4844(t) => {
            law_numbers_tell_the_limbs(shown.value, t.value);
            law_bytes_tell_the_address(shown.receiver, Some(t.to));
        },
        Transaction::Eip7702(t) => {
            law_numbers_tell_the_limbs(shown.value, t.value);
            law_bytes_tell_the_address(shown.receiver, Some(t.to));
        },
    }
}

} // verus!
