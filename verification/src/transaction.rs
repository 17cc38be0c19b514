//! Signed Ethereum transactions of the five kinds that peers exchange.

use crate::primitives::{Address, B256, U256};
use crate::text::decimal;
use alloy_consensus::crypto::RecoveryError;
use alloy_consensus::SignableTransaction;
use alloy_primitives::U256 as Word;
use vstd::prelude::*;

verus! {

/// The kind of a transaction.
#[derive(Clone, Copy, Debug, PartialEq, Eq, Structural)]
pub enum TxType {
    Legacy,
    Eip2930,
    Eip1559,
    Eip4844,
    Eip7702,
}

impl TxType {
    /// The name of the kind.
    pub open spec fn spec_name(self) -> Seq<char> {
        match self {
            TxType::Legacy => "Legacy"@,
            TxType::Eip2930 => "Eip2930"@,
            TxType::Eip1559 => "Eip1559"@,
            TxType::Eip4844 => "Eip4844"@,
            TxType::Eip7702 => "Eip7702"@,
        }
    }

    /// The name of the kind, as it stands in the transaction table.
    pub fn name(self) -> (r: &'static str)
        ensures
            r@ == self.spec_name(),
    {
        match self {
            TxType::Legacy => "Legacy",
            TxType::Eip2930 => "Eip2930",
            TxType::Eip1559 => "Eip1559",
            TxType::Eip4844 => "Eip4844",
            TxType::Eip7702 => "Eip7702",
        }
    }
}

/// An account, and the slots of its storage, that a transaction announces it will touch.
#[derive(Clone, Debug, PartialEq, Eq)]
pub struct AccountAccess {
    pub address: Address,
    pub storage_keys: Vec<B256>,
}

/// The signed permission of an account to run the code at `address`.
#[derive(Clone, Copy, Debug, PartialEq, Eq)]
pub struct CodeAuthorization {
    pub chain_id: U256,
    pub address: Address,
    pub nonce: u64,
    pub y_parity: u8,
    pub r: U256,
    pub s: U256,
}

/// A recoverable signature over the curve secp256k1.
#[derive(Clone, Copy, Debug, PartialEq, Eq)]
pub struct Signature {
    pub r: U256,
    pub s: U256,
    pub odd_y_parity: bool,
}

/// A transaction with a gas price. `to` is `None` where it creates a contract.
#[derive(Clone, Debug, PartialEq, Eq)]
pub struct TxLegacy {
    pub chain_id: Option<u64>,
    pub nonce: u64,
    pub gas_price: u128,
    pub gas_limit: u64,
    pub to: Option<Address>,
    pub value: U256,
    pub input: Vec<u8>,
}

/// A transaction with a gas price and an access list.
#[derive(Clone, Debug, PartialEq, Eq)]
pub struct TxEip2930 {
    pub chain_id: u64,
    pub nonce: u64,
    pub gas_price: u128,
    pub gas_limit: u64,
    pub to: Option<Address>,
    pub value: U256,
    pub access_list: Vec<AccountAccess>,
    pub input: Vec<u8>,
}

/// A transaction with a fee cap and a tip.
#[derive(Clone, Debug, PartialEq, Eq)]
pub struct TxEip1559 {
    pub chain_id: u64,
    pub nonce: u64,
    pub gas_limit: u64,
    pub max_fee_per_gas: u128,
    pub max_priority_fee_per_gas: u128,
    pub to: Option<Address>,
    pub value: U256,
    pub access_list: Vec<AccountAccess>,
    pub input: Vec<u8>,
}

/// A transaction that carries blobs. It cannot create a contract.
#[derive(Clone, Debug, PartialEq, Eq)]
pub struct TxEip4844 {
    pub chain_id: u64,
    pub nonce: u64,
    pub gas_limit: u64,
    pub max_fee_per_gas: u128,
    pub max_priority_fee_per_gas: u128,
    pub to: Address,
    pub value: U256,
    pub access_list: Vec<AccountAccess>,
    pub blob_versioned_hashes: Vec<B256>,
    pub max_fee_per_blob_gas: u128,
    pub input: Vec<u8>,
}

/// A transaction that sets the code of accounts. It cannot create a contract.
#[derive(Clone, Debug, PartialEq, Eq)]
pub struct TxEip7702 {
    pub chain_id: u64,
    pub nonce: u64,
    pub gas_limit: u64,
    pub max_fee_per_gas: u128,
    pub max_priority_fee_per_gas: u128,
    pub to: Address,
    pub value: U256,
    pub access_list: Vec<AccountAccess>,
    pub authorization_list: Vec<CodeAuthorization>,
    pub input: Vec<u8>,
}

/// A transaction without its signature.
#[derive(Clone, Debug, PartialEq, Eq)]
pub enum Transaction {
    Legacy(TxLegacy),
    Eip2930(TxEip2930),
    Eip1559(TxEip1559),
    Eip4844(TxEip4844),
    Eip7702(TxEip7702),
}

/// A transaction with its signature.
#[derive(Clone, Debug, PartialEq, Eq)]
pub struct TransactionSigned {
    pub transaction: Transaction,
    pub signature: Signature,
}

/// What a signature says, as numbers.
pub ghost struct SignatureModel {
    pub r: nat,
    pub s: nat,
    pub odd_y_parity: bool,
}

/// What an authorization says, as numbers and bytes.
pub ghost struct AuthorizationModel {
    pub chain_id: nat,
    pub address: Seq<u8>,
    pub nonce: u64,
    pub y_parity: u8,
    pub r: nat,
    pub s: nat,
}

/// What a transaction of any kind says, as numbers and bytes. A kind leaves the lists that it does
/// not have empty. `max_fee` is the gas price, or the fee cap where the kind has one.
pub ghost struct TransactionModel {
    pub tx_type: TxType,
    pub chain_id: Option<u64>,
    pub nonce: u64,
    pub gas_limit: u64,
    pub max_fee: u128,
    pub max_priority_fee: Option<u128>,
    pub to: Option<Seq<u8>>,
    pub value: nat,
    pub access_list: Seq<(Seq<u8>, Seq<Seq<u8>>)>,
    pub blob_versioned_hashes: Seq<Seq<u8>>,
    pub max_fee_per_blob_gas: Option<u128>,
    pub authorization_list: Seq<AuthorizationModel>,
    pub input: Seq<u8>,
}

/// The bytes of an optional address.
pub open spec fn address_bytes(address: Option<Address>) -> Option<Seq<u8>> {
    match address {
        Some(a) => Some(a@),
        None => None,
    }
}

/// The bytes of each hash.
pub open spec fn hash_bytes(hashes: Seq<B256>) -> Seq<Seq<u8>> {
    hashes.map_values(|h: B256| h@)
}

/// The accounts and slots of an access list.
pub open spec fn access_list_model(items: Seq<AccountAccess>) -> Seq<(Seq<u8>, Seq<Seq<u8>>)> {
    items.map_values(|item: AccountAccess| (item.address@, hash_bytes(item.storage_keys@)))
}

/// What each authorization says.
pub open spec fn authorization_list_model(items: Seq<CodeAuthorization>) -> Seq<
    AuthorizationModel,
> {
    items.map_values(|item: CodeAuthorization| item@)
}

impl View for CodeAuthorization {
    type V = AuthorizationModel;

    open spec fn view(&self) -> AuthorizationModel {
        AuthorizationModel {
            chain_id: self.chain_id.as_nat(),
            address: self.address@,
            nonce: self.nonce,
            y_parity: self.y_parity,
            r: self.r.as_nat(),
            s: self.s.as_nat(),
        }
    }
}

impl View for Signature {
    type V = SignatureModel;

    open spec fn view(&self) -> SignatureModel {
        SignatureModel {
            r: self.r.as_nat(),
            s: self.s.as_nat(),
            odd_y_parity: self.odd_y_parity,
        }
    }
}

impl View for TxLegacy {
    type V = TransactionModel;

    open spec fn view(&self) -> TransactionModel {
        TransactionModel {
            tx_type: TxType::Legacy,
            chain_id: self.chain_id,
            nonce: self.nonce,
            gas_limit: self.gas_limit,
            max_fee: self.gas_price,
            max_priority_fee: None,
            to: address_bytes(self.to),
            value: self.value.as_nat(),
            access_list: Seq::empty(),
            blob_versioned_hashes: Seq::empty(),
            max_fee_per_blob_gas: None,
            authorization_list: Seq::empty(),
            input: self.input@,
        }
    }
}

impl View for TxEip2930 {
    type V = TransactionModel;

    open spec fn view(&self) -> TransactionModel {
        TransactionModel {
            tx_type: TxType::Eip2930,
            chain_id: Some(self.chain_id),
            nonce: self.nonce,
            gas_limit: self.gas_limit,
            max_fee: self.gas_price,
            max_priority_fee: None,
            to: address_bytes(self.to),
            value: self.value.as_nat(),
            access_list: access_list_model(self.access_list@),
            blob_versioned_hashes: Seq::empty(),
            max_fee_per_blob_gas: None,
            authorization_list: Seq::empty(),
            input: self.input@,
        }
    }
}

impl View for TxEip1559 {
    type V = TransactionModel;

    open spec fn view(&self) -> TransactionModel {
        TransactionModel {
            tx_type: TxType::Eip1559,
            chain_id: Some(self.chain_id),
            nonce: self.nonce,
            gas_limit: self.gas_limit,
            max_fee: self.max_fee_per_gas,
            max_priority_fee: Some(self.max_priority_fee_per_gas),
            to: address_bytes(self.to),
            value: self.value.as_nat(),
            access_list: access_list_model(self.access_list@),
            blob_versioned_hashes: Seq::empty(),
            max_fee_per_blob_gas: None,
            authorization_list: Seq::empty(),
            input: self.input@,
        }
    }
}

impl View for TxEip4844 {
    type V = TransactionModel;

    open spec fn view(&self) -> TransactionModel {
        TransactionModel {
            tx_type: TxType::Eip4844,
            chain_id: Some(self.chain_id),
            nonce: self.nonce,
            gas_limit: self.gas_limit,
            max_fee: self.max_fee_per_gas,
            max_priority_fee: Some(self.max_priority_fee_per_gas),
            to: Some(self.to@),
            value: self.value.as_nat(),
            access_list: access_list_model(self.access_list@),
            blob_versioned_hashes: hash_bytes(self.blob_versioned_hashes@),
            max_fee_per_blob_gas: Some(self.max_fee_per_blob_gas),
            authorization_list: Seq::empty(),
            input: self.input@,
        }
    }
}

impl View for TxEip7702 {
    type V = TransactionModel;

    open spec fn view(&self) -> TransactionModel {
        TransactionModel {
            tx_type: TxType::Eip7702,
            chain_id: Some(self.chain_id),
            nonce: self.nonce,
            gas_limit: self.gas_limit,
            max_fee: self.max_fee_per_gas,
            max_priority_fee: Some(self.max_priority_fee_per_gas),
            to: Some(self.to@),
            value: self.value.as_nat(),
            access_list: access_list_model(self.access_list@),
            blob_versioned_hashes: Seq::empty(),
            max_fee_per_blob_gas: None,
            authorization_list: authorization_list_model(self.authorization_list@),
            input: self.input@,
        }
    }
}

impl View for Transaction {
    type V = TransactionModel;

    open spec fn view(&self) -> TransactionModel {
        match self {
            Transaction::Legacy(tx) => tx@,
            Transaction::Eip2930(tx) => tx@,
            Transaction::Eip1559(tx) => tx@,
            Transaction::Eip4844(tx) => tx@,
            Transaction::Eip7702(tx) => tx@,
        }
    }
}

/// The type of an access list's items in `alloy_eips`.
#[verifier::external_type_specification]
#[verifier::external_body]
pub struct ExAccessListItem(alloy_eips::eip2930::AccessListItem);

/// The authorization type of `alloy_eips`.
#[verifier::external_type_specification]
#[verifier::external_body]
pub struct ExSignedAuthorization(alloy_eips::eip7702::SignedAuthorization);

/// The error with which `alloy_consensus` refuses a signature.
#[verifier::external_type_specification]
#[verifier::external_body]
pub struct ExRecoveryError(RecoveryError);

/// The accounts and slots that a list of `alloy_eips` holds.
pub uninterp spec fn access_list_contents(
    list: Vec<alloy_eips::eip2930::AccessListItem>,
) -> Seq<(Seq<u8>, Seq<Seq<u8>>)>;

/// The authorizations that a list of `alloy_eips` holds.
pub uninterp spec fn authorization_list_contents(
    list: Vec<alloy_eips::eip7702::SignedAuthorization>,
) -> Seq<AuthorizationModel>;

/// The hash that identifies a signed transaction: that of its EIP-2718 encoding.
pub uninterp spec fn transaction_hash(tx: TransactionModel, signature: SignatureModel) -> Seq<u8>;

/// The hash that the signer of a transaction signs: that of its encoding without the signature.
pub uninterp spec fn signing_hash(tx: TransactionModel) -> Seq<u8>;

/// The address whose key made `signature` over `hash`, if there is one and the signature's `s` is
/// in the lower half of its range.
pub uninterp spec fn recovered_signer(signature: SignatureModel, hash: Seq<u8>) -> Option<Seq<u8>>;

/// Half the order of the curve secp256k1, rounded down: the highest `s` that EIP-2 accepts.
pub open spec fn half_curve_order() -> nat {
    0x7fffffffffffffffffffffffffffffff5d576e7357a4501ddfe92f46681b20a0nat
}

/// Builds `AccessListItem` values of `alloy_eips` with the given accounts and slots, in their order.
#[verifier::external_body]
fn to_access_list(items: &Vec<AccountAccess>) -> (list: Vec<alloy_eips::eip2930::AccessListItem>)
    ensures
        access_list_contents(list) == access_list_model(items@),
{
    items.iter().map(
        |item|
            alloy_eips::eip2930::AccessListItem {
                address: item.address.into(),
                storage_keys: item.storage_keys.iter().map(|key| key.into()).collect(),
            },
    ).collect()
}

/// Builds `SignedAuthorization` values of `alloy_eips` with the given parts, in their order.
#[verifier::external_body]
fn to_authorization_list(items: &Vec<CodeAuthorization>) -> (list: Vec<
    alloy_eips::eip7702::SignedAuthorization,
>)
    ensures
        authorization_list_contents(list) == authorization_list_model(items@),
{
    items.iter().map(
        |item|
            alloy_eips::eip7702::SignedAuthorization::new_unchecked(
                alloy_eips::eip7702::Authorization {
                    chain_id: Word::from_limbs(item.chain_id.limbs),
                    address: item.address.into(),
                    nonce: item.nonce,
                },
                item.y_parity,
                Word::from_limbs(item.r.limbs),
                Word::from_limbs(item.s.limbs),
            ),
    ).collect()
}

/// Builds a `Signed<TxLegacy>` of `alloy_consensus` and calls its `hash` and `signature_hash`.
#[verifier::external_body]
fn seal_legacy(tx: &TxLegacy, signature: &Signature) -> (r: (B256, B256))
    ensures
        r.0@ == transaction_hash(tx@, signature@),
        r.1@ == signing_hash(tx@),
{
    let signed = alloy_consensus::TxLegacy {
        chain_id: tx.chain_id, nonce: tx.nonce,
        gas_price: tx.gas_price, gas_limit: tx.gas_limit,
        to: tx.to.map(alloy_primitives::Address::from).into(),
        value: Word::from_limbs(tx.value.limbs),
        input: tx.input.clone().into(),
    }.into_signed(alloy_primitives::Signature::new(
        Word::from_limbs(signature.r.limbs), Word::from_limbs(signature.s.limbs),
        signature.odd_y_parity,
    ));
    (signed.hash().0, signed.signature_hash().0)
}

/// Builds a `Signed<TxEip2930>` of `alloy_consensus` and calls its `hash` and `signature_hash`.
#[verifier::external_body]
fn seal_eip2930(
    tx: &TxEip2930,
    access_list: Vec<alloy_eips::eip2930::AccessListItem>,
    signature: &Signature,
) -> (r: (B256, B256))
    requires
        access_list_contents(access_list) == tx@.access_list,
    ensures
        r.0@ == transaction_hash(tx@, signature@),
        r.1@ == signing_hash(tx@),
{
    let signed = alloy_consensus::TxEip2930 {
        chain_id: tx.chain_id, nonce: tx.nonce,
        gas_price: tx.gas_price, gas_limit: tx.gas_limit,
        to: tx.to.map(alloy_primitives::Address::from).into(),
        value: Word::from_limbs(tx.value.limbs),
        access_list: access_list.into(),
        input: tx.input.clone().into(),
    }.into_signed(alloy_primitives::Signature::new(
        Word::from_limbs(signature.r.limbs), Word::from_limbs(signature.s.limbs),
        signature.odd_y_parity,
    ));
    (signed.hash().0, signed.signature_hash().0)
}

/// Builds a `Signed<TxEip1559>` of `alloy_consensus` and calls its `hash` and `signature_hash`.
#[verifier::external_body]
fn seal_eip1559(
    tx: &TxEip1559,
    access_list: Vec<alloy_eips::eip2930::AccessListItem>,
    signature: &Signature,
) -> (r: (B256, B256))
    requires
        access_list_contents(access_list) == tx@.access_list,
    ensures
        r.0@ == transaction_hash(tx@, signature@),
        r.1@ == signing_hash(tx@),
{
    let signed = alloy_consensus::TxEip1559 {
        chain_id: tx.chain_id, nonce: tx.nonce, gas_limit: tx.gas_limit,
        max_fee_per_gas: tx.max_fee_per_gas,
        max_priority_fee_per_gas: tx.max_priority_fee_per_gas,
        to: tx.to.map(alloy_primitives::Address::from).into(),
        value: Word::from_limbs(tx.value.limbs),
        access_list: access_list.into(),
        input: tx.input.clone().into(),
    }.into_signed(alloy_primitives::Signature::new(
        Word::from_limbs(signature.r.limbs), Word::from_limbs(signature.s.limbs),
        signature.odd_y_parity,
    ));
    (signed.hash().0, signed.signature_hash().0)
}

/// Builds a `Signed<TxEip4844>` of `alloy_consensus` and calls its `hash` and `signature_hash`.
#[verifier::external_body]
fn seal_eip4844(
    tx: &TxEip4844,
    access_list: Vec<alloy_eips::eip2930::AccessListItem>,
    signature: &Signature,
) -> (r: (B256, B256))
    requires
        access_list_contents(access_list) == tx@.access_list,
    ensures
        r.0@ == transaction_hash(tx@, signature@),
        r.1@ == signing_hash(tx@),
{
    let signed = alloy_consensus::TxEip4844 {
        chain_id: tx.chain_id, nonce: tx.nonce, gas_limit: tx.gas_limit,
        max_fee_per_gas: tx.max_fee_per_gas,
        max_priority_fee_per_gas: tx.max_priority_fee_per_gas,
        to: tx.to.into(), value: Word::from_limbs(tx.value.limbs),
        access_list: access_list.into(),
        blob_versioned_hashes: tx.blob_versioned_hashes.iter().map(|hash| hash.into()).collect(),
        max_fee_per_blob_gas: tx.max_fee_per_blob_gas,
        input: tx.input.clone().into(),
    }.into_signed(alloy_primitives::Signature::new(
        Word::from_limbs(signature.r.limbs), Word::from_limbs(signature.s.limbs),
        signature.odd_y_parity,
    ));
    (signed.hash().0, signed.signature_hash().0)
}

/// Builds a `Signed<TxEip7702>` of `alloy_consensus` and calls its `hash` and `signature_hash`.
#[verifier::external_body]
fn seal_eip7702(
    tx: &TxEip7702,
    access_list: Vec<alloy_eips::eip2930::AccessListItem>,
    authorization_list: Vec<alloy_eips::eip7702::SignedAuthorization>,
    signature: &Signature,
) -> (r: (B256, B256))
    requires
        access_list_contents(access_list) == tx@.access_list,
        authorization_list_contents(authorization_list) == tx@.authorization_list,
    ensures
        r.0@ == transaction_hash(tx@, signature@),
        r.1@ == signing_hash(tx@),
{
    let signed = alloy_consensus::TxEip7702 {
        chain_id: tx.chain_id, nonce: tx.nonce, gas_limit: tx.gas_limit,
        max_fee_per_gas: tx.max_fee_per_gas,
        max_priority_fee_per_gas: tx.max_priority_fee_per_gas,
        to: tx.to.into(), value: Word::from_limbs(tx.value.limbs),
        access_list: access_list.into(),
        authorization_list,
        input: tx.input.clone().into(),
    }.into_signed(alloy_primitives::Signature::new(
        Word::from_limbs(signature.r.limbs), Word::from_limbs(signature.s.limbs),
        signature.odd_y_parity,
    ));
    (signed.hash().0, signed.signature_hash().0)
}

/// Calls `recover_signer` of `alloy_consensus`, which refuses a signature whose `s` is above half
/// the order of the curve, and otherwise recovers the public key and gives its address.
#[verifier::external_body]
fn recover_address(signature: &Signature, hash: &B256) -> (r: Result<Address, RecoveryError>)
    ensures
        recovered_signer(signature@, hash@) == (match r {
            Ok(address) => Some(address@),
            Err(_) => None,
        }),
        signature@.s > half_curve_order() ==> r is Err,
{
    let signature = alloy_primitives::Signature::new(
        Word::from_limbs(signature.r.limbs),
        Word::from_limbs(signature.s.limbs),
        signature.odd_y_parity,
    );
    match alloy_consensus::crypto::secp256k1::recover_signer(&signature, hash.into()) {
        Ok(address) => Ok(address.into_array()),
        Err(error) => Err(error),
    }
}

impl Transaction {
    /// The kind of the transaction.
    pub fn tx_type(&self) -> (r: TxType)
        ensures
            r == self@.tx_type,
            match *self {
                Transaction::Legacy(_) => r == TxType::Legacy,
                Transaction::Eip2930(_) => r == TxType::Eip2930,
                Transaction::Eip1559(_) => r == TxType::Eip1559,
                Transaction::Eip4844(_) => r == TxType::Eip4844,
                Transaction::Eip7702(_) => r == TxType::Eip7702,
            },
    {
        match self {
            Transaction::Legacy(_) => TxType::Legacy,
            Transaction::Eip2930(_) => TxType::Eip2930,
            Transaction::Eip1559(_) => TxType::Eip1559,
            Transaction::Eip4844(_) => TxType::Eip4844,
            Transaction::Eip7702(_) => TxType::Eip7702,
        }
    }

    /// The account that is called, or `None` where the transaction creates a contract.
    pub fn to(&self) -> (r: Option<Address>)
        ensures
            address_bytes(r) == self@.to,
            match *self {
                Transaction::Legacy(t) => r == t.to,
                Transaction::Eip2930(t) => r == t.to,
                Transaction::Eip1559(t) => r == t.to,
                Transaction::Eip4844(t) => r == Some(t.to),
                Transaction::Eip7702(t) => r == Some(t.to),
            },
    {
        match self {
            Transaction::Legacy(tx) => tx.to,
            Transaction::Eip2930(tx) => tx.to,
            Transaction::Eip1559(tx) => tx.to,
            Transaction::Eip4844(tx) => Some(tx.to),
            Transaction::Eip7702(tx) => Some(tx.to),
        }
    }

    /// The amount that is transferred, in wei.
    pub fn value(&self) -> (r: U256)
        ensures
            r.as_nat() == self@.value,
            match *self {
                Transaction::Legacy(t) => r == t.value,
                Transaction::Eip2930(t) => r == t.value,
                Transaction::Eip1559(t) => r == t.value,
                Transaction::Eip4844(t) => r == t.value,
                Transaction::Eip7702(t) => r == t.value,
            },
    {
        match self {
            Transaction::Legacy(tx) => tx.value,
            Transaction::Eip2930(tx) => tx.value,
            Transaction::Eip1559(tx) => tx.value,
            Transaction::Eip4844(tx) => tx.value,
            Transaction::Eip7702(tx) => tx.value,
        }
    }

    /// The most gas that the transaction may use.
    pub fn gas_limit(&self) -> (r: u64)
        ensures
            r == self@.gas_limit,
            match *self {
                Transaction::Legacy(t) => r == t.gas_limit,
                Transaction::Eip2930(t) => r == t.gas_limit,
                Transaction::Eip1559(t) => r == t.gas_limit,
                Transaction::Eip4844(t) => r == t.gas_limit,
                Transaction::Eip7702(t) => r == t.gas_limit,
            },
    {
        match self {
            Transaction::Legacy(tx) => tx.gas_limit,
            Transaction::Eip2930(tx) => tx.gas_limit,
            Transaction::Eip1559(tx) => tx.gas_limit,
            Transaction::Eip4844(tx) => tx.gas_limit,
            Transaction::Eip7702(tx) => tx.gas_limit,
        }
    }

    /// The input data.
    pub fn input(&self) -> (r: &Vec<u8>)
        ensures
            r@ == self@.input,
            match *self {
                Transaction::Legacy(t) => r == t.input,
                Transaction::Eip2930(t) => r == t.input,
                Transaction::Eip1559(t) => r == t.input,
                Transaction::Eip4844(t) => r == t.input,
                Transaction::Eip7702(t) => r == t.input,
            },
    {
        match self {
            Transaction::Legacy(tx) => &tx.input,
            Transaction::Eip2930(tx) => &tx.input,
            Transaction::Eip1559(tx) => &tx.input,
            Transaction::Eip4844(tx) => &tx.input,
            Transaction::Eip7702(tx) => &tx.input,
        }
    }

    /// The gas price, of the two kinds that have one.
    pub fn gas_price(&self) -> (r: Option<u128>)
        ensures
            r == (if self@.max_priority_fee is None {
                Some(self@.max_fee)
            } else {
                None
            }),
            match *self {
                Transaction::Legacy(t) => r == Some(t.gas_price),
                Transaction::Eip2930(t) => r == Some(t.gas_price),
                _ => r is None,
            },
    {
        match self {
            Transaction::Legacy(tx) => Some(tx.gas_price),
            Transaction::Eip2930(tx) => Some(tx.gas_price),
            _ => None,
        }
    }

    /// The fee cap, or the gas price where the kind has no cap.
    pub fn max_fee_per_gas(&self) -> (r: u128)
        ensures
            r == self@.max_fee,
            match *self {
                Transaction::Legacy(t) => r == t.gas_price,
                Transaction::Eip2930(t) => r == t.gas_price,
                Transaction::Eip1559(t) => r == t.max_fee_per_gas,
                Transaction::Eip4844(t) => r == t.max_fee_per_gas,
                Transaction::Eip7702(t) => r == t.max_fee_per_gas,
            },
    {
        match self {
            Transaction::Legacy(tx) => tx.gas_price,
            Transaction::Eip2930(tx) => tx.gas_price,
            Transaction::Eip1559(tx) => tx.max_fee_per_gas,
            Transaction::Eip4844(tx) => tx.max_fee_per_gas,
            Transaction::Eip7702(tx) => tx.max_fee_per_gas,
        }
    }

    /// The tip, of the three kinds that have one.
    pub fn max_priority_fee_per_gas(&self) -> (r: Option<u128>)
        ensures
            r == self@.max_priority_fee,
            match *self {
                Transaction::Legacy(_) => r is None,
                Transaction::Eip2930(_) => r is None,
                Transaction::Eip1559(t) => r == Some(t.max_priority_fee_per_gas),
                Transaction::Eip4844(t) => r == Some(t.max_priority_fee_per_gas),
                Transaction::Eip7702(t) => r == Some(t.max_priority_fee_per_gas),
            },
    {
        match self {
            Transaction::Legacy(_) => None,
            Transaction::Eip2930(_) => None,
            Transaction::Eip1559(tx) => Some(tx.max_priority_fee_per_gas),
            Transaction::Eip4844(tx) => Some(tx.max_priority_fee_per_gas),
            Transaction::Eip7702(tx) => Some(tx.max_priority_fee_per_gas),
        }
    }
}

impl TransactionSigned {
    /// The hash that identifies the transaction, as a function of what it says.
    pub open spec fn spec_hash(self) -> Seq<u8> {
        transaction_hash(self.transaction@, self.signature@)
    }

    /// The address that signed the transaction, if the signature allows to tell.
    pub open spec fn spec_signer(self) -> Option<Seq<u8>> {
        recovered_signer(self.signature@, signing_hash(self.transaction@))
    }

    /// The transaction's hash, and the hash that was signed.
    fn seal(&self) -> (r: (B256, B256))
        ensures
            r.0@ == self.spec_hash(),
            r.1@ == signing_hash(self.transaction@),
    {
        match &self.transaction {
            Transaction::Legacy(tx) => seal_legacy(tx, &self.signature),
            Transaction::Eip2930(tx) => seal_eip2930(
                tx,
                to_access_list(&tx.access_list),
                &self.signature,
            ),
            Transaction::Eip1559(tx) => seal_eip1559(
                tx,
                to_access_list(&tx.access_list),
                &self.signature,
            ),
            Transaction::Eip4844(tx) => seal_eip4844(
                tx,
                to_access_list(&tx.access_list),
                &self.signature,
            ),
            Transaction::Eip7702(tx) => seal_eip7702(
                tx,
                to_access_list(&tx.access_list),
                to_authorization_list(&tx.authorization_list),
                &self.signature,
            ),
        }
    }

    /// The hash that identifies the transaction.
    pub fn hash(&self) -> (r: B256)
        ensures
            r@ == self.spec_hash(),
    {
        self.seal().0
    }

    /// The address that signed the transaction. There is none where the signature matches no key,
    /// or where its `s` is above half the order of the curve.
    pub fn recover_signer(&self) -> (r: Option<Address>)
        ensures
            address_bytes(r) == self.spec_signer(),
            self.signature@.s > half_curve_order() ==> r is None,
    {
        match recover_address(&self.signature, &self.seal().1) {
            Ok(address) => Some(address),
            Err(_) => None,
        }
    }
}

/// Whether `model` has the bytes of each hash, in the same places.
pub open spec fn same_hashes(model: Seq<Seq<u8>>, hashes: Seq<B256>) -> bool {
    &&& model.len() == hashes.len()
    &&& forall|i: int| 0 <= i < hashes.len() ==> #[trigger] model[i] == hashes[i]@
}

/// Whether `model` has the address and the slots of each item, in the same places.
pub open spec fn same_accesses(
    model: Seq<(Seq<u8>, Seq<Seq<u8>>)>,
    items: Seq<AccountAccess>,
) -> bool {
    &&& model.len() == items.len()
    &&& forall|i: int|
        0 <= i < items.len() ==> (#[trigger] model[i]).0 == items[i].address@ && same_hashes(
            model[i].1,
            items[i].storage_keys@,
        )
}

/// Whether `model` has the parts of each authorization, in the same places.
pub open spec fn same_authorizations(
    model: Seq<AuthorizationModel>,
    items: Seq<CodeAuthorization>,
) -> bool {
    &&& model.len() == items.len()
    &&& forall|i: int|
        0 <= i < items.len() ==> {
            &&& (#[trigger] model[i]).chain_id == items[i].chain_id.as_nat()
            &&& model[i].address == items[i].address@
            &&& model[i].nonce == items[i].nonce
            &&& model[i].y_parity == items[i].y_parity
            &&& model[i].r == items[i].r.as_nat()
            &&& model[i].s == items[i].s.as_nat()
        }
}

/// What a transaction says is what stands in its fields, each under its own name, and nothing in
/// the places of the fields that its kind does not have.
pub proof fn law_model_tells_the_fields(tx: Transaction)
    ensures
        ({
            let m = tx@;
            match tx {
                Transaction::Legacy(t) => {
                    &&& m.tx_type == TxType::Legacy
                    &&& m.chain_id == t.chain_id
                    &&& m.nonce == t.nonce
                    &&& m.gas_limit == t.gas_limit
                    &&& m.max_fee == t.gas_price
                    &&& m.max_priority_fee is None
                    &&& (m.to is None <==> t.to is None)
                    &&& (t.to matches Some(a) ==> m.to == Some(a@))
                    &&& m.value == t.value.as_nat()
                    &&& m.access_list.len() == 0
                    &&& m.blob_versioned_hashes.len() == 0
                    &&& m.max_fee_per_blob_gas is None
                    &&& m.authorization_list.len() == 0
                    &&& m.input == t.input@
                },
                Transaction::Eip2930(t) => {
                    &&& m.tx_type == TxType::Eip2930
                    &&& m.chain_id == Some(t.chain_id)
                    &&& m.nonce == t.nonce
                    &&& m.gas_limit == t.gas_limit
                    &&& m.max_fee == t.gas_price
                    &&& m.max_priority_fee is None
                    &&& (m.to is None <==> t.to is None)
                    &&& (t.to matches Some(a) ==> m.to == Some(a@))
                    &&& m.value == t.value.as_nat()
                    &&& same_accesses(m.access_list, t.access_list@)
                    &&& m.blob_versioned_hashes.len() == 0
                    &&& m.max_fee_per_blob_gas is None
                    &&& m.authorization_list.len() == 0
                    &&& m.input == t.input@
                },
                Transaction::Eip1559(t) => {
                    &&& m.tx_type == TxType::Eip1559
                    &&& m.chain_id == Some(t.chain_id)
                    &&& m.nonce == t.nonce
                    &&& m.gas_limit == t.gas_limit
                    &&& m.max_fee == t.max_fee_per_gas
                    &&& m.max_priority_fee == Some(t.max_priority_fee_per_gas)
                    &&& (m.to is None <==> t.to is None)
                    &&& (t.to matches Some(a) ==> m.to == Some(a@))
                    &&& m.value == t.value.as_nat()
                    &&& same_accesses(m.access_list, t.access_list@)
                    &&& m.blob_versioned_hashes.len() == 0
                    &&& m.max_fee_per_blob_gas is None
                    &&& m.authorization_list.len() == 0
                    &&& m.input == t.input@
                },
                Transaction::Eip4844(t) => {
                    &&& m.tx_type == TxType::Eip4844
                    &&& m.chain_id == Some(t.chain_id)
                    &&& m.nonce == t.nonce
                    &&& m.gas_limit == t.gas_limit
                    &&& m.max_fee == t.max_fee_per_gas
                    &&& m.max_priority_fee == Some(t.max_priority_fee_per_gas)
                    &&& m.to == Some(t.to@)
                    &&& m.value == t.value.as_nat()
                    &&& same_accesses(m.access_list, t.access_list@)
                    &&& same_hashes(m.blob_versioned_hashes, t.blob_versioned_hashes@)
                    &&& m.max_fee_per_blob_gas == Some(t.max_fee_per_blob_gas)
                    &&& m.authorization_list.len() == 0
                    &&& m.input == t.input@
                },
                Transaction::Eip7702(t) => {
                    &&& m.tx_type == TxType::Eip7702
                    &&& m.chain_id == Some(t.chain_id)
                    &&& m.nonce == t.nonce
                    &&& m.gas_limit == t.gas_limit
                    &&& m.max_fee == t.max_fee_per_gas
                    &&& m.max_priority_fee == Some(t.max_priority_fee_per_gas)
                    &&& m.to == Some(t.to@)
                    &&& m.value == t.value.as_nat()
                    &&& same_accesses(m.access_list, t.access_list@)
                    &&& m.blob_versioned_hashes.len() == 0
                    &&& m.max_fee_per_blob_gas is None
                    &&& same_authorizations(m.authorization_list, t.authorization_list@)
                    &&& m.input == t.input@
                },
            }
        }),
{
}

/// What a signature says is what stands in its fields.
pub proof fn law_signature_model_tells_the_fields(signature: Signature)
    ensures
        signature@.r == signature.r.as_nat(),
        signature@.s == signature.s.as_nat(),
        signature@.odd_y_parity == signature.odd_y_parity,
{
}

/// Two addresses with the same bytes are the same.
pub proof fn law_bytes_tell_the_address(a: Option<Address>, b: Option<Address>)
    requires
        address_bytes(a) == address_bytes(b),
    ensures
        a == b,
{
    if let (Some(x), Some(y)) = (a, b) {
        assert(x =~= y);
    }
}

/// The hash of a signed transaction is that of what its fields say, and it is the same for two
/// transactions that say the same.
pub proof fn law_hash_is_that_of_the_contents(tx: &TransactionSigned, hash: B256)
    requires
        call_ensures(TransactionSigned::hash, (tx,), hash),
    ensures
        hash@ == transaction_hash(tx.transaction@, tx.signature@),
{
}

/// The signer of a transaction is whoever made its signature over the hash of its contents. One
/// is told exactly where there is one, and none where `s` is in the upper half of its range.
pub proof fn law_signer_made_the_signature(tx: &TransactionSigned, signer: Option<Address>)
    requires
        call_ensures(TransactionSigned::recover_signer, (tx,), signer),
    ensures
        signer is Some <==> recovered_signer(tx.signature@, signing_hash(tx.transaction@)) is Some,
        signer matches Some(a) ==> recovered_signer(tx.signature@, signing_hash(tx.transaction@))
            == Some(a@),
        tx.signature.s.as_nat() > crate::identity::curve_order() / 2 ==> signer is None,
{
}

/// A kind is named after the EIP that brought it; the kind that is older than EIPs is `Legacy`.
pub proof fn law_kinds_are_named_after_their_eip(kind: TxType, name: &'static str)
    requires
        call_ensures(TxType::name, (kind,), name),
    ensures
        kind == TxType::Legacy ==> name@ == "Legacy"@,
        kind == TxType::Eip2930 ==> name@ == "Eip"@ + decimal(2930),
        kind == TxType::Eip1559 ==> name@ == "Eip"@ + decimal(1559),
        kind == TxType::Eip4844 ==> name@ == "Eip"@ + decimal(4844),
        kind == TxType::Eip7702 ==> name@ == "Eip"@ + decimal(7702),
{
    reveal_strlit("Eip");
    reveal_strlit("Eip2930");
    reveal_strlit("Eip1559");
    reveal_strlit("Eip4844");
    reveal_strlit("Eip7702");
    reveal_with_fuel(decimal, 4);
    assert("Eip2930"@ =~= "Eip"@ + decimal(2930));
    assert("Eip1559"@ =~= "Eip"@ + decimal(1559));
    assert("Eip4844"@ =~= "Eip"@ + decimal(4844));
    assert("Eip7702"@ =~= "Eip"@ + decimal(7702));
}

} // verus!
