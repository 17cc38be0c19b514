use eth_p2p_crawler::analysis::{analyze_transaction, describe_transaction, new_tx_update};
use eth_p2p_crawler::primitives::{Address, B256, U256};
use eth_p2p_crawler::transaction::{
    AccountAccess, CodeAuthorization, Signature, Transaction, TransactionSigned, TxEip1559,
    TxEip2930, TxEip4844, TxEip7702, TxLegacy, TxType,
};
use eth_p2p_crawler::types::UiUpdate;

fn bytes(hex: &str) -> Vec<u8> {
    let digits: Vec<u32> = hex.chars().map(|c| c.to_digit(16).unwrap()).collect();
    digits.chunks(2).map(|pair| (pair[0] * 16 + pair[1]) as u8).collect()
}

fn address(hex: &str) -> Address {
    bytes(hex).try_into().unwrap()
}

fn hash(hex: &str) -> B256 {
    bytes(hex).try_into().unwrap()
}

fn number(hex: &str) -> U256 {
    let be: Vec<u8> = bytes(hex);
    let mut limbs: [u64; 4] = [0; 4];
    for (i, byte) in be.iter().rev().enumerate() {
        limbs[i / 8] |= u64::from(*byte) << (8 * (i % 8));
    }
    U256 { limbs }
}

fn signature(r: &str, s: &str, odd_y_parity: bool) -> Signature {
    Signature { r: number(r), s: number(s), odd_y_parity }
}

fn access_list() -> Vec<AccountAccess> {
    vec![
        AccountAccess { address: [0x11; 20], storage_keys: vec![[1; 32], [2; 32]] },
        AccountAccess { address: [0x22; 20], storage_keys: vec![] },
    ]
}

const SIGNER: &str = "2c7536e3605d9c16a7a3d7b1898e529396a65c23";
const R: &str = "9377c312145a5afb911bf9e8c067bcf6094c533603687850df502b61290bbf5e";

fn legacy() -> TransactionSigned {
    TransactionSigned {
        transaction: Transaction::Legacy(TxLegacy {
            chain_id: Some(1),
            nonce: 0x18,
            gas_price: 0xfa56ea00,
            gas_limit: 119902,
            to: Some(address("06012c8cf97bead5deae237070f9587f8e7a266d")),
            value: U256::from_u64(0x1c6bf526340000),
            input: bytes("f7d8c88300000000000000000000000000000000000000000000000000000000000cee6100000000000000000000000000000000000000000000000000000000000ac3e1"),
        }),
        signature: signature(
            "2a378831cf81d99a3f06a18ae1b6ca366817ab4d88a70053c41d7a8f0368e031",
            "450d831a05b6e418724436c05c155e0a1b7b921015d0fbc2f667aed709ac4fb5",
            false,
        ),
    }
}

fn eip2930() -> TransactionSigned {
    TransactionSigned {
        transaction: Transaction::Eip2930(TxEip2930 {
            chain_id: 1,
            nonce: 7,
            gas_price: 30_000_000_000,
            gas_limit: 21000,
            to: Some([0x33; 20]),
            value: U256::from_u64(1_000_000_000_000_000_005),
            access_list: access_list(),
            input: bytes("deadbeef"),
        }),
        signature: signature(
            R,
            "732b5c0c987196f057830daa77f0eee81fdc4c2e88ffc8922825ee477a0cf3c3",
            true,
        ),
    }
}

fn eip1559() -> TransactionSigned {
    TransactionSigned {
        transaction: Transaction::Eip1559(TxEip1559 {
            chain_id: 1,
            nonce: 0x42,
            gas_limit: 44386,
            max_fee_per_gas: 0x4a817c800,
            max_priority_fee_per_gas: 0x3b9aca00,
            to: Some(address("6069a6c32cf691f5982febae4faf8a6f3ab2f0f6")),
            value: U256::from_u64(0),
            access_list: vec![],
            input: bytes("a22cb4650000000000000000000000005eee75727d804a2b13038928d36f8b188945a57a0000000000000000000000000000000000000000000000000000000000000000"),
        }),
        signature: signature(
            "840cfc572845f5786e702984c2a582528cad4b49b2a10b9db1be7fca90058565",
            "25e7109ceb98168d95b09b18bbf6b685130e0562f233877d492b94eee0c5b6d1",
            false,
        ),
    }
}

fn creation() -> TransactionSigned {
    TransactionSigned {
        transaction: Transaction::Eip1559(TxEip1559 {
            chain_id: 1,
            nonce: 3,
            gas_limit: 53000,
            max_fee_per_gas: 2,
            max_priority_fee_per_gas: 1,
            to: None,
            value: U256::from_u64(0),
            access_list: vec![],
            input: bytes("6000"),
        }),
        signature: signature(
            R,
            "5c7acb0debf8b2b019c4e02eb1a5419cb8f41d6dbe95f20aa713f6d62cf0fab1",
            true,
        ),
    }
}

fn eip4844() -> TransactionSigned {
    TransactionSigned {
        transaction: Transaction::Eip4844(TxEip4844 {
            chain_id: 0xaa36a7,
            nonce: 0xfa2,
            gas_limit: 0x5208,
            max_fee_per_gas: 0x2e90edd000,
            max_priority_fee_per_gas: 0x77359400,
            to: address("11e9ca82a3a762b4b5bd264d4173a242e7a77064"),
            value: U256::from_u64(0),
            access_list: vec![],
            blob_versioned_hashes: vec![
                hash("012ec3d6f66766bedb002a190126b3549fce0047de0d4c25cffce0dc1c57921a"),
                hash("0152d8e24762ff22b1cfd9f8c0683786a7ca63ba49973818b3d1e9512cd2cec4"),
                hash("013b98c6c83e066d5b14af2b85199e3d4fc7d1e778dd53130d180f5077e2d1c7"),
                hash("01148b495d6e859114e670ca54fb6e2657f0cbae5b08063605093a4b3dc9f8f1"),
                hash("011ac212f13c5dff2b2c6b600a79635103d6f580a4221079951181b25c7e6549"),
            ],
            max_fee_per_blob_gas: 0x4a817c800,
            input: vec![],
        }),
        signature: signature(
            "c8de4cced43169f9aa3d36506363b2d2c44f6c49fc1fd91ea114c86f3757077e",
            "1e11fdd0d1934eda0492606ee0bb80a7bf8f35cc5f86ec60fe5031ba48bfd544",
            true,
        ),
    }
}

fn eip7702(s: &str, odd_y_parity: bool) -> TransactionSigned {
    TransactionSigned {
        transaction: Transaction::Eip7702(TxEip7702 {
            chain_id: 1,
            nonce: 8,
            gas_limit: 100000,
            max_fee_per_gas: 40_000_000_000,
            max_priority_fee_per_gas: 2_000_000_000,
            to: [0x33; 20],
            value: U256::from_u64(0),
            access_list: access_list(),
            authorization_list: vec![
                CodeAuthorization {
                    chain_id: U256::from_u64(1),
                    address: [0x44; 20],
                    nonce: 9,
                    y_parity: 1,
                    r: U256::from_u64(5),
                    s: U256::from_u64(6),
                },
                CodeAuthorization {
                    chain_id: U256 { limbs: [0, 1, 0, 0] },
                    address: [0x55; 20],
                    nonce: 0,
                    y_parity: 0,
                    r: U256::from_u64(7),
                    s: U256::from_u64(8),
                },
            ],
            input: bytes("deadbeef"),
        }),
        signature: signature(R, s, odd_y_parity),
    }
}

const LOW_S: &str = "55561322c25755fa3eeacb7aa2236f033462b1a7b3b2608908d5b57b34edcf35";
const HIGH_S: &str = "aaa9ecdd3da8aa05c11534855ddc90fb864c2b3efb963fb2b6fca9119b48720c";

#[test]
fn analyzes_a_legacy_transaction() {
    let r = analyze_transaction(&legacy());
    assert_eq!(r.hash, hash("bb3a336e3f823ec18197f1e13ee875700f08f03e2cab75f0d0b118dabb44cba0"));
    assert_eq!(r.tx_type, TxType::Legacy);
    assert_eq!(r.sender, Some(address("398137383b3d25c92898c656696e41950e47316b")));
    assert_eq!(r.receiver, Some(address("06012c8cf97bead5deae237070f9587f8e7a266d")));
    assert_eq!(r.value, U256::from_u64(0x1c6bf526340000));
    assert_eq!(r.gas_limit, 119902);
    assert_eq!(r.gas_price_or_max_fee, Some(0xfa56ea00));
    assert_eq!(r.max_priority_fee, None);
    assert_eq!(r.input_len, 68);
}

#[test]
fn analyzes_a_transaction_with_an_access_list() {
    let r = analyze_transaction(&eip2930());
    assert_eq!(r.hash, hash("e1e453d5a9b1cfd90315e209046522c56fee86b24b3afff00a111edc28b47963"));
    assert_eq!(r.tx_type, TxType::Eip2930);
    assert_eq!(r.sender, Some(address(SIGNER)));
    assert_eq!(r.receiver, Some([0x33; 20]));
    assert_eq!(r.value, U256::from_u64(1_000_000_000_000_000_005));
    assert_eq!(r.gas_limit, 21000);
    assert_eq!(r.gas_price_or_max_fee, Some(30_000_000_000));
    assert_eq!(r.max_priority_fee, None);
    assert_eq!(r.input_len, 4);
}

#[test]
fn analyzes_a_transaction_with_a_fee_cap() {
    let r = analyze_transaction(&eip1559());
    assert_eq!(r.hash, hash("0ec0b6a2df4d87424e5f6ad2a654e27aaeb7dac20ae9e8385cc09087ad532ee0"));
    assert_eq!(r.tx_type, TxType::Eip1559);
    assert_eq!(r.sender, Some(address("dd6b8b3dc6b7ad97db52f08a275ff4483e024cea")));
    assert_eq!(r.gas_price_or_max_fee, Some(0x4a817c800));
    assert_eq!(r.max_priority_fee, Some(0x3b9aca00));
    assert_eq!(r.input_len, 68);
}

#[test]
fn a_creation_has_no_receiver() {
    let r = analyze_transaction(&creation());
    assert_eq!(r.hash, hash("57a56757e357fac13fe4bf526082c3a1b90a79ada21448197a61950b6244d530"));
    assert_eq!(r.sender, Some(address(SIGNER)));
    assert_eq!(r.receiver, None);
}

#[test]
fn analyzes_a_transaction_with_blobs() {
    let r = analyze_transaction(&eip4844());
    assert_eq!(r.hash, hash("9a22ccb0029bc8b0ddd073be1a1d923b7ae2b2ea52100bae0db4424f9107e9c0"));
    assert_eq!(r.tx_type, TxType::Eip4844);
    assert_eq!(r.sender, Some(address("a83c816d4f9b2783761a22ba6fadb0eb0606d7b2")));
    assert_eq!(r.receiver, Some(address("11e9ca82a3a762b4b5bd264d4173a242e7a77064")));
    assert_eq!(r.gas_price_or_max_fee, Some(0x2e90edd000));
    assert_eq!(r.max_priority_fee, Some(0x77359400));
    assert_eq!(r.input_len, 0);
}

#[test]
fn analyzes_a_transaction_with_authorizations() {
    let r = analyze_transaction(&eip7702(LOW_S, true));
    assert_eq!(r.hash, hash("2c914a752b42f683371ce7c9d91b24d31d3d17abae7f9a6813b55d23e8153837"));
    assert_eq!(r.tx_type, TxType::Eip7702);
    assert_eq!(r.sender, Some(address(SIGNER)));
    assert_eq!(r.receiver, Some([0x33; 20]));
    assert_eq!(r.gas_price_or_max_fee, Some(40_000_000_000));
    assert_eq!(r.max_priority_fee, Some(2_000_000_000));
}

#[test]
fn a_signature_with_a_high_s_has_no_signer() {
    let r = analyze_transaction(&eip7702(HIGH_S, false));
    assert_eq!(r.sender, None);
    assert_eq!(r.receiver, Some([0x33; 20]));
    assert_ne!(r.hash, hash("2c914a752b42f683371ce7c9d91b24d31d3d17abae7f9a6813b55d23e8153837"));
}

#[test]
fn a_signature_of_zeros_has_no_signer() {
    let mut tx = legacy();
    tx.signature = Signature { r: U256::from_u64(0), s: U256::from_u64(0), odd_y_parity: false };
    assert_eq!(tx.recover_signer(), None);
    assert_eq!(analyze_transaction(&tx).sender, None);
}

#[test]
fn getters_follow_the_kind() {
    let price = legacy().transaction;
    assert_eq!(price.gas_price(), Some(0xfa56ea00));
    assert_eq!(price.max_fee_per_gas(), 0xfa56ea00);
    assert_eq!(price.max_priority_fee_per_gas(), None);
    let cap = eip4844().transaction;
    assert_eq!(cap.gas_price(), None);
    assert_eq!(cap.max_fee_per_gas(), 0x2e90edd000);
    assert_eq!(cap.max_priority_fee_per_gas(), Some(0x77359400));
    assert_eq!(cap.to(), Some(address("11e9ca82a3a762b4b5bd264d4173a242e7a77064")));
    assert_eq!(eip2930().transaction.input().len(), 4);
    assert_eq!(eip2930().transaction.gas_limit(), 21000);
}

#[test]
fn a_transaction_is_told_to_the_interface() {
    match new_tx_update(&eip1559()) {
        UiUpdate::NewTx(shown) => assert_eq!(*shown, analyze_transaction(&eip1559())),
        _ => panic!("no transaction"),
    }
}

#[test]
fn the_hash_and_the_sender_are_shown_as_they_were_found() {
    let shown = describe_transaction(&eip4844().transaction, [9; 32], Some([8; 20]));
    assert_eq!(shown.hash, [9; 32]);
    assert_eq!(shown.sender, Some([8; 20]));
    let analyzed = analyze_transaction(&eip4844());
    assert_eq!(shown.gas_price_or_max_fee, analyzed.gas_price_or_max_fee);
    assert_eq!(shown.receiver, analyzed.receiver);
    assert_eq!(describe_transaction(&creation().transaction, [9; 32], None).sender, None);
}
