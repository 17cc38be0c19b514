use eth_p2p_crawler::identity::{local_peer_id, peer_id_of_public_key};

fn bytes(hex: &str) -> Vec<u8> {
    let digits: Vec<u32> = hex.chars().map(|c| c.to_digit(16).unwrap()).collect();
    digits.chunks(2).map(|pair| (pair[0] * 16 + pair[1]) as u8).collect()
}

#[test]
fn the_peer_id_is_the_public_key_without_its_tag() {
    let secret: [u8; 32] =
        bytes("4c0883a69102937d6231471b5dbb6204fe5129617082792ae468d01a3f362318")
            .try_into()
            .unwrap();
    let id = local_peer_id(&secret).unwrap();
    assert_eq!(
        id.to_vec(),
        bytes("4e3b81af9c2234cad09d679ce6035ed1392347ce64ce405f5dcd36228a25de6e47fd35c4215d1edf53e6f83de344615ce719bdb0fd878f6ed76f06dd277956de")
    );
}

#[test]
fn only_numbers_below_the_order_are_keys() {
    assert!(local_peer_id(&[0; 32]).is_none());
    assert!(local_peer_id(&[0xff; 32]).is_none());
    let order: [u8; 32] =
        bytes("fffffffffffffffffffffffffffffffebaaedce6af48a03bbfd25e8cd0364141")
            .try_into()
            .unwrap();
    assert!(local_peer_id(&order).is_none());
    let mut below: [u8; 32] = order;
    below[31] -= 1;
    assert!(local_peer_id(&below).is_some());
}

#[test]
fn the_tag_is_dropped() {
    let mut key: [u8; 65] = [7; 65];
    key[0] = 4;
    key[1] = 8;
    key[64] = 9;
    let id = peer_id_of_public_key(&key);
    assert_eq!(id[0], 8);
    assert_eq!(id[1], 7);
    assert_eq!(id[63], 9);
}
