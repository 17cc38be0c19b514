//! The identity under which the crawler takes part in the network.

use crate::primitives::PeerId;
use crate::transaction::half_curve_order;
use vstd::prelude::*;

verus! {

/// The number that the bytes stand for, the most significant one first.
pub open spec fn big_endian(bytes: Seq<u8>) -> nat
    decreases bytes.len(),
{
    if bytes.len() == 0 {
        0
    } else {
        big_endian(bytes.drop_last()) * 256 + bytes.last() as nat
    }
}

/// The order of the curve secp256k1.
pub open spec fn curve_order() -> nat {
    0xfffffffffffffffffffffffffffffffebaaedce6af48a03bbfd25e8cd0364141nat
}

/// Whether the bytes are a secret key: a positive number below the order of the curve.
pub open spec fn is_secret_key(bytes: Seq<u8>) -> bool {
    0 < big_endian(bytes) < curve_order()
}

/// The error with which `secp256k1` refuses a key.
#[verifier::external_type_specification]
#[verifier::external_body]
pub struct ExSecpError(secp256k1::Error);

/// The public key that belongs to a secret key, uncompressed: a tag, then both coordinates.
pub uninterp spec fn public_key_of(secret_key: Seq<u8>) -> Seq<u8>;

/// Calls `SecretKey::from_byte_array` of `secp256k1`, which refuses what is not a positive number
/// below the order of the curve, then `public_key` and `serialize_uncompressed`.
#[verifier::external_body]
fn uncompressed_public_key(secret_key: &[u8; 32]) -> (r: Result<[u8; 65], secp256k1::Error>)
    ensures
        r is Ok <==> is_secret_key(secret_key@),
        r matches Ok(key) ==> key@ == public_key_of(secret_key@),
{
    let secret = secp256k1::SecretKey::from_byte_array(secret_key)?;
    Ok(secret.public_key(&secp256k1::Secp256k1::new()).serialize_uncompressed())
}

/// The peer id that belongs to an uncompressed public key: the key without its tag.
pub fn peer_id_of_public_key(public_key: &[u8; 65]) -> (r: PeerId)
    ensures
        r@ == public_key@.subrange(1, 65),
{
    let mut r: PeerId = [0u8; 64];
    for i in 0..64usize
        invariant
            forall|j: int| 0 <= j < i ==> r@[j] == public_key@[j + 1],
    {
        r[i] = public_key[i + 1];
    }
    assert(r@ =~= public_key@.subrange(1, 65));
    r
}

/// The peer id under which the owner of the secret key is known, or `None` where the bytes are no
/// secret key.
pub fn local_peer_id(secret_key: &[u8; 32]) -> (r: Option<PeerId>)
    ensures
        r is Some <==> is_secret_key(secret_key@),
        r matches Some(id) ==> id@ == public_key_of(secret_key@).subrange(1, 65),
{
    match uncompressed_public_key(secret_key) {
        Ok(public_key) => Some(peer_id_of_public_key(&public_key)),
        Err(_) => None,
    }
}

/// The number grows by a digit to the base 256 with each byte that is appended.
pub proof fn law_bytes_are_digits(bytes: Seq<u8>, next: u8)
    ensures
        big_endian(Seq::empty()) == 0,
        big_endian(bytes.push(next)) == 256 * big_endian(bytes) + next,
{
    assert(bytes.push(next).drop_last() =~= bytes);
}

/// The highest `s` that is accepted of a signature is half the order of the curve: above it lie
/// the mirror images of those below.
pub proof fn law_half_the_order(s: nat)
    requires
        0 < s < curve_order(),
    ensures
        s <= half_curve_order() <==> curve_order() - s > half_curve_order(),
{
}

/// A peer id is told exactly for the numbers from one to the order of the curve, and it is the
/// public key without the tag in front.
pub proof fn law_peer_id_is_the_public_key(secret_key: &[u8; 32], id: Option<PeerId>)
    requires
        call_ensures(local_peer_id, (secret_key,), id),
    ensures
        id is Some <==> 1 <= big_endian(secret_key@)
            <= 0xfffffffffffffffffffffffffffffffebaaedce6af48a03bbfd25e8cd0364140nat,
        id matches Some(i) ==> forall|j: int|
            0 <= j < 64 ==> #[trigger] i@[j] == public_key_of(secret_key@).subrange(1, 65)[j],
{
}

/// Byte by byte, the peer id is what stands behind the tag.
pub proof fn law_tag_is_dropped(public_key: &[u8; 65], id: PeerId)
    requires
        call_ensures(peer_id_of_public_key, (public_key,), id),
    ensures
        forall|j: int| 0 <= j < 64 ==> #[trigger] id@[j] == public_key@[j + 1],
{
}

} // verus!
