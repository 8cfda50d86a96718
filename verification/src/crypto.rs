//! Hashing and secp256k1 primitives, each one call into `sp_io` or
//! `libsecp256k1`, with what the library relies on stated over plain bytes.
use vstd::prelude::*;

verus! {

/// The unsigned integer that `bytes` spells in big-endian order.
pub open spec fn be_value(bytes: Seq<u8>) -> nat
    decreases bytes.len(),
{
    if bytes.len() == 0 {
        0
    } else {
        be_value(bytes.drop_last()) * 256 + bytes.last() as nat
    }
}

/// A run of zero bytes has value zero.
pub proof fn lemma_be_value_of_zeros(n: nat)
    ensures
        be_value(Seq::new(n, |i: int| 0u8)) == 0,
    decreases n,
{
    if n > 0 {
        assert(Seq::new(n, |i: int| 0u8).drop_last() =~= Seq::new((n - 1) as nat, |i: int| 0u8));
        lemma_be_value_of_zeros((n - 1) as nat);
    }
}

/// Zero bytes followed by a one have value one.
pub proof fn lemma_be_value_of_one(s: Seq<u8>)
    requires
        s == Seq::new(31, |i: int| 0u8).push(1u8),
    ensures
        be_value(s) == 1,
{
    assert(s.drop_last() =~= Seq::new(31, |i: int| 0u8));
    lemma_be_value_of_zeros(31);
}

/// The order `n` of the secp256k1 group.
pub open spec fn secp256k1_order() -> nat {
    0xFFFFFFFFFFFFFFFFFFFFFFFFFFFFFFFEBAAEDCE6AF48A03BBFD25E8CD0364141nat
}

/// One lies below the group order.
pub proof fn lemma_one_below_order()
    ensures
        1 < secp256k1_order(),
{
}

/// A 32-byte string is a secp256k1 secret key when, read big-endian, it lies
/// in `1 .. n`.
pub open spec fn secret_key_in_range(bytes: Seq<u8>) -> bool {
    0 < be_value(bytes) < secp256k1_order()
}

/// The 256-bit Keccak digest of `data`.
pub uninterp spec fn keccak_256_digest(data: Seq<u8>) -> Seq<u8>;

/// The 256-bit Blake2b digest of `data`.
pub uninterp spec fn blake2_256_digest(data: Seq<u8>) -> Seq<u8>;

/// The 64-byte public key (without its `0x04` tag) recovered from a 65-byte
/// RSV signature of a 32-byte message, or `None` when recovery fails.
pub uninterp spec fn secp256k1_recovered_key(sig: Seq<u8>, msg: Seq<u8>) -> Option<Seq<u8>>;

/// The 65-byte uncompressed public key (tag `0x04`, then x, then y) of a
/// secret key.
pub uninterp spec fn secp256k1_public_key(secret: Seq<u8>) -> Seq<u8>;

/// The 64-byte compact signature (r then s) and the recovery id that
/// deterministic (RFC 6979) signing of a 32-byte message yields.
pub uninterp spec fn secp256k1_signature(msg: Seq<u8>, secret: Seq<u8>) -> (Seq<u8>, u8);

/// `sp_io::hashing::keccak_256`: the result is named `keccak_256_digest`.
#[verifier::external_body]
pub(crate) fn keccak_256(data: &[u8]) -> (digest: [u8; 32])
    ensures
        digest@ == keccak_256_digest(data@),
{
    sp_io::hashing::keccak_256(data)
}

/// `sp_io::hashing::blake2_256`: the result is named `blake2_256_digest`.
#[verifier::external_body]
pub(crate) fn blake2_256(data: &[u8]) -> (digest: [u8; 32])
    ensures
        digest@ == blake2_256_digest(data@),
{
    sp_io::hashing::blake2_256(data)
}

/// `sp_io::crypto::secp256k1_ecdsa_recover`: `Ok` becomes `Some`, any error
/// `None`; both are named by `secp256k1_recovered_key`.
#[verifier::external_body]
pub(crate) fn secp256k1_ecdsa_recover(sig: &[u8; 65], msg: &[u8; 32]) -> (key: Option<[u8; 64]>)
    ensures
        key is Some <==> secp256k1_recovered_key(sig@, msg@) is Some,
        key matches Some(k) ==> k@ == secp256k1_recovered_key(sig@, msg@).unwrap(),
{
    sp_io::crypto::secp256k1_ecdsa_recover(sig, msg).ok()
}

/// `libsecp256k1::SecretKey::parse`: it accepts exactly the big-endian
/// values in `1 .. n`; the result tells whether it accepted `bytes`.
#[verifier::external_body]
pub(crate) fn secp256k1_secret_key_parses(bytes: &[u8; 32]) -> (ok: bool)
    ensures
        ok == secret_key_in_range(bytes@),
{
    libsecp256k1::SecretKey::parse(bytes).is_ok()
}

/// `libsecp256k1::PublicKey::from_secret_key`, serialized in its 65-byte
/// form; the result is named `secp256k1_public_key`. The secret key is
/// parsed first, which cannot fail on a key in range.
#[verifier::external_body]
pub(crate) fn secp256k1_public_key_of(secret: &[u8; 32]) -> (public: [u8; 65])
    requires
        secret_key_in_range(secret@),
    ensures
        public@ == secp256k1_public_key(secret@),
{
    let key = libsecp256k1::SecretKey::parse(secret).unwrap();
    libsecp256k1::PublicKey::from_secret_key(&key).serialize()
}

/// `libsecp256k1::sign`: the compact signature and the recovery id are named
/// by `secp256k1_signature`. The recovery id lies in `0 .. 4`, and ECDSA
/// public key recovery of the signature (with the recovery id as its last
/// byte) on the same message gives back the signer's public key without its
/// tag byte.
#[verifier::external_body]
pub(crate) fn secp256k1_sign(msg: &[u8; 32], secret: &[u8; 32]) -> (sig: ([u8; 64], u8))
    requires
        secret_key_in_range(secret@),
    ensures
        (sig.0@, sig.1) == secp256k1_signature(msg@, secret@),
        sig.1 < 4,
        secp256k1_recovered_key(sig.0@.push(sig.1), msg@) == Some(
            secp256k1_public_key(secret@).subrange(1, 65),
        ),
{
    let key = libsecp256k1::SecretKey::parse(secret).unwrap();
    let (signature, recovery_id) = libsecp256k1::sign(&libsecp256k1::Message::parse(msg), &key);
    (signature.serialize(), recovery_id.serialize())
}

} // verus!
