//! Ethereum-style signing of messages, recovery of the signing address, and
//! the secret keys that sign.
use vstd::prelude::*;
use crate::crypto::{
    keccak_256, keccak_256_digest, secp256k1_ecdsa_recover, secp256k1_public_key,
    secp256k1_public_key_of, secp256k1_recovered_key, secp256k1_secret_key_parses, secp256k1_sign,
    secp256k1_signature, secret_key_in_range,
};
use crate::evm_accounts::{EcdsaSignature, EvmAddress, Pallet};
use crate::hex::{ascii_hex, to_ascii_hex};
use crate::message::{append_bytes, decimal_digits, signable_message, signed_message_header, signing_prefix};

verus! {

/// The Ethereum address of a 64-byte public key: the last 20 bytes of its
/// Keccak digest.
pub open spec fn address_of_public(public: Seq<u8>) -> Seq<u8> {
    keccak_256_digest(public).subrange(12, 32)
}

/// The address that signed `what` and `extra` with signature `sig`, if the
/// signature recovers to a public key.
pub open spec fn recovered_address(sig: Seq<u8>, what: Seq<u8>, extra: Seq<u8>) -> Option<Seq<u8>> {
    match secp256k1_recovered_key(sig, keccak_256_digest(signable_message(what, extra))) {
        Some(public) => Some(address_of_public(public)),
        None => None,
    }
}

/// The Ethereum address of a secret key.
pub open spec fn address_of_secret(secret: Seq<u8>) -> Seq<u8> {
    address_of_public(secp256k1_public_key(secret).subrange(1, 65))
}

/// The 65-byte RSV signature that a secret key makes of the message for the
/// hex encoding of `what`, and `extra`.
pub open spec fn signature_of(secret: Seq<u8>, what: Seq<u8>, extra: Seq<u8>) -> Seq<u8> {
    let sig = secp256k1_signature(
        keccak_256_digest(signable_message(ascii_hex(what), extra)),
        secret,
    );
    sig.0.push(sig.1)
}

/// A secp256k1 secret key: 32 bytes whose big-endian value lies in `1 .. n`.
pub struct SecretKey {
    bytes: [u8; 32],
}

impl View for SecretKey {
    type V = Seq<u8>;

    closed spec fn view(&self) -> Seq<u8> {
        self.bytes@
    }
}

impl SecretKey {
    #[verifier::type_invariant]
    spec fn in_range(self) -> bool {
        secret_key_in_range(self.bytes@)
    }

    /// The secret key that `bytes` spell, if their value is in range.
    pub fn parse(bytes: &[u8; 32]) -> (key: Option<SecretKey>)
        ensures
            key is Some <==> secret_key_in_range(bytes@),
            key matches Some(k) ==> k@ == bytes@,
    {
        if secp256k1_secret_key_parses(bytes) {
            Some(SecretKey { bytes: *bytes })
        } else {
            None
        }
    }

    /// The 32 bytes of the key.
    pub fn serialize(&self) -> (bytes: [u8; 32])
        ensures
            bytes@ == self@,
            secret_key_in_range(bytes@),
    {
        proof {
            use_type_invariant(self);
        }
        self.bytes
    }
}

/// The bytes `src[start..end]`.
pub fn bytes_range(src: &[u8], start: usize, end: usize) -> (r: Vec<u8>)
    requires
        start <= end <= src@.len(),
    ensures
        r@ == src@.subrange(start as int, end as int),
{
    let mut r: Vec<u8> = Vec::new();
    let mut i = start;
    while i < end
        invariant
            start <= i <= end <= src@.len(),
            r@ == src@.subrange(start as int, i as int),
        decreases end - i,
    {
        r.push(src[i]);
        assert(src@.subrange(start as int, i + 1) =~= src@.subrange(start as int, i as int).push(
            src@[i as int],
        ));
        i = i + 1;
    }
    r
}

/// The address held in the last 20 bytes of a 32-byte digest.
pub fn address_from_digest(digest: &[u8; 32]) -> (address: EvmAddress)
    ensures
        address@ == digest@.subrange(12, 32),
{
    let mut address = [0u8; 20];
    let mut i: usize = 0;
    while i < 20
        invariant
            i <= 20,
            digest@.len() == 32,
            address@.len() == 20,
            forall|j: int| 0 <= j < i ==> address@[j] == digest@[12 + j],
        decreases 20 - i,
    {
        address[i] = digest[12 + i];
        i = i + 1;
    }
    assert(address@ =~= digest@.subrange(12, 32));
    address
}

fn join_signature(rs: &[u8; 64], v: u8) -> (sig: EcdsaSignature)
    ensures
        sig@ == rs@.push(v),
{
    let mut sig = [0u8; 65];
    let mut i: usize = 0;
    while i < 64
        invariant
            i <= 64,
            rs@.len() == 64,
            sig@.len() == 65,
            forall|j: int| 0 <= j < i ==> sig@[j] == rs@[j],
        decreases 64 - i,
    {
        sig[i] = rs[i];
        i = i + 1;
    }
    sig[64] = v;
    assert(sig@ =~= rs@.push(v));
    sig
}

impl Pallet {
    /// Constructs the message that Ethereum RPC's `personal_sign` and
    /// `eth_sign` would sign: the signed-message header, the decimal length
    /// of the rest, `"dexio evm:"`, `what` and `extra`.
    pub fn ethereum_signable_message(what: &[u8], extra: &[u8]) -> (v: Vec<u8>)
        requires
            10 + what@.len() + extra@.len() <= usize::MAX,
        ensures
            v@ == signable_message(what@, extra@),
    {
        let prefix: Vec<u8> = vec![100u8, 101, 120, 105, 111, 32, 101, 118, 109, 58];
        assert(prefix@ =~= signing_prefix());
        let l = prefix.len() + what.len() + extra.len();
        let mut v: Vec<u8> = vec![
            0x19u8, 69, 116, 104, 101, 114, 101, 117, 109, 32, 83, 105, 103, 110, 101, 100, 32, 77,
            101, 115, 115, 97, 103, 101, 58, 10,
        ];
        assert(v@ =~= signed_message_header());
        let digits = decimal_digits(l);
        append_bytes(&mut v, digits.as_slice());
        append_bytes(&mut v, prefix.as_slice());
        append_bytes(&mut v, what);
        append_bytes(&mut v, extra);
        assert(v@ =~= signable_message(what@, extra@));
        v
    }

    /// Recovers the Ethereum address that signed `what` and `extra` (the
    /// message of `ethereum_signable_message`) with `s`; `None` when the
    /// signature recovers no public key.
    pub fn eth_recover(s: &EcdsaSignature, what: &[u8], extra: &[u8]) -> (address: Option<EvmAddress>)
        requires
            10 + what@.len() + extra@.len() <= usize::MAX,
        ensures
            address is Some <==> recovered_address(s@, what@, extra@) is Some,
            address matches Some(a) ==> Some(a@) == recovered_address(s@, what@, extra@),
    {
        let msg = keccak_256(Self::ethereum_signable_message(what, extra).as_slice());
        match secp256k1_ecdsa_recover(s, &msg) {
            Some(public) => {
                let digest = keccak_256(public.as_slice());
                Some(address_from_digest(&digest))
            },
            None => None,
        }
    }

    /// The 65-byte serialized public key of a secret key.
    pub fn eth_public(secret: &SecretKey) -> (public: [u8; 65])
        ensures
            public@ == secp256k1_public_key(secret@),
    {
        let bytes = secret.serialize();
        secp256k1_public_key_of(&bytes)
    }

    /// The Ethereum address of a secret key.
    pub fn eth_address(secret: &SecretKey) -> (address: EvmAddress)
        ensures
            address@ == address_of_secret(secret@),
    {
        let public = Self::eth_public(secret);
        let key = bytes_range(public.as_slice(), 1, 65);
        let digest = keccak_256(key.as_slice());
        address_from_digest(&digest)
    }

    /// Signs the message for the hex encoding of `what`, and `extra`. The
    /// signature recovers, on that hex encoding and `extra`, to the
    /// key's address.
    pub fn eth_sign(secret: &SecretKey, what: &[u8], extra: &[u8]) -> (sig: EcdsaSignature)
        requires
            10 + 2 * what@.len() + extra@.len() <= usize::MAX,
        ensures
            sig@ == signature_of(secret@, what@, extra@),
            sig@[64] < 4,
            recovered_address(sig@, ascii_hex(what@), extra@) == Some(address_of_secret(secret@)),
    {
        let hex = to_ascii_hex(what);
        let msg = keccak_256(Self::ethereum_signable_message(hex.as_slice(), extra).as_slice());
        let bytes = secret.serialize();
        let (rs, v) = secp256k1_sign(&msg, &bytes);
        join_signature(&rs, v)
    }
}

} // verus!
