//! Legacy Ethereum transactions as the pallet builds them for
//! `origin_transact`.
use vstd::prelude::*;
use crate::crypto::{be_value, secp256k1_order};
use crate::evm_accounts::EvmAddress;

verus! {

/// The parity (`0` or `1`) that a legacy `v` value stands for, or `4` when
/// `v` is neither `27`, `28` nor an EIP-155 value above `36`.
pub open spec fn standard_v(v: u64) -> u64 {
    if v == 27 || v == 28 || v > 36 {
        ((v - 1) % 2) as u64
    } else {
        4
    }
}

/// Whether `(v, r, s)` is a legacy transaction signature: `v` stands for a
/// parity, and `r` and `s`, read big-endian, lie in `1 .. n`.
pub open spec fn signature_is_valid(v: u64, r: Seq<u8>, s: Seq<u8>) -> bool {
    &&& standard_v(v) <= 1
    &&& 1 <= be_value(r) < secp256k1_order()
    &&& 1 <= be_value(s) < secp256k1_order()
}

/// `ethereum::legacy::TransactionSignature::new`: it gives `Some` exactly
/// when `v` stands for a parity and `r`, `s` are big-endian values in
/// `1 .. n`; the result tells whether it did.
#[verifier::external_body]
fn transaction_signature_accepts(v: u64, r: &[u8; 32], s: &[u8; 32]) -> (ok: bool)
    ensures
        ok == signature_is_valid(v, r@, s@),
{
    ethereum::legacy::TransactionSignature::new(v, (*r).into(), (*s).into()).is_some()
}

/// The `(v, r, s)` signature of a legacy transaction.
#[derive(Clone, Copy, Debug, PartialEq, Eq)]
pub struct TransactionSignature {
    pub v: u64,
    pub r: [u8; 32],
    pub s: [u8; 32],
}

impl TransactionSignature {
    /// The signature `(v, r, s)`, if it is a valid one.
    pub fn new(v: u64, r: [u8; 32], s: [u8; 32]) -> (sig: Option<TransactionSignature>)
        ensures
            sig is Some <==> signature_is_valid(v, r@, s@),
            sig matches Some(t) ==> t.v == v && t.r == r && t.s == s,
    {
        if transaction_signature_accepts(v, &r, &s) {
            Some(TransactionSignature { v, r, s })
        } else {
            None
        }
    }
}

/// What a transaction does: call the contract at an address, or create one.
#[derive(Clone, Copy, Debug, PartialEq, Eq)]
pub enum TransactionAction {
    Call(EvmAddress),
    Create,
}

/// A legacy Ethereum transaction. `nonce`, `gas_limit` and `value` are the
/// low bits of the transaction's 256-bit fields; `gas_price` is its 256-bit
/// big-endian value.
#[derive(Clone, Debug, PartialEq, Eq)]
pub struct Transaction {
    pub nonce: u64,
    pub gas_price: [u8; 32],
    pub gas_limit: u64,
    pub action: TransactionAction,
    pub value: u128,
    pub input: Vec<u8>,
    pub signature: TransactionSignature,
}

/// The fields of the legacy transaction that `raw` is the RLP encoding of:
/// nonce, gas price, gas limit (each as 32 big-endian bytes), the called
/// address (`None` for a contract creation), value (32 big-endian bytes),
/// input, and the signature's `v`, `r` and `s`; `None` when `raw` encodes no
/// legacy transaction with a valid signature.
pub uninterp spec fn rlp_legacy_transaction(raw: Seq<u8>) -> Option<
    (Seq<u8>, Seq<u8>, Seq<u8>, Option<Seq<u8>>, Seq<u8>, Seq<u8>, u64, Seq<u8>, Seq<u8>),
>;

/// A legacy Ethereum transaction as it arrives RLP-encoded: every 256-bit
/// field as its 32 big-endian bytes.
#[derive(Clone, Debug, PartialEq, Eq)]
pub struct RawTransaction {
    pub nonce: [u8; 32],
    pub gas_price: [u8; 32],
    pub gas_limit: [u8; 32],
    pub action: TransactionAction,
    pub value: [u8; 32],
    pub input: Vec<u8>,
    pub signature: TransactionSignature,
}

impl View for RawTransaction {
    type V = (Seq<u8>, Seq<u8>, Seq<u8>, Option<Seq<u8>>, Seq<u8>, Seq<u8>, u64, Seq<u8>, Seq<u8>);

    open spec fn view(&self) -> Self::V {
        (
            self.nonce@,
            self.gas_price@,
            self.gas_limit@,
            match self.action {
                TransactionAction::Call(a) => Some(a@),
                TransactionAction::Create => None,
            },
            self.value@,
            self.input@,
            self.signature.v,
            self.signature.r@,
            self.signature.s@,
        )
    }
}

/// `<ethereum::TransactionV0 as ethereum::EnvelopedDecodable>::decode`, the
/// RLP decoding of a legacy transaction: `Ok` becomes `Some` of its fields,
/// an error `None`; both are named by `rlp_legacy_transaction`. A decoded
/// transaction's signature passed `TransactionSignature::new`.
#[verifier::external_body]
pub(crate) fn decode_legacy_transaction(raw: &[u8]) -> (t: Option<RawTransaction>)
    ensures
        t is Some <==> rlp_legacy_transaction(raw@) is Some,
        t matches Some(x) ==> Some(x@) == rlp_legacy_transaction(raw@),
        t matches Some(x) ==> signature_is_valid(x.signature.v, x.signature.r@, x.signature.s@),
{
    match <ethereum::TransactionV0 as ethereum::EnvelopedDecodable>::decode(raw) {
        Ok(t) => Some(RawTransaction {
            nonce: t.nonce.to_big_endian(), gas_price: t.gas_price.to_big_endian(),
            gas_limit: t.gas_limit.to_big_endian(), value: t.value.to_big_endian(),
            action: match t.action {
                ethereum::TransactionAction::Call(a) => TransactionAction::Call(a.0),
                ethereum::TransactionAction::Create => TransactionAction::Create,
            },
            signature: TransactionSignature { v: t.signature.v(), r: t.signature.r().0, s: t.signature.s().0 },
            input: t.input,
        }),
        Err(_) => None,
    }
}

} // verus!
