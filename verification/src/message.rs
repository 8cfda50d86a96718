//! The message that Ethereum RPC's `personal_sign` and `eth_sign` sign, and
//! the byte-string helpers that build it.
use vstd::prelude::*;

verus! {

/// The ASCII decimal digits of `n`, most significant first; empty for zero.
pub open spec fn decimal(n: nat) -> Seq<u8>
    decreases n,
{
    if n == 0 {
        Seq::empty()
    } else {
        decimal(n / 10) + seq![(48 + n % 10) as u8]
    }
}

/// `"\x19Ethereum Signed Message:\n"`.
pub open spec fn signed_message_header() -> Seq<u8> {
    seq![
        0x19u8, 69, 116, 104, 101, 114, 101, 117, 109, 32, 83, 105, 103, 110, 101, 100, 32, 77,
        101, 115, 115, 97, 103, 101, 58, 10,
    ]
}

/// `"dexio evm:"`, the prefix of every message that this chain signs.
pub open spec fn signing_prefix() -> Seq<u8> {
    seq![100u8, 101, 120, 105, 111, 32, 101, 118, 109, 58]
}

/// The message: the header, the decimal length of what follows it, the
/// prefix, `what` and `extra`.
pub open spec fn signable_message(what: Seq<u8>, extra: Seq<u8>) -> Seq<u8> {
    let body = signing_prefix() + what + extra;
    signed_message_header() + decimal(body.len()) + body
}

/// Appends `data` to `v`.
pub fn append_bytes(v: &mut Vec<u8>, data: &[u8])
    ensures
        final(v)@ == old(v)@ + data@,
{
    let n = data.len();
    let ghost start = v@;
    for i in 0..n
        invariant
            n == data@.len(),
            v@ == start + data@.take(i as int),
    {
        v.push(data[i]);
        assert(data@.take(i + 1) =~= data@.take(i as int).push(data@[i as int]));
    }
    assert(data@.take(n as int) =~= data@);
}

/// The ASCII decimal digits of `n`.
pub fn decimal_digits(n: usize) -> (r: Vec<u8>)
    ensures
        r@ == decimal(n as nat),
{
    let mut digits: Vec<u8> = Vec::new();
    let mut l = n;
    while l > 0
        invariant
            decimal(n as nat) == decimal(l as nat) + digits@,
        decreases l,
    {
        let d = (48 + l % 10) as u8;
        digits.insert(0, d);
        assert(decimal(l as nat) == decimal((l / 10) as nat) + seq![d]);
        l = l / 10;
    }
    assert(decimal(0) + digits@ =~= digits@);
    digits
}

} // verus!
