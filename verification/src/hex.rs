//! Lower-case ASCII hex encoding of bytes.
use vstd::prelude::*;

verus! {

/// The ASCII character of a hex digit `n` (`0..16`), lower case.
pub open spec fn hex_char(n: u8) -> u8 {
    if n < 10 { (48 + n) as u8 } else { (87 + n) as u8 }
}

/// The lower-case ASCII hex encoding of `data`: each byte becomes its high
/// nibble's digit followed by its low nibble's digit.
pub open spec fn ascii_hex(data: Seq<u8>) -> Seq<u8>
    decreases data.len(),
{
    if data.len() == 0 {
        Seq::empty()
    } else {
        let b = data.last();
        ascii_hex(data.drop_last()) + seq![hex_char(b / 16), hex_char(b % 16)]
    }
}

fn nibble_char(n: u8) -> (c: u8)
    requires
        n < 16,
    ensures
        c == hex_char(n),
{
    if n < 10 { 48 + n } else { 87 + n }
}

/// Converts the given binary data into ASCII-encoded hex. It will be twice
/// the length.
pub fn to_ascii_hex(data: &[u8]) -> (r: Vec<u8>)
    ensures
        r@ == ascii_hex(data@),
        r@.len() == 2 * data@.len(),
{
    let mut r: Vec<u8> = Vec::new();
    let n = data.len();
    for i in 0..n
        invariant
            n == data@.len(),
            r@ == ascii_hex(data@.take(i as int)),
            r@.len() == 2 * i,
    {
        let b = data[i];
        r.push(nibble_char(b / 16));
        r.push(nibble_char(b % 16));
        assert(data@.take(i + 1).drop_last() =~= data@.take(i as int));
    }
    assert(data@.take(n as int) =~= data@);
    r
}

} // verus!
