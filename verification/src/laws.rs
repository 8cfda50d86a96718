//! Properties that relate the library's operations to one another.
use vstd::prelude::*;
use crate::evm_accounts::{
    Error,
    account_id_of, claim_error, default_claim_error, default_evm_address, evm_address_of, evm_prefix,
    get_or_create_outcome, padded_account_id, AccountBalance,
};
use crate::hex::{ascii_hex, hex_char};
use crate::randomness::{random_outcome, read_word, u32_word, ExitError};
use crate::signing::{address_of_public, recovered_address, signature_of};
use crate::crypto::{
    blake2_256_digest, keccak_256_digest, secp256k1_recovered_key, secp256k1_signature,
};
use crate::message::{decimal, signable_message};
use crate::crypto::be_value;

verus! {

/// The hex encoding is twice as long as the data.
pub proof fn ascii_hex_doubles_length(data: Seq<u8>)
    ensures
        ascii_hex(data).len() == 2 * data.len(),
    decreases data.len(),
{
    if data.len() > 0 {
        ascii_hex_doubles_length(data.drop_last());
    }
}

proof fn hex_char_injective(a: u8, b: u8)
    requires
        a < 16,
        b < 16,
        hex_char(a) == hex_char(b),
    ensures
        a == b,
{
}

/// Distinct data have distinct hex encodings, so the message that a claim
/// signs names one account only.
pub proof fn ascii_hex_is_injective(a: Seq<u8>, b: Seq<u8>)
    requires
        ascii_hex(a) == ascii_hex(b),
    ensures
        a == b,
    decreases a.len(),
{
    ascii_hex_doubles_length(a);
    ascii_hex_doubles_length(b);
    if a.len() > 0 {
        let x = a.last();
        let y = b.last();
        let ha = ascii_hex(a.drop_last());
        let hb = ascii_hex(b.drop_last());
        ascii_hex_doubles_length(a.drop_last());
        ascii_hex_doubles_length(b.drop_last());
        let sa = ha + seq![hex_char(x / 16), hex_char(x % 16)];
        let sb = hb + seq![hex_char(y / 16), hex_char(y % 16)];
        assert(sa[sa.len() - 2] == sb[sb.len() - 2]);
        assert(sa[sa.len() - 1] == sb[sb.len() - 1]);
        hex_char_injective(x / 16, y / 16);
        hex_char_injective(x % 16, y % 16);
        assert(x == y);
        assert(ha =~= sa.subrange(0, sa.len() - 2));
        assert(hb =~= sb.subrange(0, sb.len() - 2));
        ascii_hex_is_injective(a.drop_last(), b.drop_last());
        assert(a =~= a.drop_last().push(x));
        assert(b =~= b.drop_last().push(y));
    } else {
        assert(b.len() == 0);
        assert(a =~= b);
    }
}

/// After an accepted claim, the account maps to the address and the address
/// back to the account.
pub proof fn claim_links_both_ways(
    accounts: Map<Seq<u8>, Seq<u8>>,
    evm_addresses: Map<Seq<u8>, Seq<u8>>,
    who: Seq<u8>,
    eth_address: Seq<u8>,
)
    ensures
        account_id_of(accounts.insert(eth_address, who), eth_address) == who,
        evm_address_of(evm_addresses.insert(who, eth_address), who) == Some(eth_address),
{
}

/// A claim is accepted only when neither the account nor the address was
/// mapped before: no claim overwrites a mapping.
pub proof fn claim_never_overwrites(
    accounts: Map<Seq<u8>, Seq<u8>>,
    evm_addresses: Map<Seq<u8>, Seq<u8>>,
    who: Seq<u8>,
    eth_address: Seq<u8>,
    eth_signature: Seq<u8>,
    source: Option<AccountBalance>,
)
    requires
        claim_error(accounts, evm_addresses, who, eth_address, eth_signature, source) is None,
    ensures
        !accounts.contains_key(eth_address),
        !evm_addresses.contains_key(who),
{
}

/// A claim backed by a signature that the claimed address made of the
/// claiming account's hex encoding, with nothing mapped yet and no reserved
/// balance to merge, is accepted.
pub proof fn claim_with_owners_signature_is_accepted(
    accounts: Map<Seq<u8>, Seq<u8>>,
    evm_addresses: Map<Seq<u8>, Seq<u8>>,
    who: Seq<u8>,
    eth_address: Seq<u8>,
    eth_signature: Seq<u8>,
    source: Option<AccountBalance>,
)
    requires
        !accounts.contains_key(eth_address),
        !evm_addresses.contains_key(who),
        recovered_address(eth_signature, ascii_hex(who), Seq::empty()) == Some(eth_address),
        source matches Some(balance) ==> balance.reserved == 0,
    ensures
        claim_error(accounts, evm_addresses, who, eth_address, eth_signature, source) is None,
{
}

/// After `get_or_create_evm_address`, the account's EVM address is the one it
/// returned, and the two are linked.
pub proof fn get_or_create_then_get(
    accounts: Map<Seq<u8>, Seq<u8>>,
    evm_addresses: Map<Seq<u8>, Seq<u8>>,
    who: Seq<u8>,
    address: Seq<u8>,
    accounts_after: Map<Seq<u8>, Seq<u8>>,
    evm_addresses_after: Map<Seq<u8>, Seq<u8>>,
)
    requires
        get_or_create_outcome(
            accounts,
            evm_addresses,
            who,
            address,
            accounts_after,
            evm_addresses_after,
        ),
    ensures
        evm_address_of(evm_addresses_after, who) == Some(address),
{
}

/// A second `get_or_create_evm_address` returns the first one's address and
/// changes nothing.
pub proof fn get_or_create_is_idempotent(
    accounts: Map<Seq<u8>, Seq<u8>>,
    evm_addresses: Map<Seq<u8>, Seq<u8>>,
    who: Seq<u8>,
    first: Seq<u8>,
    accounts_1: Map<Seq<u8>, Seq<u8>>,
    evm_addresses_1: Map<Seq<u8>, Seq<u8>>,
    second: Seq<u8>,
    accounts_2: Map<Seq<u8>, Seq<u8>>,
    evm_addresses_2: Map<Seq<u8>, Seq<u8>>,
)
    requires
        get_or_create_outcome(accounts, evm_addresses, who, first, accounts_1, evm_addresses_1),
        get_or_create_outcome(
            accounts_1,
            evm_addresses_1,
            who,
            second,
            accounts_2,
            evm_addresses_2,
        ),
    ensures
        second == first,
        accounts_2 == accounts_1,
        evm_addresses_2 == evm_addresses_1,
{
    get_or_create_then_get(accounts, evm_addresses, who, first, accounts_1, evm_addresses_1);
}

/// An address that `Accounts` does not map stands for its padded account id,
/// and that id gives the address back, unless a claim mapped the id itself.
pub proof fn padded_account_round_trip(
    accounts: Map<Seq<u8>, Seq<u8>>,
    evm_addresses: Map<Seq<u8>, Seq<u8>>,
    address: Seq<u8>,
)
    requires
        address.len() == 20,
        !accounts.contains_key(address),
        !evm_addresses.contains_key(padded_account_id(address)),
    ensures
        evm_address_of(evm_addresses, account_id_of(accounts, address)) == Some(address),
{
    let id = padded_account_id(address);
    assert(id.subrange(0, 4) =~= evm_prefix());
    assert(id.subrange(4, 24) =~= address);
}

/// Once an account that claimed an address is killed, neither mapping
/// remembers the claim.
pub proof fn killed_account_forgets_claim(
    accounts: Map<Seq<u8>, Seq<u8>>,
    evm_addresses: Map<Seq<u8>, Seq<u8>>,
    who: Seq<u8>,
    eth_address: Seq<u8>,
)
    ensures
        ({
            let accounts_1 = accounts.insert(eth_address, who);
            let evm_addresses_1 = evm_addresses.insert(who, eth_address);
            let accounts_2 = accounts_1.remove(default_evm_address(who)).remove(
                evm_addresses_1[who],
            );
            let evm_addresses_2 = evm_addresses_1.remove(who);
            &&& !accounts_2.contains_key(eth_address)
            &&& !evm_addresses_2.contains_key(who)
        }),
{
}

/// A word written after some data reads back from where it was written.
pub proof fn written_word_reads_back(data: Seq<u8>, word: Seq<u8>)
    requires
        word.len() == 32,
        data.len() + 32 <= usize::MAX,
    ensures
        read_word(data + word, data.len()) == Ok::<Seq<u8>, crate::randomness::ExitError>(word),
{
    assert((data + word).subrange(data.len() as int, data.len() + 32int) =~= word);
}

/// The answer of `random` reads back as its seed and its block number.
pub proof fn random_answer_reads_back(seed: Seq<u8>, block_number: u32)
    requires
        seed.len() == 32,
    ensures
        read_word(seed + u32_word(block_number), 0) == Ok::<
            Seq<u8>,
            crate::randomness::ExitError,
        >(seed),
        read_word(seed + u32_word(block_number), 32) == Ok::<
            Seq<u8>,
            crate::randomness::ExitError,
        >(u32_word(block_number)),
{
    written_word_reads_back(Seq::empty(), seed);
    assert(Seq::<u8>::empty() + seed =~= seed);
    let out = seed + u32_word(block_number);
    assert(out.subrange(0, 32) =~= seed);
    assert(out.subrange(32, 64) =~= u32_word(block_number));
}

/// Each mapping is the other's inverse: every mapped address maps back to
/// its account, and every mapped account back to its address.
pub open spec fn mappings_are_inverse(
    accounts: Map<Seq<u8>, Seq<u8>>,
    evm_addresses: Map<Seq<u8>, Seq<u8>>,
) -> bool {
    &&& forall|a: Seq<u8>| #[trigger]
        accounts.contains_key(a) ==> evm_addresses.contains_key(accounts[a])
            && evm_addresses[accounts[a]] == a
    &&& forall|w: Seq<u8>| #[trigger]
        evm_addresses.contains_key(w) ==> accounts.contains_key(evm_addresses[w])
            && accounts[evm_addresses[w]] == w
}

/// Recording a link between an unmapped account and an unmapped address, as
/// an accepted claim does, keeps the mappings inverse.
pub proof fn linking_keeps_mappings_inverse(
    accounts: Map<Seq<u8>, Seq<u8>>,
    evm_addresses: Map<Seq<u8>, Seq<u8>>,
    who: Seq<u8>,
    eth_address: Seq<u8>,
)
    requires
        mappings_are_inverse(accounts, evm_addresses),
        !accounts.contains_key(eth_address),
        !evm_addresses.contains_key(who),
    ensures
        mappings_are_inverse(accounts.insert(eth_address, who), evm_addresses.insert(who, eth_address)),
{
    let acc = accounts.insert(eth_address, who);
    let evm = evm_addresses.insert(who, eth_address);
    assert forall|a: Seq<u8>| #[trigger] acc.contains_key(a) implies evm.contains_key(acc[a])
        && evm[acc[a]] == a by {
        if a != eth_address {
            assert(accounts.contains_key(a));
            assert(evm_addresses.contains_key(accounts[a]));
        }
    }
    assert forall|w: Seq<u8>| #[trigger] evm.contains_key(w) implies acc.contains_key(evm[w])
        && acc[evm[w]] == w by {
        if w != who {
            assert(evm_addresses.contains_key(w));
            assert(accounts.contains_key(evm_addresses[w]));
        }
    }
}

/// `get_or_create_evm_address` keeps the mappings inverse, unless the
/// address it generates is already mapped (to another account).
pub proof fn get_or_create_keeps_mappings_inverse(
    accounts: Map<Seq<u8>, Seq<u8>>,
    evm_addresses: Map<Seq<u8>, Seq<u8>>,
    who: Seq<u8>,
    address: Seq<u8>,
    accounts_after: Map<Seq<u8>, Seq<u8>>,
    evm_addresses_after: Map<Seq<u8>, Seq<u8>>,
)
    requires
        mappings_are_inverse(accounts, evm_addresses),
        get_or_create_outcome(
            accounts,
            evm_addresses,
            who,
            address,
            accounts_after,
            evm_addresses_after,
        ),
        !accounts.contains_key(default_evm_address(who)),
    ensures
        mappings_are_inverse(accounts_after, evm_addresses_after),
{
    if evm_address_of(evm_addresses, who) is None {
        linking_keeps_mappings_inverse(accounts, evm_addresses, who, address);
    }
}

/// An accepted default claim keeps the mappings inverse.
pub proof fn default_claim_keeps_mappings_inverse(
    accounts: Map<Seq<u8>, Seq<u8>>,
    evm_addresses: Map<Seq<u8>, Seq<u8>>,
    who: Seq<u8>,
    address: Seq<u8>,
    accounts_after: Map<Seq<u8>, Seq<u8>>,
    evm_addresses_after: Map<Seq<u8>, Seq<u8>>,
)
    requires
        mappings_are_inverse(accounts, evm_addresses),
        default_claim_error(accounts, evm_addresses, who) is None,
        get_or_create_outcome(
            accounts,
            evm_addresses,
            who,
            address,
            accounts_after,
            evm_addresses_after,
        ),
    ensures
        mappings_are_inverse(accounts_after, evm_addresses_after),
{
    if evm_address_of(evm_addresses, who) is None {
        linking_keeps_mappings_inverse(accounts, evm_addresses, who, address);
    }
}

/// Clearing a killed account keeps the mappings inverse, unless its generated
/// address is mapped to another account.
pub proof fn killing_keeps_mappings_inverse(
    accounts: Map<Seq<u8>, Seq<u8>>,
    evm_addresses: Map<Seq<u8>, Seq<u8>>,
    who: Seq<u8>,
)
    requires
        mappings_are_inverse(accounts, evm_addresses),
        accounts.contains_key(default_evm_address(who)) ==> accounts[default_evm_address(who)]
            == who,
    ensures
        ({
            let cleared = accounts.remove(default_evm_address(who));
            if evm_addresses.contains_key(who) {
                mappings_are_inverse(
                    cleared.remove(evm_addresses[who]),
                    evm_addresses.remove(who),
                )
            } else {
                mappings_are_inverse(cleared, evm_addresses)
            }
        }),
{
    let d = default_evm_address(who);
    let cleared = accounts.remove(d);
    if evm_addresses.contains_key(who) {
        let x = evm_addresses[who];
        let acc = cleared.remove(x);
        let evm = evm_addresses.remove(who);
        assert(accounts.contains_key(x) && accounts[x] == who);
        assert forall|a: Seq<u8>| #[trigger] acc.contains_key(a) implies evm.contains_key(acc[a])
            && evm[acc[a]] == a by {
            assert(accounts.contains_key(a));
            assert(evm_addresses.contains_key(accounts[a]));
        }
        assert forall|w: Seq<u8>| #[trigger] evm.contains_key(w) implies acc.contains_key(evm[w])
            && acc[evm[w]] == w by {
            assert(evm_addresses.contains_key(w));
            assert(accounts.contains_key(evm_addresses[w]));
        }
    } else {
        if accounts.contains_key(d) {
            assert(evm_addresses.contains_key(accounts[d]));
        }
        assert(cleared =~= accounts);
    }
}

/// The lower-case hex digit of a nibble: `'0'` to `'9'`, then `'a'` to `'f'`.
pub open spec fn lowercase_digit(n: int) -> u8 {
    if 0 <= n < 10 {
        (0x30 + n) as u8
    } else {
        (0x61 + (n - 10)) as u8
    }
}

/// Byte `i` of the data is written, at positions `2i` and `2i + 1` of its hex
/// encoding, as the lower-case digits of its high and its low nibble.
pub proof fn ascii_hex_spells_nibbles(data: Seq<u8>, i: int)
    requires
        0 <= i < data.len(),
    ensures
        ascii_hex(data).len() == 2 * data.len(),
        ascii_hex(data)[2 * i] == lowercase_digit(data[i] as int / 16),
        ascii_hex(data)[2 * i + 1] == lowercase_digit(data[i] as int % 16),
    decreases data.len(),
{
    ascii_hex_doubles_length(data);
    let prefix = data.drop_last();
    ascii_hex_doubles_length(prefix);
    let b = data.last();
    assert(ascii_hex(data) == ascii_hex(prefix) + seq![hex_char(b / 16), hex_char(b % 16)]);
    if i < data.len() - 1 {
        ascii_hex_spells_nibbles(prefix, i);
        assert(prefix[i] == data[i]);
    } else {
        assert(data[i] == b);
    }
}

/// The signed message ends with `what` followed by `extra`, and the signer
/// recovered from a signature is the one of that whole message.
pub proof fn recovery_covers_what_and_extra(sig: Seq<u8>, what: Seq<u8>, extra: Seq<u8>)
    ensures
        ({
            let m = signable_message(what, extra);
            &&& m.len() >= what.len() + extra.len()
            &&& m.subrange(m.len() - extra.len(), m.len() as int) == extra
            &&& m.subrange(m.len() - extra.len() - what.len(), m.len() - extra.len()) == what
            &&& recovered_address(sig, what, extra) == match secp256k1_recovered_key(
                sig,
                keccak_256_digest(m),
            ) {
                Some(public) => Some(keccak_256_digest(public).subrange(12, 32)),
                None => None,
            }
        }),
{
    let m = signable_message(what, extra);
    assert(m.subrange(m.len() - extra.len(), m.len() as int) =~= extra);
    assert(m.subrange(m.len() - extra.len() - what.len(), m.len() - extra.len()) =~= what);
}

/// A signature is the secp256k1 signature, with its recovery id appended,
/// of the Keccak digest of the whole message for the hex of `what` and
/// `extra`.
pub proof fn signature_covers_what_and_extra(secret: Seq<u8>, what: Seq<u8>, extra: Seq<u8>)
    ensures
        ({
            let m = signable_message(ascii_hex(what), extra);
            &&& m.subrange(m.len() - extra.len(), m.len() as int) == extra
            &&& signature_of(secret, what, extra) == secp256k1_signature(
                keccak_256_digest(m),
                secret,
            ).0.push(secp256k1_signature(keccak_256_digest(m), secret).1)
        }),
{
    let m = signable_message(ascii_hex(what), extra);
    assert(m.subrange(m.len() - extra.len(), m.len() as int) =~= extra);
}

/// A successful `random` asks for the randomness of exactly the 32 bytes
/// at the cursor, and charges one storage read.
pub proof fn random_subject_is_the_sent_word(
    input: Seq<u8>,
    cursor: nat,
    target_gas: Option<u64>,
    db_read_gas_cost: u64,
)
    ensures
        random_outcome(input, cursor, target_gas, db_read_gas_cost) matches Ok((word, used))
            ==> cursor + 32 <= input.len() && word == input.subrange(cursor as int, cursor + 32int)
            && used == db_read_gas_cost,
        read_word(input, cursor) matches Ok(word) ==> cursor + 32 <= input.len() && word
            == input.subrange(cursor as int, cursor + 32int),
{
}

/// A padded account with any reserved balance blocks the claim; once the
/// mapping and signature checks pass, the refusal is `StillHasActiveReserved`.
pub proof fn reserved_balance_blocks_claim(
    accounts: Map<Seq<u8>, Seq<u8>>,
    evm_addresses: Map<Seq<u8>, Seq<u8>>,
    who: Seq<u8>,
    eth_address: Seq<u8>,
    eth_signature: Seq<u8>,
    balance: AccountBalance,
)
    requires
        balance.reserved != 0,
    ensures
        claim_error(accounts, evm_addresses, who, eth_address, eth_signature, Some(balance))
            is Some,
        !evm_addresses.contains_key(who) && !accounts.contains_key(eth_address) && recovered_address(
            eth_signature,
            ascii_hex(who),
            Seq::empty(),
        ) == Some(eth_address) ==> claim_error(
            accounts,
            evm_addresses,
            who,
            eth_address,
            eth_signature,
            Some(balance),
        ) == Some(Error::StillHasActiveReserved),
{
}

/// The generated address of an account id is the first 20 bytes of the
/// Blake2-256 digest of the id's bytes, in their order, followed by the
/// bytes `'e' 'v' 'm' ':'`.
pub proof fn default_address_hashes_id_then_tag(account: Seq<u8>)
    ensures
        default_evm_address(account) == blake2_256_digest(
            Seq::new(
                account.len() + 4,
                |i: int|
                    if i < account.len() {
                        account[i]
                    } else if i == account.len() {
                        0x65u8
                    } else if i == account.len() + 1 {
                        0x76u8
                    } else if i == account.len() + 2 {
                        0x6du8
                    } else {
                        0x3au8
                    },
            ),
        ).subrange(0, 20),
{
    let payload = Seq::new(
        account.len() + 4,
        |i: int|
            if i < account.len() {
                account[i]
            } else if i == account.len() {
                0x65u8
            } else if i == account.len() + 1 {
                0x76u8
            } else if i == account.len() + 2 {
                0x6du8
            } else {
                0x3au8
            },
    );
    assert(payload =~= account + evm_prefix());
}

/// The number that a string of ASCII decimal digits spells, most
/// significant first.
pub open spec fn decimal_value(digits: Seq<u8>) -> int
    decreases digits.len(),
{
    if digits.len() == 0 {
        0
    } else {
        decimal_value(digits.drop_last()) * 10 + (digits.last() - 0x30)
    }
}

/// The length field of the signed message spells its number in ASCII
/// decimal digits, most significant first, without leading zeros.
pub proof fn decimal_spells_the_number(n: nat)
    ensures
        decimal_value(decimal(n)) == n,
        forall|i: int| 0 <= i < decimal(n).len() ==> 0x30 <= #[trigger] decimal(n)[i] <= 0x39,
        n > 0 ==> decimal(n).len() > 0 && decimal(n)[0] != 0x30,
    decreases n,
{
    if n > 0 {
        decimal_spells_the_number(n / 10);
        let d = decimal(n);
        assert(d.drop_last() =~= decimal(n / 10));
        if n / 10 == 0 {
            assert(d.len() == 1);
        }
    }
}

/// The padded account id of an address is `'e' 'v' 'm' ':'`, the address's
/// bytes in their order, then eight zero bytes; an id of that shape gives the
/// address back.
pub proof fn padded_account_layout(address: Seq<u8>)
    requires
        address.len() == 20,
    ensures
        padded_account_id(address).len() == 32,
        padded_account_id(address)[0] == 0x65 && padded_account_id(address)[1] == 0x76
            && padded_account_id(address)[2] == 0x6d && padded_account_id(address)[3] == 0x3a,
        forall|i: int| 0 <= i < 20 ==> #[trigger] padded_account_id(address)[4 + i] == address[i],
        forall|i: int| 24 <= i < 32 ==> #[trigger] padded_account_id(address)[i] == 0,
        evm_address_of(Map::empty(), padded_account_id(address)) == Some(address),
{
    let id = padded_account_id(address);
    assert(id.subrange(0, 4) =~= evm_prefix());
    assert(id.subrange(4, 24) =~= address);
}

/// The ABI word of a block number spells it in big-endian order.
pub proof fn u32_word_is_big_endian(n: u32)
    ensures
        u32_word(n).len() == 32,
        be_value(u32_word(n)) == n,
{
    let w = u32_word(n);
    let a = (n / 0x1000000) as u8;
    let b = (n / 0x10000 % 0x100) as u8;
    let c = (n / 0x100 % 0x100) as u8;
    let d = (n % 0x100) as u8;
    crate::crypto::lemma_be_value_of_zeros(28);
    let z = Seq::new(28, |i: int| 0u8);
    assert(w.drop_last() =~= z + seq![a, b, c]);
    assert(w.drop_last().drop_last() =~= z + seq![a, b]);
    assert(w.drop_last().drop_last().drop_last() =~= z + seq![a]);
    assert((z + seq![a]).drop_last() =~= z);
    assert(be_value(z + seq![a]) == a);
    assert(be_value(z + seq![a, b]) == a * 256 + b);
    assert(be_value(z + seq![a, b, c]) == (a * 256 + b) * 256 + c);
    assert(be_value(w) == ((a * 256 + b) * 256 + c) * 256 + d);
    assert(((a * 256 + b) * 256 + c) * 256 + d == n) by (nonlinear_arith)
        requires
            a == n / 0x1000000,
            b == n / 0x10000 % 0x100,
            c == n / 0x100 % 0x100,
            d == n % 0x100,
            n <= 0xffffffff,
    ;
}

} // verus!
