//! A two-way mapping between Substrate accounts and EVM addresses, so that a
//! user only has to deal with one account and one private key.
use vstd::prelude::*;
use crate::crypto::blake2_256;
use crate::crypto::blake2_256_digest;
use crate::hex::{ascii_hex, to_ascii_hex};
use crate::signing::recovered_address;
use crate::storage::{bytes_eq, ByteMap};
use crate::transaction::{
    decode_legacy_transaction, rlp_legacy_transaction, RawTransaction, Transaction,
    TransactionAction, TransactionSignature,
};

verus! {

/// A 20-byte EVM address.
pub type EvmAddress = [u8; 20];

/// A 32-byte Substrate account id.
pub type AccountId = [u8; 32];

/// A 65-byte RSV ECDSA signature.
pub type EcdsaSignature = [u8; 65];

/// An index into the runtime's account indices.
pub type AccountIndex = u32;

/// `"evm:"`.
pub open spec fn evm_prefix() -> Seq<u8> {
    seq![101u8, 118, 109, 58]
}

/// The account id that an unmapped EVM address stands for: `"evm:"`, the
/// address, then eight zero bytes.
pub open spec fn padded_account_id(address: Seq<u8>) -> Seq<u8> {
    evm_prefix() + address + Seq::new(8, |i: int| 0u8)
}

/// The EVM address generated from an account id: the first 20 bytes of the
/// Blake2-256 digest of the account id with `"evm:"` appended.
pub open spec fn default_evm_address(account: Seq<u8>) -> Seq<u8> {
    blake2_256_digest(account + evm_prefix()).subrange(0, 20)
}

/// The account id of an EVM address: the mapped one, or else the padded one.
pub open spec fn account_id_of(accounts: Map<Seq<u8>, Seq<u8>>, address: Seq<u8>) -> Seq<u8> {
    if accounts.contains_key(address) {
        accounts[address]
    } else {
        padded_account_id(address)
    }
}

/// The EVM address of an account id: the mapped one, or else the address
/// held in an account id that starts with `"evm:"`, or else none.
pub open spec fn evm_address_of(evm_addresses: Map<Seq<u8>, Seq<u8>>, account: Seq<u8>) -> Option<
    Seq<u8>,
> {
    if evm_addresses.contains_key(account) {
        Some(evm_addresses[account])
    } else if account.subrange(0, 4) == evm_prefix() {
        Some(account.subrange(4, 24))
    } else {
        None
    }
}

/// Errors of the account mapping.
#[derive(Clone, Copy, Debug, PartialEq, Eq, Structural)]
pub enum Error {
    /// AccountId has mapped
    AccountIdHasMapped,
    /// Eth address has mapped
    EthAddressHasMapped,
    /// Bad signature
    BadSignature,
    /// Invalid signature
    InvalidSignature,
    /// Account ref count is not zero
    NonZeroRefCount,
    /// Account still has active reserved
    StillHasActiveReserved,
    /// AccountId not mapped
    AccountIdNotMapped,
    /// The raw transaction is not the RLP encoding of a signed legacy
    /// transaction
    InvalidTransaction,
}

/// Events of the account mapping.
#[derive(Clone, Copy, Debug, PartialEq, Eq)]
pub enum Event {
    /// Mapping between Substrate accounts and EVM accounts
    /// claim account. \[account_id, evm_address\]
    ClaimAccount(AccountId, EvmAddress),
}

/// The balances of an account that exists.
#[derive(Clone, Copy, Debug, PartialEq, Eq)]
pub struct AccountBalance {
    pub free: u128,
    pub reserved: u128,
}

/// A withdrawal of `amount` from `from`, allowed to kill it, deposited into
/// `to`, creating it if need be.
#[derive(Clone, Copy, Debug, PartialEq, Eq)]
pub struct Transfer {
    pub from: AccountId,
    pub to: AccountId,
    pub amount: u128,
}

/// What an accepted claim asks of the runtime: the balance to move from the
/// padded account, if that account exists, and the event to deposit.
#[derive(Clone, Copy, Debug, PartialEq, Eq)]
pub struct ClaimAccepted {
    pub merge: Option<Transfer>,
    pub event: Event,
}

/// What the runtime supplies to `origin_transact`.
#[derive(Clone, Copy, Debug, PartialEq, Eq)]
pub struct TransactContext {
    /// The account nonce of the sender, saturated to 64 bits.
    pub nonce: u64,
    /// The minimum gas price, as a 256-bit big-endian value.
    pub gas_price: [u8; 32],
    /// The chain id of the EVM.
    pub chain_id: u64,
}

/// A source address of an extrinsic.
#[derive(Clone, Debug, PartialEq, Eq)]
pub enum MultiAddress {
    Id(AccountId),
    Index(AccountIndex),
    Raw(Vec<u8>),
    Address32([u8; 32]),
    Address20([u8; 20]),
}

/// A source address that does not resolve to an account.
#[derive(Clone, Copy, Debug, PartialEq, Eq, Structural)]
pub struct LookupError;

/// The storage of the account mapping: `Accounts` from EVM address to
/// account id, and `EvmAddresses` from account id to EVM address.
pub struct Pallet {
    accounts: ByteMap<20, 32>,
    evm_addresses: ByteMap<32, 20>,
}

/// The address that a default claim of `who` maps: the one `who` holds after
/// `"evm:"`, or else the one generated from it.
pub open spec fn default_claim_address(evm_addresses: Map<Seq<u8>, Seq<u8>>, who: Seq<u8>) -> Seq<
    u8,
> {
    match evm_address_of(evm_addresses, who) {
        Some(a) => a,
        None => default_evm_address(who),
    }
}

/// The error that `claim_default_account` gives, if any: `who` is mapped,
/// or the address it would claim is.
pub open spec fn default_claim_error(
    accounts: Map<Seq<u8>, Seq<u8>>,
    evm_addresses: Map<Seq<u8>, Seq<u8>>,
    who: Seq<u8>,
) -> Option<Error> {
    if evm_addresses.contains_key(who) {
        Some(Error::AccountIdHasMapped)
    } else if accounts.contains_key(default_claim_address(evm_addresses, who)) {
        Some(Error::EthAddressHasMapped)
    } else {
        None
    }
}

/// The error that `claim_account` gives, if any, in the order of its
/// checks.
pub open spec fn claim_error(
    accounts: Map<Seq<u8>, Seq<u8>>,
    evm_addresses: Map<Seq<u8>, Seq<u8>>,
    who: Seq<u8>,
    eth_address: Seq<u8>,
    eth_signature: Seq<u8>,
    source: Option<AccountBalance>,
) -> Option<Error> {
    if evm_addresses.contains_key(who) {
        Some(Error::AccountIdHasMapped)
    } else if accounts.contains_key(eth_address) {
        Some(Error::EthAddressHasMapped)
    } else {
        match recovered_address(eth_signature, ascii_hex(who), Seq::empty()) {
            None => Some(Error::BadSignature),
            Some(address) => if address != eth_address {
                Some(Error::InvalidSignature)
            } else {
                match source {
                    Some(balance) => if balance.reserved != 0 {
                        Some(Error::StillHasActiveReserved)
                    } else {
                        None
                    },
                    None => None,
                }
            },
        }
    }
}

/// The account id `"evm:" ++ address ++ [0; 8]`.
pub fn padded_account(address: &EvmAddress) -> (account: AccountId)
    ensures
        account@ == padded_account_id(address@),
{
    let mut data = [0u8; 32];
    data[0] = 101;
    data[1] = 118;
    data[2] = 109;
    data[3] = 58;
    let mut i: usize = 0;
    while i < 20
        invariant
            i <= 20,
            address@.len() == 20,
            data@.len() == 32,
            data@[0] == 101 && data@[1] == 118 && data@[2] == 109 && data@[3] == 58,
            forall|j: int| 0 <= j < i ==> data@[4 + j] == address@[j],
            forall|j: int| 24 <= j < 32 ==> data@[j] == 0,
        decreases 20 - i,
    {
        data[4 + i] = address[i];
        i = i + 1;
    }
    assert(data@ =~= padded_account_id(address@));
    data
}

/// Creates an EVM address from an account id by appending the bytes
/// `"evm:"` to the account id and hashing it.
pub fn account_to_default_evm_address(account_id: &AccountId) -> (address: EvmAddress)
    ensures
        address@ == default_evm_address(account_id@),
{
    let mut payload: Vec<u8> = Vec::new();
    let mut i: usize = 0;
    while i < 32
        invariant
            i <= 32,
            account_id@.len() == 32,
            payload@ == account_id@.take(i as int),
        decreases 32 - i,
    {
        payload.push(account_id[i]);
        assert(account_id@.take(i + 1) =~= account_id@.take(i as int).push(account_id@[i as int]));
        i = i + 1;
    }
    assert(account_id@.take(32) =~= account_id@);
    payload.push(101);
    payload.push(118);
    payload.push(109);
    payload.push(58);
    assert(payload@ =~= account_id@ + evm_prefix());
    let digest = blake2_256(payload.as_slice());
    let mut address = [0u8; 20];
    let mut j: usize = 0;
    while j < 20
        invariant
            j <= 20,
            digest@.len() == 32,
            address@.len() == 20,
            forall|k: int| 0 <= k < j ==> address@[k] == digest@[k],
        decreases 20 - j,
    {
        address[j] = digest[j];
        j = j + 1;
    }
    assert(address@ =~= digest@.subrange(0, 20));
    address
}

/// Whether the account id starts with `"evm:"`.
fn has_evm_prefix(account: &AccountId) -> (r: bool)
    ensures
        r == (account@.subrange(0, 4) == evm_prefix()),
{
    let r = account[0] == 101 && account[1] == 118 && account[2] == 109 && account[3] == 58;
    assert(r == (account@.subrange(0, 4) =~= evm_prefix()));
    r
}

/// The 20 bytes of an account id after its `"evm:"` prefix.
fn embedded_address(account: &AccountId) -> (address: EvmAddress)
    ensures
        address@ == account@.subrange(4, 24),
{
    let mut address = [0u8; 20];
    let mut i: usize = 0;
    while i < 20
        invariant
            i <= 20,
            account@.len() == 32,
            address@.len() == 20,
            forall|k: int| 0 <= k < i ==> address@[k] == account@[4 + k],
        decreases 20 - i,
    {
        address[i] = account[4 + i];
        i = i + 1;
    }
    assert(address@ =~= account@.subrange(4, 24));
    address
}

impl Pallet {
    /// The mapping `Accounts`, from EVM address to account id.
    pub closed spec fn accounts_map(&self) -> Map<Seq<u8>, Seq<u8>> {
        self.accounts.view()
    }

    /// The mapping `EvmAddresses`, from account id to EVM address.
    pub closed spec fn evm_addresses_map(&self) -> Map<Seq<u8>, Seq<u8>> {
        self.evm_addresses.view()
    }

    /// A copy of the storage, to restore when a runtime step after an
    /// accepted claim fails.
    pub fn snapshot(&self) -> (p: Pallet)
        ensures
            p.accounts_map() == self.accounts_map(),
            p.evm_addresses_map() == self.evm_addresses_map(),
    {
        Pallet { accounts: self.accounts.copy(), evm_addresses: self.evm_addresses.copy() }
    }

    /// The storage at genesis: both mappings empty.
    pub fn new() -> (p: Pallet)
        ensures
            p.accounts_map() == Map::<Seq<u8>, Seq<u8>>::empty(),
            p.evm_addresses_map() == Map::<Seq<u8>, Seq<u8>>::empty(),
    {
        Pallet { accounts: ByteMap::new(), evm_addresses: ByteMap::new() }
    }

    /// The account id that `Accounts` maps an EVM address to.
    pub fn accounts(&self, address: &EvmAddress) -> (r: Option<AccountId>)
        ensures
            r is Some <==> self.accounts_map().contains_key(address@),
            r matches Some(a) ==> a@ == self.accounts_map()[address@],
    {
        self.accounts.get(address)
    }

    /// The EVM address that `EvmAddresses` maps an account id to.
    pub fn evm_addresses(&self, who: &AccountId) -> (r: Option<EvmAddress>)
        ensures
            r is Some <==> self.evm_addresses_map().contains_key(who@),
            r matches Some(a) ==> a@ == self.evm_addresses_map()[who@],
    {
        self.evm_addresses.get(who)
    }

    /// Decides whether the balance of `source` can be merged into `dest`:
    /// it cannot while `source` has a reserved balance; otherwise its whole
    /// free balance moves.
    pub fn merge_account(source: &AccountId, dest: &AccountId, balance: AccountBalance) -> (r:
        Result<Transfer, Error>)
        ensures
            balance.reserved != 0 ==> r == Err::<Transfer, Error>(Error::StillHasActiveReserved),
            balance.reserved == 0 ==> r == Ok::<Transfer, Error>(
                Transfer { from: *source, to: *dest, amount: balance.free },
            ),
    {
        if balance.reserved != 0 {
            return Err(Error::StillHasActiveReserved);
        }
        Ok(Transfer { from: *source, to: *dest, amount: balance.free })
    }

    /// Claims the mapping between the account `who` and `eth_address`, proved
    /// by `eth_signature`, a signature that `eth_address` made of the hex
    /// encoding of `who`. `source` holds the balances of the padded account of
    /// `eth_address` when that account exists; an accepted claim moves them
    /// to `who`. Fails, and changes nothing, when either side is mapped, when
    /// the signature recovers no address or another address, or when the
    /// padded account still has a reserved balance.
    pub fn claim_account(
        &mut self,
        who: AccountId,
        eth_address: EvmAddress,
        eth_signature: &EcdsaSignature,
        source: Option<AccountBalance>,
    ) -> (r: Result<ClaimAccepted, Error>)
        ensures
            match r {
                Err(e) => {
                    &&& claim_error(
                        old(self).accounts_map(),
                        old(self).evm_addresses_map(),
                        who@,
                        eth_address@,
                        eth_signature@,
                        source,
                    ) == Some(e)
                    &&& final(self).accounts_map() == old(self).accounts_map()
                    &&& final(self).evm_addresses_map() == old(self).evm_addresses_map()
                },
                Ok(accepted) => {
                    &&& claim_error(
                        old(self).accounts_map(),
                        old(self).evm_addresses_map(),
                        who@,
                        eth_address@,
                        eth_signature@,
                        source,
                    ) is None
                    &&& final(self).accounts_map() == old(self).accounts_map().insert(
                        eth_address@,
                        who@,
                    )
                    &&& final(self).evm_addresses_map() == old(self).evm_addresses_map().insert(who@, eth_address@)
                    &&& accepted.event == Event::ClaimAccount(who, eth_address)
                    &&& match source {
                        Some(balance) => accepted.merge matches Some(t) && t.from@
                            == padded_account_id(eth_address@) && t.to == who && t.amount
                            == balance.free,
                        None => accepted.merge is None,
                    }
                },
            },
    {
        if self.evm_addresses.contains_key(&who) {
            return Err(Error::AccountIdHasMapped);
        }
        if self.accounts.contains_key(&eth_address) {
            return Err(Error::EthAddressHasMapped);
        }
        let encoded = to_ascii_hex(who.as_slice());
        let empty: Vec<u8> = Vec::new();
        assert(empty@ =~= Seq::<u8>::empty());
        let address = match Self::eth_recover(eth_signature, encoded.as_slice(), empty.as_slice()) {
            Some(a) => a,
            None => {
                return Err(Error::BadSignature);
            },
        };
        if !bytes_eq(&eth_address, &address) {
            return Err(Error::InvalidSignature);
        }
        let account_id = <EvmAddressMapping as AddressMapping>::get_account_id(self, &eth_address);
        let merge = match source {
            Some(balance) => match Self::merge_account(&account_id, &who, balance) {
                Ok(t) => Some(t),
                Err(e) => {
                    return Err(e);
                },
            },
            None => None,
        };
        self.accounts.insert(eth_address, who);
        self.evm_addresses.insert(who, eth_address);
        Ok(ClaimAccepted { merge, event: Event::ClaimAccount(who, eth_address) })
    }

    /// Claims the mapping between the account `who` and an EVM address
    /// generated from it (or the address its id holds after `"evm:"`).
    /// Fails when `who` is mapped, or when that address is mapped already.
    pub fn claim_default_account(&mut self, who: AccountId) -> (r: Result<Event, Error>)
        ensures
            match default_claim_error(old(self).accounts_map(), old(self).evm_addresses_map(), who@) {
                Some(e) => {
                    &&& r == Err::<Event, Error>(e)
                    &&& final(self).accounts_map() == old(self).accounts_map()
                    &&& final(self).evm_addresses_map() == old(self).evm_addresses_map()
                },
                None => {
                    &&& r matches Ok(Event::ClaimAccount(account, address))
                    &&& account == who
                    &&& address@ == default_claim_address(old(self).evm_addresses_map(), who@)
                    &&& get_or_create_outcome(
                        old(self).accounts_map(),
                        old(self).evm_addresses_map(),
                        who@,
                        address@,
                        final(self).accounts_map(),
                        final(self).evm_addresses_map(),
                    )
                },
            },
    {
        if self.evm_addresses.contains_key(&who) {
            return Err(Error::AccountIdHasMapped);
        }
        let eth_address = match <EvmAddressMapping as AddressMapping>::get_evm_address(self, &who) {
            Some(a) => a,
            None => account_to_default_evm_address(&who),
        };
        if self.accounts.contains_key(&eth_address) {
            return Err(Error::EthAddressHasMapped);
        }
        let created = <EvmAddressMapping as AddressMapping>::get_or_create_evm_address(self, &who);
        Ok(Event::ClaimAccount(who, created))
    }

    /// The signature of the transactions that `origin_transact` builds:
    /// `v` is `chain_id * 2 + 35`, and `r` and `s` are both one.
    pub fn empty_tx_signature(chain_id: u64) -> (sig: TransactionSignature)
        requires
            1 <= chain_id <= (u64::MAX - 35) / 2,
        ensures
            sig.v == chain_id * 2 + 35,
            sig.r@ == Seq::new(31, |i: int| 0u8).push(1u8),
            sig.s == sig.r,
    {
        let mut r = [0u8; 32];
        r[31] = 1;
        let s = r;
        let signer = chain_id * 2 + 35;
        proof {
            assert(r@ =~= Seq::new(31, |i: int| 0u8).push(1u8));
            crate::crypto::lemma_be_value_of_one(r@);
            crate::crypto::lemma_one_below_order();
        }
        let sig = TransactionSignature::new(signer, r, s);
        sig.unwrap()
    }

    /// Builds the Ethereum transaction that `who` makes: from its EVM address
    /// (created if it has none), with the runtime's nonce and gas price, and
    /// the empty signature. Unless `auto_claim`, `who` must be mapped
    /// already.
    pub fn origin_transact(
        &mut self,
        who: AccountId,
        action: TransactionAction,
        value: u128,
        input: Option<Vec<u8>>,
        gas_limit: u64,
        auto_claim: bool,
        context: TransactContext,
    ) -> (r: Result<(EvmAddress, Transaction), Error>)
        requires
            auto_claim || old(self).evm_addresses_map().contains_key(who@) ==> 1 <= context.chain_id
                <= (u64::MAX - 35) / 2,
        ensures
            !auto_claim && !old(self).evm_addresses_map().contains_key(who@) ==> r == Err::<
                (EvmAddress, Transaction),
                Error,
            >(Error::AccountIdNotMapped) && final(self).accounts_map() == old(self).accounts_map()
                && final(self).evm_addresses_map() == old(self).evm_addresses_map(),
            auto_claim || old(self).evm_addresses_map().contains_key(who@) ==> (r matches Ok(
                (address, tx),
            ) && get_or_create_outcome(
                old(self).accounts_map(),
                old(self).evm_addresses_map(),
                who@,
                address@,
                final(self).accounts_map(),
                final(self).evm_addresses_map(),
            ) && tx.nonce == context.nonce && tx.gas_price == context.gas_price && tx.gas_limit
                == gas_limit && tx.action == action && tx.value == value && tx.input@ == (
            match input {
                Some(v) => v@,
                None => Seq::empty(),
            }) && tx.signature.v == context.chain_id * 2 + 35 && tx.signature.r@ == Seq::new(
                31,
                |i: int| 0u8,
            ).push(1u8) && tx.signature.s == tx.signature.r),
    {
        if !auto_claim {
            if !self.evm_addresses.contains_key(&who) {
                return Err(Error::AccountIdNotMapped);
            }
        }
        let evm_address = <EvmAddressMapping as AddressMapping>::get_or_create_evm_address(self, &who);
        let input = match input {
            Some(v) => v,
            None => Vec::new(),
        };
        let transaction = Transaction {
            nonce: context.nonce,
            gas_price: context.gas_price,
            gas_limit,
            action,
            value,
            input,
            signature: Self::empty_tx_signature(context.chain_id),
        };
        Ok((evm_address, transaction))
    }

    /// Transacts an Ethereum raw transaction: decodes `raw`, the RLP
    /// encoding of a signed legacy transaction, and gives it back with the
    /// EVM address of `who` (created if it has none) that it is sent from.
    /// Unless `auto_claim`, `who` must be mapped already; a mapping is
    /// checked first, then the encoding, and a refusal changes nothing.
    pub fn origin_transact_raw(&mut self, who: AccountId, raw: &[u8], auto_claim: bool) -> (r:
        Result<(EvmAddress, RawTransaction), Error>)
        ensures
            !auto_claim && !old(self).evm_addresses_map().contains_key(who@) ==> r == Err::<
                (EvmAddress, RawTransaction),
                Error,
            >(Error::AccountIdNotMapped),
            (auto_claim || old(self).evm_addresses_map().contains_key(who@))
                && rlp_legacy_transaction(raw@) is None ==> r == Err::<
                (EvmAddress, RawTransaction),
                Error,
            >(Error::InvalidTransaction),
            r is Err ==> final(self).accounts_map() == old(self).accounts_map() && final(self).evm_addresses_map() == old(self).evm_addresses_map(),
            (auto_claim || old(self).evm_addresses_map().contains_key(who@))
                && rlp_legacy_transaction(raw@) is Some ==> (r matches Ok((address, tx)) && Some(
                tx@,
            ) == rlp_legacy_transaction(raw@) && get_or_create_outcome(
                old(self).accounts_map(),
                old(self).evm_addresses_map(),
                who@,
                address@,
                final(self).accounts_map(),
                final(self).evm_addresses_map(),
            )),
    {
        if !auto_claim {
            if !self.evm_addresses.contains_key(&who) {
                return Err(Error::AccountIdNotMapped);
            }
        }
        let transaction = match decode_legacy_transaction(raw) {
            Some(t) => t,
            None => {
                return Err(Error::InvalidTransaction);
            },
        };
        let evm_address = <EvmAddressMapping as AddressMapping>::get_or_create_evm_address(self, &who);
        Ok((evm_address, transaction))
    }

    /// Resolves a source address: a 20-byte address to its account id; any
    /// other form fails.
    pub fn lookup(&self, a: MultiAddress) -> (r: Result<AccountId, LookupError>)
        ensures
            match a {
                MultiAddress::Address20(address) => r matches Ok(account) && account@
                    == account_id_of(self.accounts_map(), address@),
                _ => r == Err::<AccountId, LookupError>(LookupError),
            },
    {
        match a {
            MultiAddress::Address20(i) => Ok(<EvmAddressMapping as AddressMapping>::get_account_id(self, &i)),
            _ => Err(LookupError),
        }
    }

    /// The source address of an account id.
    pub fn unlookup(a: AccountId) -> (r: MultiAddress)
        ensures
            r == MultiAddress::Id(a),
    {
        MultiAddress::Id(a)
    }
}

/// What `get_or_create_evm_address` does to the mappings and gives back: the
/// account's EVM address, if it has one, with nothing changed; otherwise its
/// generated address, recorded in both mappings.
pub open spec fn get_or_create_outcome(
    accounts: Map<Seq<u8>, Seq<u8>>,
    evm_addresses: Map<Seq<u8>, Seq<u8>>,
    who: Seq<u8>,
    address: Seq<u8>,
    accounts_after: Map<Seq<u8>, Seq<u8>>,
    evm_addresses_after: Map<Seq<u8>, Seq<u8>>,
) -> bool {
    match evm_address_of(evm_addresses, who) {
        Some(a) => address == a && accounts_after == accounts && evm_addresses_after
            == evm_addresses,
        None => address == default_evm_address(who) && accounts_after == accounts.insert(
            address,
            who,
        ) && evm_addresses_after == evm_addresses.insert(who, address),
    }
}

/// A mapping between account ids and EVM addresses.
pub trait AddressMapping {
    /// The account id of an EVM address.
    fn get_account_id(pallet: &Pallet, evm: &EvmAddress) -> AccountId;

    /// The EVM address of an account id, if it has one.
    fn get_evm_address(pallet: &Pallet, account_id: &AccountId) -> Option<EvmAddress>;

    /// The EVM address of an account id, created when it has none.
    fn get_or_create_evm_address(pallet: &mut Pallet, account_id: &AccountId) -> EvmAddress;

    /// The EVM address generated from an account id.
    fn get_default_evm_address(account_id: &AccountId) -> EvmAddress;

    /// Whether an account id and an EVM address belong together.
    fn is_linked(pallet: &Pallet, account_id: &AccountId, evm: &EvmAddress) -> bool;
}

/// The account mapping that the pallet's storage defines.
pub struct EvmAddressMapping;

impl AddressMapping for EvmAddressMapping {
    /// The account id used to generate the given EVM address: the mapped one,
    /// or else `"evm:"`, the address, and eight zero bytes.
    fn get_account_id(pallet: &Pallet, evm: &EvmAddress) -> (account: AccountId)
        ensures
            account@ == account_id_of(pallet.accounts_map(), evm@),
    {
        match pallet.accounts.get(evm) {
            Some(acc) => acc,
            None => padded_account(evm),
        }
    }

    /// The EVM address associated with an account id, or else the address
    /// that an id starting with `"evm:"` holds; `None` when there is neither.
    fn get_evm_address(pallet: &Pallet, account_id: &AccountId) -> (address: Option<
        EvmAddress,
    >)
        ensures
            address is Some <==> evm_address_of(pallet.evm_addresses_map(), account_id@) is Some,
            address matches Some(a) ==> Some(a@) == evm_address_of(
                pallet.evm_addresses_map(),
                account_id@,
            ),
    {
        match pallet.evm_addresses.get(account_id) {
            Some(a) => Some(a),
            None => {
                if has_evm_prefix(account_id) {
                    Some(embedded_address(account_id))
                } else {
                    None
                }
            },
        }
    }

    /// The EVM address associated with an account id; when there is none, the
    /// generated default address, recorded in both mappings.
    fn get_or_create_evm_address(pallet: &mut Pallet, account_id: &AccountId) -> (address:
        EvmAddress)
        ensures
            get_or_create_outcome(
                old(pallet).accounts_map(),
                old(pallet).evm_addresses_map(),
                account_id@,
                address@,
                final(pallet).accounts_map(),
                final(pallet).evm_addresses_map(),
            ),
    {
        match Self::get_evm_address(pallet, account_id) {
            Some(a) => a,
            None => {
                let addr = account_to_default_evm_address(account_id);
                pallet.accounts.insert(addr, *account_id);
                pallet.evm_addresses.insert(*account_id, addr);
                addr
            },
        }
    }

    /// The EVM address generated from an account id.
    fn get_default_evm_address(account_id: &AccountId) -> (address: EvmAddress)
        ensures
            address@ == default_evm_address(account_id@),
    {
        account_to_default_evm_address(account_id)
    }

    /// Whether the account id is associated with the EVM address, or the
    /// address is the one generated from it.
    fn is_linked(pallet: &Pallet, account_id: &AccountId, evm: &EvmAddress) -> (r: bool)
        ensures
            r == (evm_address_of(pallet.evm_addresses_map(), account_id@) == Some(evm@)
                || default_evm_address(account_id@) == evm@),
    {
        let linked = match Self::get_evm_address(pallet, account_id) {
            Some(a) => bytes_eq(&a, evm),
            None => false,
        };
        if linked {
            return true;
        }
        let default = account_to_default_evm_address(account_id);
        bytes_eq(&default, evm)
    }
}

impl EvmAddressMapping {
    /// The account id that the EVM uses for an address.
    pub fn into_account_id(pallet: &Pallet, address: &EvmAddress) -> (account: AccountId)
        ensures
            account@ == account_id_of(pallet.accounts_map(), address@),
    {
        <EvmAddressMapping as AddressMapping>::get_account_id(pallet, address)
    }
}

/// Clears the mappings of an account that the runtime removed.
pub struct CallKillAccount;

impl CallKillAccount {
    /// Removes the reverse mapping of the account's generated address, and
    /// both mappings that a claim made for it.
    pub fn on_killed_account(pallet: &mut Pallet, who: &AccountId)
        ensures
            ({
                let accounts = old(pallet).accounts_map().remove(default_evm_address(who@));
                if old(pallet).evm_addresses_map().contains_key(who@) {
                    &&& final(pallet).accounts_map() == accounts.remove(
                        old(pallet).evm_addresses_map()[who@],
                    )
                    &&& final(pallet).evm_addresses_map() == old(pallet).evm_addresses_map().remove(
                        who@,
                    )
                } else {
                    &&& final(pallet).accounts_map() == accounts
                    &&& final(pallet).evm_addresses_map() == old(pallet).evm_addresses_map()
                }
            }),
    {
        let default = account_to_default_evm_address(who);
        pallet.accounts.remove(&default);
        match pallet.evm_addresses.get(who) {
            Some(evm_addr) => {
                pallet.accounts.remove(&evm_addr);
                pallet.evm_addresses.remove(who);
            },
            None => {},
        }
    }
}

} // verus!
