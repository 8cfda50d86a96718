use dexchain::evm_accounts::{
    account_to_default_evm_address, AccountBalance, AddressMapping, CallKillAccount, ClaimAccepted, Error,
    Event, EvmAddressMapping, LookupError, MultiAddress, Pallet, TransactContext, Transfer,
};
use dexchain::signing::SecretKey;
use dexchain::transaction::{TransactionAction, TransactionSignature};

fn unhex(s: &str) -> Vec<u8> {
    (0..s.len()).step_by(2).map(|i| u8::from_str_radix(&s[i..i + 2], 16).unwrap()).collect()
}

fn key(seed: &[u8]) -> SecretKey {
    let mut bytes = [0x42u8; 32];
    bytes[..seed.len()].copy_from_slice(seed);
    SecretKey::parse(&bytes).unwrap()
}

fn padded(address: &[u8; 20]) -> [u8; 32] {
    let mut id = [0u8; 32];
    id[0..4].copy_from_slice(b"evm:");
    id[4..24].copy_from_slice(address);
    id
}

#[test]
fn claim_account_maps_both_ways() {
    let mut pallet = Pallet::new();
    let who = [1u8; 32];
    let alice = key(b"Alice");
    let eth = Pallet::eth_address(&alice);
    let sig = Pallet::eth_sign(&alice, &who, &[]);
    let accepted = pallet.claim_account(who, eth, &sig, None).unwrap();
    assert_eq!(accepted, ClaimAccepted { merge: None, event: Event::ClaimAccount(who, eth) });
    assert_eq!(pallet.evm_addresses(&who), Some(eth));
    assert_eq!(pallet.accounts(&eth), Some(who));
    assert_eq!(EvmAddressMapping::get_account_id(&pallet, &eth), who);
    assert_eq!(EvmAddressMapping::get_evm_address(&pallet, &who), Some(eth));
    assert!(EvmAddressMapping::is_linked(&pallet, &who, &eth));
    assert_eq!(EvmAddressMapping::into_account_id(&pallet, &eth), who);
}

#[test]
fn claim_account_merges_existing_padded_account() {
    let mut pallet = Pallet::new();
    let who = [2u8; 32];
    let alice = key(b"Alice");
    let eth = Pallet::eth_address(&alice);
    let sig = Pallet::eth_sign(&alice, &who, &[]);
    let source = AccountBalance { free: 500, reserved: 0 };
    let accepted = pallet.claim_account(who, eth, &sig, Some(source)).unwrap();
    assert_eq!(accepted.merge, Some(Transfer { from: padded(&eth), to: who, amount: 500 }));
}

#[test]
fn claim_account_refuses_reserved_balance() {
    let mut pallet = Pallet::new();
    let who = [2u8; 32];
    let alice = key(b"Alice");
    let eth = Pallet::eth_address(&alice);
    let sig = Pallet::eth_sign(&alice, &who, &[]);
    let source = AccountBalance { free: 500, reserved: 1 };
    assert_eq!(
        pallet.claim_account(who, eth, &sig, Some(source)),
        Err(Error::StillHasActiveReserved)
    );
    assert_eq!(pallet.evm_addresses(&who), None);
    assert_eq!(pallet.accounts(&eth), None);
}

#[test]
fn claim_account_refuses_mapped_sides() {
    let mut pallet = Pallet::new();
    let who = [1u8; 32];
    let alice = key(b"Alice");
    let eth = Pallet::eth_address(&alice);
    let sig = Pallet::eth_sign(&alice, &who, &[]);
    pallet.claim_account(who, eth, &sig, None).unwrap();
    assert_eq!(pallet.claim_account(who, eth, &sig, None), Err(Error::AccountIdHasMapped));
    let bob = key(b"Bob");
    let bob_eth = Pallet::eth_address(&bob);
    let bob_sig = Pallet::eth_sign(&bob, &who, &[]);
    assert_eq!(pallet.claim_account(who, bob_eth, &bob_sig, None), Err(Error::AccountIdHasMapped));
    let other = [9u8; 32];
    let other_sig = Pallet::eth_sign(&alice, &other, &[]);
    assert_eq!(
        pallet.claim_account(other, eth, &other_sig, None),
        Err(Error::EthAddressHasMapped)
    );
}

#[test]
fn claim_account_refuses_wrong_signatures() {
    let mut pallet = Pallet::new();
    let who = [1u8; 32];
    let alice = key(b"Alice");
    let eth = Pallet::eth_address(&alice);
    let for_other = Pallet::eth_sign(&alice, &[3u8; 32], &[]);
    assert_eq!(pallet.claim_account(who, eth, &for_other, None), Err(Error::InvalidSignature));
    let bob = key(b"Bob");
    let by_bob = Pallet::eth_sign(&bob, &who, &[]);
    assert_eq!(pallet.claim_account(who, eth, &by_bob, None), Err(Error::InvalidSignature));
    let mut broken = Pallet::eth_sign(&alice, &who, &[]);
    broken[64] = 200;
    assert_eq!(pallet.claim_account(who, eth, &broken, None), Err(Error::BadSignature));
    assert_eq!(pallet.evm_addresses(&who), None);
}

#[test]
fn claim_default_account_generates_address() {
    let mut pallet = Pallet::new();
    let who = [1u8; 32];
    let expected = unhex("ad21ad74dbc62416995d3e131a1456b49f982b33");
    assert_eq!(account_to_default_evm_address(&who).to_vec(), expected);
    assert_eq!(EvmAddressMapping::get_default_evm_address(&who).to_vec(), expected);
    let event = pallet.claim_default_account(who).unwrap();
    let Event::ClaimAccount(account, address) = event;
    assert_eq!(account, who);
    assert_eq!(address.to_vec(), expected);
    assert_eq!(pallet.evm_addresses(&who), Some(address));
    assert_eq!(pallet.accounts(&address), Some(who));
    assert_eq!(pallet.claim_default_account(who), Err(Error::AccountIdHasMapped));
}

#[test]
fn evm_prefixed_account_holds_its_address() {
    let mut pallet = Pallet::new();
    let address = [0xabu8; 20];
    let who = padded(&address);
    assert_eq!(EvmAddressMapping::get_evm_address(&pallet, &who), Some(address));
    assert_eq!(EvmAddressMapping::get_account_id(&pallet, &address), who);
    let created = EvmAddressMapping::get_or_create_evm_address(&mut pallet, &who);
    assert_eq!(created, address);
    assert_eq!(pallet.evm_addresses(&who), None);
    assert_eq!(pallet.accounts(&address), None);
}

#[test]
fn get_evm_address_of_plain_account_is_none() {
    let pallet = Pallet::new();
    assert_eq!(EvmAddressMapping::get_evm_address(&pallet, &[5u8; 32]), None);
}

#[test]
fn get_or_create_is_idempotent() {
    let mut pallet = Pallet::new();
    let who = [4u8; 32];
    let first = EvmAddressMapping::get_or_create_evm_address(&mut pallet, &who);
    let second = EvmAddressMapping::get_or_create_evm_address(&mut pallet, &who);
    assert_eq!(first, second);
    assert_eq!(first, account_to_default_evm_address(&who));
    assert!(EvmAddressMapping::is_linked(&pallet, &who, &first));
}

#[test]
fn is_linked_to_default_address_without_mapping() {
    let pallet = Pallet::new();
    let who = [4u8; 32];
    let default = account_to_default_evm_address(&who);
    assert!(EvmAddressMapping::is_linked(&pallet, &who, &default));
    assert!(!EvmAddressMapping::is_linked(&pallet, &who, &[0u8; 20]));
}

#[test]
fn killed_account_loses_its_mappings() {
    let mut pallet = Pallet::new();
    let who = [1u8; 32];
    let alice = key(b"Alice");
    let eth = Pallet::eth_address(&alice);
    let sig = Pallet::eth_sign(&alice, &who, &[]);
    pallet.claim_account(who, eth, &sig, None).unwrap();
    CallKillAccount::on_killed_account(&mut pallet, &who);
    assert_eq!(pallet.evm_addresses(&who), None);
    assert_eq!(pallet.accounts(&eth), None);
    assert_eq!(EvmAddressMapping::get_account_id(&pallet, &eth), padded(&eth));
}

#[test]
fn killed_account_loses_default_mapping() {
    let mut pallet = Pallet::new();
    let who = [6u8; 32];
    let address = EvmAddressMapping::get_or_create_evm_address(&mut pallet, &who);
    CallKillAccount::on_killed_account(&mut pallet, &who);
    assert_eq!(pallet.accounts(&address), None);
    assert_eq!(pallet.evm_addresses(&who), None);
}

#[test]
fn lookup_resolves_evm_addresses_only() {
    let mut pallet = Pallet::new();
    let who = [1u8; 32];
    let alice = key(b"Alice");
    let eth = Pallet::eth_address(&alice);
    let sig = Pallet::eth_sign(&alice, &who, &[]);
    pallet.claim_account(who, eth, &sig, None).unwrap();
    assert_eq!(pallet.lookup(MultiAddress::Address20(eth)), Ok(who));
    let unmapped = [0x11u8; 20];
    assert_eq!(pallet.lookup(MultiAddress::Address20(unmapped)), Ok(padded(&unmapped)));
    assert_eq!(pallet.lookup(MultiAddress::Id(who)), Err(LookupError));
    assert_eq!(pallet.lookup(MultiAddress::Index(3)), Err(LookupError));
    assert_eq!(pallet.lookup(Pallet::unlookup(who)), Err(LookupError));
    assert_eq!(Pallet::unlookup(who), MultiAddress::Id(who));
}

#[test]
fn merge_account_moves_free_balance() {
    let a = [1u8; 32];
    let b = [2u8; 32];
    let ok = Pallet::merge_account(&a, &b, AccountBalance { free: 7, reserved: 0 });
    assert_eq!(ok, Ok(Transfer { from: a, to: b, amount: 7 }));
    let refused = Pallet::merge_account(&a, &b, AccountBalance { free: 7, reserved: 3 });
    assert_eq!(refused, Err(Error::StillHasActiveReserved));
}

fn context() -> TransactContext {
    let mut gas_price = [0u8; 32];
    gas_price[31] = 10;
    TransactContext { nonce: 5, gas_price, chain_id: 42 }
}

#[test]
fn origin_transact_needs_mapping_unless_auto_claim() {
    let mut pallet = Pallet::new();
    let who = [8u8; 32];
    let action = TransactionAction::Call([0x22u8; 20]);
    let refused = pallet.origin_transact(who, action, 100, None, 21_000, false, context());
    assert_eq!(refused, Err(Error::AccountIdNotMapped));
    assert_eq!(pallet.evm_addresses(&who), None);
    let (from, tx) =
        pallet.origin_transact(who, action, 100, Some(vec![1, 2, 3]), 21_000, true, context()).unwrap();
    assert_eq!(from, account_to_default_evm_address(&who));
    assert_eq!(pallet.evm_addresses(&who), Some(from));
    assert_eq!(tx.nonce, 5);
    assert_eq!(tx.gas_limit, 21_000);
    assert_eq!(tx.value, 100);
    assert_eq!(tx.input, vec![1, 2, 3]);
    assert_eq!(tx.action, action);
    assert_eq!(tx.gas_price, context().gas_price);
    assert_eq!(tx.signature.v, 42 * 2 + 35);
    let (again, tx2) = pallet.origin_transact(who, TransactionAction::Create, 0, None, 1, false, context()).unwrap();
    assert_eq!(again, from);
    assert_eq!(tx2.input, Vec::<u8>::new());
}

#[test]
fn empty_signature_values() {
    let sig = Pallet::empty_tx_signature(1);
    let mut one = [0u8; 32];
    one[31] = 1;
    assert_eq!(sig, TransactionSignature { v: 37, r: one, s: one });
}

#[test]
fn transaction_signature_validity() {
    let mut one = [0u8; 32];
    one[31] = 1;
    assert!(TransactionSignature::new(27, one, one).is_some());
    assert!(TransactionSignature::new(28, one, one).is_some());
    assert!(TransactionSignature::new(35, one, one).is_none());
    assert!(TransactionSignature::new(37, one, one).is_some());
    assert!(TransactionSignature::new(27, [0u8; 32], one).is_none());
    assert!(TransactionSignature::new(27, one, [0xffu8; 32]).is_none());
}

fn word(n: u64) -> [u8; 32] {
    let mut w = [0u8; 32];
    w[24..].copy_from_slice(&n.to_be_bytes());
    w
}

#[test]
fn origin_transact_raw_decodes_call() {
    let mut pallet = Pallet::new();
    let who = [8u8; 32];
    let raw = unhex("e301028252089422222222222222222222222222222222222222228203e8820102250101");
    assert_eq!(pallet.origin_transact_raw(who, &raw, false), Err(Error::AccountIdNotMapped));
    assert_eq!(pallet.evm_addresses(&who), None);
    let (from, tx) = pallet.origin_transact_raw(who, &raw, true).unwrap();
    assert_eq!(from, account_to_default_evm_address(&who));
    assert_eq!(pallet.evm_addresses(&who), Some(from));
    assert_eq!(tx.nonce, word(1));
    assert_eq!(tx.gas_price, word(2));
    assert_eq!(tx.gas_limit, word(21_000));
    assert_eq!(tx.action, TransactionAction::Call([0x22u8; 20]));
    assert_eq!(tx.value, word(1000));
    assert_eq!(tx.input, vec![1, 2]);
    assert_eq!(tx.signature, TransactionSignature { v: 37, r: word(1), s: word(1) });
}

#[test]
fn origin_transact_raw_decodes_create() {
    let mut pallet = Pallet::new();
    let who = [8u8; 32];
    let raw = unhex("cb01028252088080801b0507");
    let (_, tx) = pallet.origin_transact_raw(who, &raw, true).unwrap();
    assert_eq!(tx.action, TransactionAction::Create);
    assert_eq!(tx.input, Vec::<u8>::new());
    assert_eq!(tx.signature, TransactionSignature { v: 27, r: word(5), s: word(7) });
}

#[test]
fn origin_transact_raw_refuses_bad_encodings() {
    let mut pallet = Pallet::new();
    let who = [8u8; 32];
    let bad_signature = unhex("cb0102825208808080230101");
    assert_eq!(pallet.origin_transact_raw(who, &bad_signature, true), Err(Error::InvalidTransaction));
    assert_eq!(pallet.origin_transact_raw(who, &[1, 2, 3], true), Err(Error::InvalidTransaction));
    assert_eq!(pallet.evm_addresses(&who), None);
}

#[test]
fn default_claim_refuses_mapped_address() {
    let mut pallet = Pallet::new();
    let other = [5u8; 32];
    let generated = EvmAddressMapping::get_or_create_evm_address(&mut pallet, &other);
    let evm_who = padded(&generated);
    assert_eq!(EvmAddressMapping::get_evm_address(&pallet, &evm_who), Some(generated));
    assert_eq!(pallet.claim_default_account(evm_who), Err(Error::EthAddressHasMapped));
    assert_eq!(pallet.evm_addresses(&evm_who), None);
    assert_eq!(pallet.accounts(&generated), Some(other));
}

#[test]
fn mappings_stay_inverse_through_claims_and_kills() {
    let mut pallet = Pallet::new();
    let a = [1u8; 32];
    let b = [2u8; 32];
    let alice = key(b"Alice");
    let eth = Pallet::eth_address(&alice);
    let sig = Pallet::eth_sign(&alice, &a, &[]);
    pallet.claim_account(a, eth, &sig, None).unwrap();
    let generated = EvmAddressMapping::get_or_create_evm_address(&mut pallet, &b);
    for (who, address) in [(a, eth), (b, generated)] {
        assert_eq!(pallet.evm_addresses(&who), Some(address));
        assert_eq!(pallet.accounts(&address), Some(who));
    }
    CallKillAccount::on_killed_account(&mut pallet, &b);
    assert_eq!(pallet.evm_addresses(&b), None);
    assert_eq!(pallet.accounts(&generated), None);
    assert_eq!(pallet.evm_addresses(&a), Some(eth));
    assert_eq!(pallet.accounts(&eth), Some(a));
}
