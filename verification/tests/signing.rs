use dexchain::evm_accounts::Pallet;
use dexchain::hex::to_ascii_hex;
use dexchain::signing::SecretKey;

fn unhex(s: &str) -> Vec<u8> {
    (0..s.len()).step_by(2).map(|i| u8::from_str_radix(&s[i..i + 2], 16).unwrap()).collect()
}

fn alice_bytes() -> [u8; 32] {
    let mut bytes = [0u8; 32];
    bytes.copy_from_slice(&unhex(
        "81376b9868b292a46a1c486d344e427a3088657fda629b5f4a647822d329cd6a",
    ));
    bytes
}

fn alice() -> SecretKey {
    SecretKey::parse(&alice_bytes()).unwrap()
}

#[test]
fn secret_key_range() {
    assert!(SecretKey::parse(&[0u8; 32]).is_none());
    assert!(SecretKey::parse(&[0xffu8; 32]).is_none());
    let mut order = [0u8; 32];
    order.copy_from_slice(&unhex(
        "fffffffffffffffffffffffffffffffebaaedce6af48a03bbfd25e8cd0364141",
    ));
    assert!(SecretKey::parse(&order).is_none());
    order[31] = 0x40;
    assert!(SecretKey::parse(&order).is_some());
    let mut one = [0u8; 32];
    one[31] = 1;
    let key = SecretKey::parse(&one).unwrap();
    assert_eq!(key.serialize(), one);
}

#[test]
fn address_of_known_keys() {
    let mut one = [0u8; 32];
    one[31] = 1;
    let key = SecretKey::parse(&one).unwrap();
    assert_eq!(
        Pallet::eth_address(&key).to_vec(),
        unhex("7e5f4552091a69125d5dfcb7b8c2659029395bdf")
    );
    assert_eq!(
        Pallet::eth_address(&alice()).to_vec(),
        unhex("bf0b5a4099f0bf6c8bc4252ebec548bae95602ea")
    );
}

#[test]
fn public_key_of_one_is_generator() {
    let mut one = [0u8; 32];
    one[31] = 1;
    let public = Pallet::eth_public(&SecretKey::parse(&one).unwrap());
    let mut expected = vec![4u8];
    expected.extend(unhex("79be667ef9dcbbac55a06295ce870b07029bfcdb2dce28d959f2815b16f81798"));
    expected.extend(unhex("483ada7726a3c4655da4fbfc0e1108a8fd17b448a68554199c47d08ffb10d4b8"));
    assert_eq!(public.to_vec(), expected);
}

#[test]
fn signature_recovers_to_signer() {
    let who = [7u8; 32];
    let sig = Pallet::eth_sign(&alice(), &who, &[]);
    assert!(sig[64] < 4);
    let recovered = Pallet::eth_recover(&sig, &to_ascii_hex(&who), &[]);
    assert_eq!(recovered, Some(Pallet::eth_address(&alice())));
}

#[test]
fn signature_with_extra_recovers_to_signer() {
    let sig = Pallet::eth_sign(&alice(), b"data", b"extra");
    let recovered = Pallet::eth_recover(&sig, &to_ascii_hex(b"data"), b"extra");
    assert_eq!(recovered, Some(Pallet::eth_address(&alice())));
    let other = Pallet::eth_recover(&sig, &to_ascii_hex(b"date"), b"extra");
    assert_ne!(other, Some(Pallet::eth_address(&alice())));
}

#[test]
fn signing_is_deterministic() {
    let a = Pallet::eth_sign(&alice(), b"abc", &[]);
    let b = Pallet::eth_sign(&alice(), b"abc", &[]);
    assert_eq!(a.to_vec(), b.to_vec());
}

#[test]
fn ethereum_rpc_recovery_id_is_accepted() {
    let mut sig = Pallet::eth_sign(&alice(), b"abc", &[]);
    sig[64] += 27;
    let recovered = Pallet::eth_recover(&sig, &to_ascii_hex(b"abc"), &[]);
    assert_eq!(recovered, Some(Pallet::eth_address(&alice())));
}

#[test]
fn bad_recovery_id_recovers_nothing() {
    let mut sig = Pallet::eth_sign(&alice(), b"abc", &[]);
    sig[64] = 9;
    assert_eq!(Pallet::eth_recover(&sig, &to_ascii_hex(b"abc"), &[]), None);
}
