use dexchain::evm_accounts::Pallet;
use dexchain::hex::to_ascii_hex;
use dexchain::message::decimal_digits;

#[test]
fn ascii_hex_of_bytes() {
    assert_eq!(to_ascii_hex(&[0xbe, 0xef, 0x01, 0x0a]), b"beef010a".to_vec());
    assert_eq!(to_ascii_hex(&[]), Vec::<u8>::new());
}

#[test]
fn ascii_hex_is_twice_as_long() {
    let data: Vec<u8> = (0u8..=255).collect();
    let hex = to_ascii_hex(&data);
    assert_eq!(hex.len(), 512);
    assert_eq!(&hex[0..4], b"0001");
    assert_eq!(&hex[508..512], b"feff");
}

#[test]
fn decimal_digits_of_numbers() {
    assert_eq!(decimal_digits(0), Vec::<u8>::new());
    assert_eq!(decimal_digits(7), b"7".to_vec());
    assert_eq!(decimal_digits(1020), b"1020".to_vec());
}

#[test]
fn signable_message_layout() {
    let m = Pallet::ethereum_signable_message(b"abc", b"de");
    assert_eq!(m, b"\x19Ethereum Signed Message:\n15dexio evm:abcde".to_vec());
    let m = Pallet::ethereum_signable_message(&[], &[]);
    assert_eq!(m, b"\x19Ethereum Signed Message:\n10dexio evm:".to_vec());
}

#[test]
fn signable_message_long_length() {
    let what = vec![b'x'; 95];
    let m = Pallet::ethereum_signable_message(&what, &[]);
    let mut expected = b"\x19Ethereum Signed Message:\n105dexio evm:".to_vec();
    expected.extend_from_slice(&what);
    assert_eq!(m, expected);
}

#[test]
fn distinct_data_distinct_hex() {
    assert_ne!(to_ascii_hex(&[0x12]), to_ascii_hex(&[0x21]));
    assert_ne!(to_ascii_hex(&[1u8; 32]), to_ascii_hex(&[2u8; 32]));
}
