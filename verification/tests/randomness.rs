use dexchain::randomness::{
    Action, EvmDataReader, EvmDataWriter, ExitError, ExitSucceed, Gasometer, RandomRequest,
    Randomness,
};

const SELECTOR: [u8; 4] = [0xd4, 0xce, 0x54, 0x5a];

#[test]
fn selector_of_random() {
    assert_eq!(Action::Random.selector(), SELECTOR);
    assert_eq!(Action::from_selector(&SELECTOR), Some(Action::Random));
    assert_eq!(Action::from_selector(&[0, 0, 0, 0]), None);
}

fn call(subject: [u8; 32]) -> Vec<u8> {
    EvmDataWriter::new().write_raw_bytes(&SELECTOR).write_h256(subject).build()
}

#[test]
fn random_reads_subject_and_charges_a_read() {
    let req = Randomness::execute(&call([3u8; 32]), Some(1_000), 25).unwrap();
    assert_eq!(req, RandomRequest { subject: [3u8; 32], used_gas: 25 });
    let req = Randomness::execute(&call([0u8; 32]), None, 25).unwrap();
    assert_eq!(req.used_gas, 25);
}

#[test]
fn random_ignores_trailing_input() {
    let mut input = call([4u8; 32]);
    input.extend_from_slice(&[9, 9, 9]);
    let req = Randomness::execute(&input, None, 1).unwrap();
    assert_eq!(req.subject, [4u8; 32]);
}

#[test]
fn random_refusals() {
    assert_eq!(Randomness::execute(&[0xd4, 0xce], None, 1), Err(ExitError::SelectorOutOfBounds));
    assert_eq!(Randomness::execute(&[1, 2, 3, 4], None, 1), Err(ExitError::UnknownSelector));
    assert_eq!(Randomness::execute(&call([0u8; 32]), Some(24), 25), Err(ExitError::OutOfGas));
    assert_eq!(Randomness::execute(&call([0u8; 32]), Some(25), 25).map(|r| r.used_gas), Ok(25));
    assert_eq!(Randomness::execute(&SELECTOR, None, 1), Err(ExitError::ValueOutOfBounds));
    let short = call([0u8; 32]);
    assert_eq!(Randomness::execute(&short[..35], None, 1), Err(ExitError::ValueOutOfBounds));
}

#[test]
fn random_response_layout() {
    let req = RandomRequest { subject: [0u8; 32], used_gas: 77 };
    let (exit, output, gas) = req.respond([0xaau8; 32], 0x01020304);
    assert_eq!(exit, ExitSucceed::Returned);
    assert_eq!(gas, 77);
    let mut expected = vec![0xaau8; 32];
    expected.extend_from_slice(&[0u8; 28]);
    expected.extend_from_slice(&[1, 2, 3, 4]);
    assert_eq!(output, expected);
}

#[test]
fn written_words_read_back() {
    let data = EvmDataWriter::new().write_h256([5u8; 32]).write_u32(258).build();
    let mut reader = EvmDataReader::new(&data);
    assert_eq!(reader.read_h256(), Ok([5u8; 32]));
    let mut word = [0u8; 32];
    word[30] = 1;
    word[31] = 2;
    assert_eq!(reader.read_h256(), Ok(word));
    assert_eq!(reader.read_h256(), Err(ExitError::ValueOutOfBounds));
}

#[test]
fn reader_cursor_overflow() {
    let data = [0u8; 4];
    let mut reader = EvmDataReader { input: &data, cursor: usize::MAX - 10 };
    assert_eq!(reader.read_h256(), Err(ExitError::CursorOverflow));
}

#[test]
fn gasometer_counts_against_limit() {
    let mut g = Gasometer::new(Some(100));
    assert_eq!(g.record_cost(60), Ok(()));
    assert_eq!(g.record_cost(40), Ok(()));
    assert_eq!(g.used_gas(), 100);
    assert_eq!(g.record_cost(1), Err(ExitError::OutOfGas));
    assert_eq!(g.used_gas(), 101);
    let mut unlimited = Gasometer::new(None);
    assert_eq!(unlimited.record_cost(u64::MAX), Ok(()));
    assert_eq!(unlimited.record_cost(1), Err(ExitError::OutOfGas));
    assert_eq!(unlimited.used_gas(), u64::MAX);
}

fn hex_string(bytes: &[u8]) -> String {
    bytes.iter().map(|b| format!("{:02x}", b)).collect()
}

#[test]
fn test_randomness() {
    let selector = Action::Random.selector();
    println!("selector: {}", hex_string(&selector));
    let input = EvmDataWriter::new()
        .write_raw_bytes(&selector)
        .write_h256([0u8; 32])
        .build();
    println!("input: {}", hex_string(&input));
    let request = Randomness::execute(&input, None, 0).expect("can not execute");
    let out = request.respond([0u8; 32], 0);
    println!("seed: {}, blocknum: {}", hex_string(&out.1[0..32]), hex_string(&out.1[32..64]));
    assert_eq!(out.0, ExitSucceed::Returned);
    assert_eq!(out.1.len(), 64);
}
