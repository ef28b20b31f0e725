use cli::abi::{
    copy_range, decode_bytes_payload, decode_word_pair_payload, word_at, word_to_length,
    word_to_u32, DecodeError,
};
use cli::hash::H256;
use ethers::abi::{ParamType, Token};

fn word_of(number: u32) -> H256 {
    let mut bytes = [0u8; 32];
    bytes[28..].copy_from_slice(&number.to_be_bytes());
    H256(bytes)
}

fn payload_of(bytes: &[u8]) -> Vec<u8> {
    ethers::abi::encode(&[Token::Bytes(bytes.to_vec())])
}

fn their_bytes(data: &[u8]) -> Option<Vec<u8>> {
    match ethers::abi::decode(&[ParamType::Bytes], data) {
        Ok(mut tokens) => tokens.pop().and_then(|token| token.into_bytes()),
        Err(_) => None,
    }
}

#[test]
fn the_number_of_a_word_is_in_its_last_four_bytes() {
    assert_eq!(0, word_to_u32(&H256::zero()));
    assert_eq!(1, word_to_u32(&word_of(1)));
    assert_eq!(0x0102_0304, word_to_u32(&word_of(0x0102_0304)));
    assert_eq!(u32::MAX, word_to_u32(&word_of(u32::MAX)));
    assert_eq!(u32::MAX, word_to_u32(&H256([0xff; 32])));
}

#[test]
fn the_number_of_a_word_ignores_the_bytes_before_it() {
    let mut word = word_of(80001);
    word.0[0] = 7;
    word.0[27] = 9;
    assert_eq!(80001, word_to_u32(&word));
    let theirs = ethers::abi::decode(&[ParamType::Uint(32)], &word.0).unwrap();
    assert_eq!(80001, theirs[0].clone().into_uint().unwrap().low_u128() as u32);
}

#[test]
fn a_length_word_has_only_zeros_before_its_number() {
    assert_eq!(Some(0), word_to_length(&H256::zero()));
    assert_eq!(Some(32), word_to_length(&word_of(32)));
    assert_eq!(Some(u32::MAX), word_to_length(&word_of(u32::MAX)));
    let mut word = word_of(32);
    word.0[27] = 1;
    assert_eq!(None, word_to_length(&word));
    let mut word = word_of(32);
    word.0[0] = 1;
    assert_eq!(None, word_to_length(&word));
}

#[test]
fn words_and_ranges_are_copied_out() {
    let data: Vec<u8> = (0u8..100).collect();
    assert_eq!(data[0..32].to_vec(), word_at(&data, 0).to_vec());
    assert_eq!(data[68..100].to_vec(), word_at(&data, 68).to_vec());
    assert_eq!(data[5..9].to_vec(), copy_range(&data, 5, 9));
    assert_eq!(Vec::<u8>::new(), copy_range(&data, 100, 100));
    assert_eq!(data, copy_range(&data, 0, 100));
}

#[test]
fn a_byte_string_is_read_from_its_payload() {
    for len in [0usize, 1, 31, 32, 33, 77, 200] {
        let bytes: Vec<u8> = (0..len).map(|i| (i * 7 + 3) as u8).collect();
        let payload = payload_of(&bytes);
        assert_eq!(Ok(bytes.clone()), decode_bytes_payload(&payload));
        assert_eq!(Some(bytes), their_bytes(&payload));
    }
}

#[test]
fn a_byte_string_may_stand_anywhere_behind_its_offset() {
    let mut payload = vec![0u8; 32];
    payload[31] = 64;
    payload.extend_from_slice(&[0xaa; 32]);
    payload.extend_from_slice(&word_of(3).0);
    payload.extend_from_slice(&[1, 2, 3]);
    assert_eq!(Ok(vec![1, 2, 3]), decode_bytes_payload(&payload));
    assert_eq!(Some(vec![1, 2, 3]), their_bytes(&payload));
}

#[test]
fn an_empty_payload_holds_no_byte_string() {
    assert_eq!(Err(DecodeError::Empty), decode_bytes_payload(&vec![]));
    assert_eq!(None, their_bytes(&[]));
}

#[test]
fn a_payload_that_is_cut_short_holds_no_byte_string() {
    let payload = payload_of(&[9u8; 40]);
    for keep in [1usize, 31, 32, 63, 64, 65, 103] {
        let cut = payload[..keep].to_vec();
        assert_eq!(Err(DecodeError::InvalidData), decode_bytes_payload(&cut));
        assert_eq!(None, their_bytes(&cut));
    }
    assert_eq!(Ok(vec![9u8; 40]), decode_bytes_payload(&payload[..104].to_vec()));
    assert_eq!(Some(vec![9u8; 40]), their_bytes(&payload[..104]));
}

#[test]
fn an_offset_or_length_with_high_bytes_is_refused() {
    let mut payload = payload_of(&[1, 2, 3]);
    payload[0] = 1;
    assert_eq!(Err(DecodeError::InvalidData), decode_bytes_payload(&payload));
    assert_eq!(None, their_bytes(&payload));
    let mut payload = payload_of(&[1, 2, 3]);
    payload[32 + 27] = 1;
    assert_eq!(Err(DecodeError::InvalidData), decode_bytes_payload(&payload));
    assert_eq!(None, their_bytes(&payload));
    let mut payload = payload_of(&[1, 2, 3]);
    payload[28] = 0xff;
    payload[29] = 0xff;
    payload[30] = 0xff;
    payload[31] = 0xff;
    assert_eq!(Err(DecodeError::InvalidData), decode_bytes_payload(&payload));
    assert_eq!(None, their_bytes(&payload));
}

#[test]
fn two_words_are_read_from_the_start_of_a_payload() {
    let data: Vec<u8> = (0u8..70).collect();
    let pair = decode_word_pair_payload(&data).unwrap();
    assert_eq!(data[0..32].to_vec(), pair.0.to_vec());
    assert_eq!(data[32..64].to_vec(), pair.1.to_vec());
    let theirs = ethers::abi::decode(&[ParamType::Uint(256), ParamType::Uint(256)], &data).unwrap();
    assert_eq!(ethers::types::U256::from_big_endian(&pair.0 .0), theirs[0].clone().into_uint().unwrap());
    assert_eq!(ethers::types::U256::from_big_endian(&pair.1 .0), theirs[1].clone().into_uint().unwrap());
}

#[test]
fn two_words_need_sixty_four_bytes() {
    assert!(matches!(decode_word_pair_payload(&vec![]), Err(DecodeError::Empty)));
    assert!(matches!(decode_word_pair_payload(&vec![0u8; 1]), Err(DecodeError::InvalidData)));
    assert!(matches!(decode_word_pair_payload(&vec![0u8; 63]), Err(DecodeError::InvalidData)));
    assert!(decode_word_pair_payload(&vec![0u8; 64]).is_ok());
    assert!(ethers::abi::decode(&[ParamType::Uint(256), ParamType::Uint(256)], &[0u8; 63]).is_err());
}

fn their_result(data: &[u8]) -> Result<Vec<u8>, DecodeError> {
    match ethers::abi::decode(&[ParamType::Bytes], data) {
        Ok(mut tokens) => Ok(tokens.pop().and_then(|token| token.into_bytes()).unwrap()),
        Err(ethers::abi::Error::InvalidName(_)) => Err(DecodeError::Empty),
        Err(_) => Err(DecodeError::InvalidData),
    }
}

#[test]
fn byte_strings_read_as_the_abi_coder_reads_them() {
    let mut payload = vec![0u8; 32];
    payload[31] = 64;
    payload.extend_from_slice(&[0u8; 32]);
    payload.extend_from_slice(&word_of(40).0);
    payload.extend((0u8..50).map(|i| i + 1));
    assert_eq!(Ok((1u8..41).collect::<Vec<u8>>()), decode_bytes_payload(&payload));
    for keep in 0..=payload.len() {
        let cut = payload[..keep].to_vec();
        assert_eq!(their_result(&cut), decode_bytes_payload(&cut));
    }
    for at in (0..32).chain(64..96) {
        for value in [0u8, 1, 31, 32, 33, 64, 96, 97, 127, 128, 255] {
            let mut changed = payload.clone();
            changed[at] = value;
            assert_eq!(their_result(&changed), decode_bytes_payload(&changed));
        }
    }
}
