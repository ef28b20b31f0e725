use cli::abi::DecodeError;
use cli::hash::H256;
use cli::message::{HyperlaneMessage, MESSAGE_HEADER_LEN};

fn envelope(body: &[u8]) -> Vec<u8> {
    let mut raw = vec![3u8];
    raw.extend_from_slice(&0x0102_0304u32.to_be_bytes());
    raw.extend_from_slice(&11155111u32.to_be_bytes());
    raw.extend_from_slice(&[0xaa; 32]);
    raw.extend_from_slice(&80001u32.to_be_bytes());
    raw.extend_from_slice(&[0xbb; 32]);
    raw.extend_from_slice(body);
    raw
}

#[test]
fn a_message_is_read_from_its_envelope() {
    let message = HyperlaneMessage::from_raw(&envelope(b"hello")).unwrap();
    assert_eq!(3, message.version);
    assert_eq!(0x0102_0304, message.nonce);
    assert_eq!(11155111, message.origin);
    assert!(H256([0xaa; 32]) == message.sender);
    assert_eq!(80001, message.destination);
    assert!(H256([0xbb; 32]) == message.recipient);
    assert_eq!(b"hello".to_vec(), message.body);
}

#[test]
fn the_header_alone_is_a_message_without_body() {
    let raw = envelope(b"");
    assert_eq!(MESSAGE_HEADER_LEN, raw.len());
    assert_eq!(77, MESSAGE_HEADER_LEN);
    let message = HyperlaneMessage::from_raw(&raw).unwrap();
    assert!(message.body.is_empty());
    assert_eq!(raw, message.to_vec());
}

#[test]
fn an_envelope_shorter_than_the_header_holds_no_message() {
    for len in [0usize, 1, 76] {
        let raw = envelope(b"")[..len].to_vec();
        assert!(matches!(HyperlaneMessage::from_raw(&raw), Err(DecodeError::TruncatedMessage)));
    }
}

#[test]
fn writing_a_message_gives_its_envelope_back() {
    for body in [&b""[..], &b"x"[..], &[0u8; 300][..]] {
        let raw = envelope(body);
        assert_eq!(raw, HyperlaneMessage::from_raw(&raw).unwrap().to_vec());
    }
    let message = HyperlaneMessage {
        version: 0,
        nonce: u32::MAX,
        origin: 0,
        sender: H256::zero(),
        destination: 256,
        recipient: H256([1; 32]),
        body: vec![9, 8, 7],
    };
    let raw = message.to_vec();
    assert_eq!(80, raw.len());
    assert_eq!([0, 0xff, 0xff, 0xff, 0xff, 0, 0, 0, 0], raw[..9]);
    assert_eq!([0, 0, 1, 0], raw[41..45]);
    assert_eq!([9, 8, 7], raw[77..]);
    let again = HyperlaneMessage::from_raw(&raw).unwrap();
    assert_eq!(u32::MAX, again.nonce);
    assert_eq!(256, again.destination);
}

#[test]
fn the_identifier_is_the_digest_of_the_envelope() {
    let raw = envelope(b"hello");
    let id = HyperlaneMessage::from_raw(&raw).unwrap().id();
    assert_eq!(ethers::utils::keccak256(&raw), id.0);
    assert_ne!(raw[..32], id.0);
    let other = HyperlaneMessage::from_raw(&envelope(b"hellp")).unwrap().id();
    assert!(id != other);
}
