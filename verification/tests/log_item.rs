use cli::abi::DecodeError;
use cli::event_kind::EventKind;
use cli::hash::{H160, H256};
use cli::log::Log;
use cli::log_item::{LogItemMap, MailboxEvent, MailboxLogItem};
use cli::mailbox::MailboxLogType;
use ethers::abi::Token;

fn word_of(number: u32) -> H256 {
    let mut bytes = [0u8; 32];
    bytes[28..].copy_from_slice(&number.to_be_bytes());
    H256(bytes)
}

fn address_word(fill: u8) -> H256 {
    let mut bytes = [0u8; 32];
    for byte in bytes[12..].iter_mut() {
        *byte = fill;
    }
    H256(bytes)
}

fn envelope(body: &[u8]) -> Vec<u8> {
    let mut raw = vec![3u8];
    raw.extend_from_slice(&17u32.to_be_bytes());
    raw.extend_from_slice(&11155111u32.to_be_bytes());
    raw.extend_from_slice(&address_word(0x11).0);
    raw.extend_from_slice(&80001u32.to_be_bytes());
    raw.extend_from_slice(&address_word(0x22).0);
    raw.extend_from_slice(body);
    raw
}

fn record(topics: Vec<H256>, data: Vec<u8>) -> Log {
    Log { topics, data, block_number: Some(10), transaction_hash: Some(H256([7; 32])), log_index: Some(3) }
}

fn dispatch_record(message: &[u8]) -> Log {
    record(
        vec![EventKind::Dispatch.signature(), address_word(0x11), word_of(80001), address_word(0x22)],
        ethers::abi::encode(&[Token::Bytes(message.to_vec())]),
    )
}

fn process_record() -> Log {
    record(
        vec![EventKind::Process.signature(), word_of(11155111), address_word(0x33), address_word(0x44)],
        vec![],
    )
}

fn id_record(kind: EventKind, id: H256) -> Log {
    record(vec![kind.signature(), id], vec![])
}

fn unknown_record() -> Log {
    record(vec![H256([0xab; 32]), H256::zero()], vec![1, 2, 3])
}

#[test]
fn topic_layouts_differ_by_log_type() {
    let dispatch = LogItemMap::new(MailboxLogType::Dispatch);
    assert_eq!(MailboxLogType::Dispatch, dispatch.event_type);
    assert_eq!(1, dispatch.sender_topic_idx);
    assert_eq!(2, dispatch.domain_topic_idx);
    assert_eq!(3, dispatch.recipient_topic_idx);
    let process = LogItemMap::new(MailboxLogType::Process);
    assert_eq!(MailboxLogType::Process, process.event_type);
    assert_eq!(2, process.sender_topic_idx);
    assert_eq!(1, process.domain_topic_idx);
    assert_eq!(3, process.recipient_topic_idx);
}

#[test]
fn log_types_have_names() {
    assert_eq!("Dispatch", MailboxLogType::Dispatch.name());
    assert_eq!("Process", MailboxLogType::Process.name());
}

#[test]
fn events_are_named() {
    let named = [
        (EventKind::Dispatch, "Dispatch"),
        (EventKind::DispatchId, "Dispatch ID"),
        (EventKind::Process, "Process"),
        (EventKind::ProcessId, "Process ID"),
        (EventKind::GasPayment, "Gas Payment"),
    ];
    for (kind, name) in named {
        let log = record(vec![kind.signature()], vec![]);
        assert_eq!(name, MailboxLogItem { log: &log }.event_name());
    }
}

#[test]
fn an_unknown_event_is_named_by_its_signature() {
    let log = unknown_record();
    assert_eq!("0xabab\u{2026}abab", MailboxLogItem { log: &log }.event_name());
    assert_eq!(
        format!("{}", ethers::types::H256([0xab; 32])),
        MailboxLogItem { log: &log }.event_name()
    );
}

#[test]
fn the_signature_is_the_first_topic() {
    let log = process_record();
    assert!(EventKind::Process.signature() == MailboxLogItem { log: &log }.event_signature());
    let log = unknown_record();
    assert!(H256([0xab; 32]) == MailboxLogItem { log: &log }.event_signature());
    assert!(log.has_signature());
    assert!(!record(vec![], vec![]).has_signature());
}

#[test]
fn a_record_decodes_as_its_own_kind_only() {
    let kinds = [
        EventKind::Dispatch,
        EventKind::DispatchId,
        EventKind::Process,
        EventKind::ProcessId,
        EventKind::GasPayment,
    ];
    let mut payment = word_of(1).to_vec();
    payment.extend_from_slice(&word_of(2).0);
    let records = [
        dispatch_record(&envelope(b"body")),
        id_record(EventKind::DispatchId, H256([5; 32])),
        process_record(),
        id_record(EventKind::ProcessId, H256([6; 32])),
        record(vec![EventKind::GasPayment.signature(), H256([8; 32])], payment),
    ];
    for (at, log) in records.iter().enumerate() {
        let item = MailboxLogItem { log };
        for (other, kind) in kinds.iter().enumerate() {
            let event = item.to_event(*kind).unwrap();
            assert_eq!(at == other, event.is_some());
        }
        assert_eq!(at == 0, item.to_dispatch_event().unwrap().is_some());
        assert_eq!(at == 1, item.to_dispatch_id_event().unwrap().is_some());
        assert_eq!(at == 2, item.to_process_event().unwrap().is_some());
        assert_eq!(at == 3, item.to_process_id_event().unwrap().is_some());
        assert_eq!(at == 4, item.to_gas_pay_event().unwrap().is_some());
    }
    let log = unknown_record();
    for kind in kinds {
        assert!(MailboxLogItem { log: &log }.to_event(kind).unwrap().is_none());
    }
}

#[test]
fn decoding_as_a_kind_gives_an_event_of_that_kind() {
    let log = dispatch_record(b"short");
    match (MailboxLogItem { log: &log }).to_event(EventKind::Dispatch) {
        Ok(Some(MailboxEvent::Dispatch(event))) => assert_eq!(b"short".to_vec(), event.message),
        other => panic!("not a dispatch: {:?}", other),
    }
    let log = process_record();
    match (MailboxLogItem { log: &log }).to_event(EventKind::Process) {
        Ok(Some(MailboxEvent::Process(event))) => assert_eq!(11155111, event.origin),
        other => panic!("not a process: {:?}", other),
    }
    let log = id_record(EventKind::ProcessId, H256([6; 32]));
    match (MailboxLogItem { log: &log }).to_event(EventKind::ProcessId) {
        Ok(Some(MailboxEvent::ProcessId(event))) => assert!(H256([6; 32]) == event.message_id),
        other => panic!("not a process id: {:?}", other),
    }
}

#[test]
fn a_malformed_record_of_the_right_kind_is_an_error() {
    let mut log = dispatch_record(b"body");
    log.data.truncate(40);
    let item = MailboxLogItem { log: &log };
    assert!(matches!(item.to_event(EventKind::Dispatch), Err(DecodeError::InvalidData)));
    assert!(matches!(item.to_dispatch_event(), Err(DecodeError::InvalidData)));
    assert!(matches!(item.to_event(EventKind::Process), Ok(None)));
    assert!(matches!(item.sender(), Err(DecodeError::InvalidData)));
    assert!(matches!(item.recipient(), Err(DecodeError::InvalidData)));
    assert!(matches!(item.destination_domain(), Err(DecodeError::InvalidData)));
    assert!(matches!(item.hyperlane_message(), Err(DecodeError::InvalidData)));
    assert!(matches!(item.message_id(), Err(DecodeError::InvalidData)));
    assert!(matches!(item.origin_domain(), Ok(None)));
    let log = record(vec![EventKind::Process.signature()], vec![]);
    let item = MailboxLogItem { log: &log };
    assert!(matches!(item.to_process_event(), Err(DecodeError::Empty)));
    assert!(matches!(item.origin_domain(), Err(DecodeError::Empty)));
    assert!(matches!(item.sender(), Err(DecodeError::Empty)));
    assert!(matches!(item.destination_domain(), Ok(None)));
}

#[test]
fn sender_and_recipient_of_a_dispatch_record() {
    let log = dispatch_record(&envelope(b"body"));
    let item = MailboxLogItem { log: &log };
    assert!(H160([0x11; 20]) == item.sender().unwrap().unwrap());
    assert!(H160([0x22; 20]) == item.recipient().unwrap().unwrap());
    assert_eq!(Some(80001), item.destination_domain().unwrap());
    assert_eq!(None, item.origin_domain().unwrap());
}

#[test]
fn sender_and_recipient_of_a_process_record() {
    let log = process_record();
    let item = MailboxLogItem { log: &log };
    assert!(H160([0x33; 20]) == item.sender().unwrap().unwrap());
    assert!(H160([0x44; 20]) == item.recipient().unwrap().unwrap());
    assert_eq!(Some(11155111), item.origin_domain().unwrap());
    assert_eq!(None, item.destination_domain().unwrap());
    assert!(item.hyperlane_message().unwrap().is_none());
    assert!(item.message_id().unwrap().is_none());
}

#[test]
fn a_wide_address_is_cut_to_its_last_twenty_bytes() {
    let mut wide = [0u8; 32];
    for (at, byte) in wide.iter_mut().enumerate() {
        *byte = at as u8 + 1;
    }
    let mut log = dispatch_record(b"m");
    log.topics[3] = H256(wide);
    let recipient = MailboxLogItem { log: &log }.recipient().unwrap().unwrap();
    assert_eq!(wide[12..].to_vec(), recipient.to_vec());
    let mut log = process_record();
    log.topics[2] = H256(wide);
    let sender = MailboxLogItem { log: &log }.sender().unwrap().unwrap();
    assert_eq!(wide[12..].to_vec(), sender.to_vec());
}

#[test]
fn other_records_have_no_parties() {
    for log in [unknown_record(), id_record(EventKind::DispatchId, H256::zero())] {
        let item = MailboxLogItem { log: &log };
        assert!(item.sender().unwrap().is_none());
        assert!(item.recipient().unwrap().is_none());
        assert!(item.destination_domain().unwrap().is_none());
        assert!(item.origin_domain().unwrap().is_none());
        assert!(item.hyperlane_message().unwrap().is_none());
    }
}

#[test]
fn the_message_of_a_dispatch_record() {
    let raw = envelope(b"the body");
    let log = dispatch_record(&raw);
    let message = MailboxLogItem { log: &log }.hyperlane_message().unwrap().unwrap();
    assert_eq!(3, message.version);
    assert_eq!(17, message.nonce);
    assert_eq!(11155111, message.origin);
    assert_eq!(80001, message.destination);
    assert_eq!(b"the body".to_vec(), message.body);
    assert_eq!(raw, message.to_vec());
}

#[test]
fn a_dispatch_record_with_a_short_message_is_an_error() {
    let log = dispatch_record(&envelope(b"")[..76]);
    let item = MailboxLogItem { log: &log };
    assert!(matches!(item.hyperlane_message(), Err(DecodeError::TruncatedMessage)));
    assert!(matches!(item.message_id(), Err(DecodeError::TruncatedMessage)));
    assert!(item.to_dispatch_event().unwrap().is_some());
    assert!(item.sender().unwrap().is_some());
}

#[test]
fn the_identifier_of_a_dispatch_record_is_hashed() {
    let raw = envelope(b"the body");
    let mut log = dispatch_record(&raw);
    let id = MailboxLogItem { log: &log }.message_id().unwrap().unwrap();
    assert_eq!(ethers::utils::keccak256(&raw), id.0);
    // no topic is taken for it
    log.topics[1] = address_word(0x99);
    assert!(id == MailboxLogItem { log: &log }.message_id().unwrap().unwrap());
    assert!(id != log.topics[1]);
}

#[test]
fn the_identifier_of_an_identifier_record_is_its_topic() {
    let id = H256([0x5a; 32]);
    for kind in [EventKind::DispatchId, EventKind::ProcessId] {
        let mut log = id_record(kind, id);
        log.data = envelope(b"never hashed");
        assert!(id == MailboxLogItem { log: &log }.message_id().unwrap().unwrap());
    }
    let log = record(vec![EventKind::GasPayment.signature(), id], vec![0; 64]);
    assert!(MailboxLogItem { log: &log }.message_id().unwrap().is_none());
    let log = unknown_record();
    assert!(MailboxLogItem { log: &log }.message_id().unwrap().is_none());
}

#[test]
fn raw_fields_pass_through() {
    let log = unknown_record();
    let item = MailboxLogItem { log: &log };
    assert_eq!(Some(10), item.block_number());
    assert_eq!(Some(3), item.log_index());
    assert!(item.transaction_hash() == Some(H256([7; 32])));
    assert_eq!(&[1u8, 2, 3][..], item.data());
    assert_eq!("010203", item.data_hex());
    let bare = Log { topics: vec![], data: vec![], block_number: None, transaction_hash: None, log_index: None };
    let item = MailboxLogItem { log: &bare };
    assert_eq!(None, item.block_number());
    assert_eq!(None, item.log_index());
    assert!(item.transaction_hash().is_none());
    assert!(item.data().is_empty());
    assert_eq!("", item.data_hex());
}

#[test]
fn answers_are_the_same_each_time() {
    let log = dispatch_record(&envelope(b"body"));
    let item = MailboxLogItem { log: &log };
    let first = item.message_id().unwrap().unwrap();
    let second = item.message_id().unwrap().unwrap();
    assert!(first == second);
    assert_eq!(item.event_name(), item.event_name());
}

#[test]
fn a_record_without_topics_is_no_event() {
    let log = record(vec![], envelope(b"body"));
    let item = MailboxLogItem { log: &log };
    for kind in [
        EventKind::Dispatch,
        EventKind::DispatchId,
        EventKind::Process,
        EventKind::ProcessId,
        EventKind::GasPayment,
    ] {
        assert!(!item.carries(kind));
        assert!(matches!(item.to_event(kind), Ok(None)));
    }
    assert!(matches!(item.to_dispatch_event(), Ok(None)));
    assert!(matches!(item.to_dispatch_id_event(), Ok(None)));
    assert!(matches!(item.to_process_event(), Ok(None)));
    assert!(matches!(item.to_process_id_event(), Ok(None)));
    assert!(matches!(item.to_gas_pay_event(), Ok(None)));
    assert!(matches!(item.sender(), Ok(None)));
    assert!(matches!(item.recipient(), Ok(None)));
    assert!(matches!(item.destination_domain(), Ok(None)));
    assert!(matches!(item.origin_domain(), Ok(None)));
    assert!(matches!(item.hyperlane_message(), Ok(None)));
    assert!(matches!(item.message_id(), Ok(None)));
}

#[test]
fn a_record_carries_the_signature_of_its_first_topic_only() {
    let log = record(vec![H256::zero(), EventKind::Process.signature()], vec![]);
    let item = MailboxLogItem { log: &log };
    assert!(!item.carries(EventKind::Process));
    let log = process_record();
    let item = MailboxLogItem { log: &log };
    assert!(item.carries(EventKind::Process));
    assert!(!item.carries(EventKind::ProcessId));
}
