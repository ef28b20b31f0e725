use cli::abi::DecodeError;
use cli::event_kind::EventKind;
use cli::hash::H256;
use cli::log::Log;
use cli::log_item::MailboxLogItem;
use cli::report::{LogItemHeading, Route};
use ethers::abi::Token;

fn word_of(number: u32) -> H256 {
    let mut bytes = [0u8; 32];
    bytes[28..].copy_from_slice(&number.to_be_bytes());
    H256(bytes)
}

fn address_word(fill: u8) -> H256 {
    let mut bytes = [0u8; 32];
    for byte in bytes[12..].iter_mut() {
        *byte = fill;
    }
    H256(bytes)
}

fn envelope(body: &[u8]) -> Vec<u8> {
    let mut raw = vec![3u8];
    raw.extend_from_slice(&[0u8; 76]);
    raw.extend_from_slice(body);
    raw
}

fn record(topics: Vec<H256>, data: Vec<u8>) -> Log {
    Log { topics, data, block_number: Some(10), transaction_hash: Some(H256([7; 32])), log_index: Some(3) }
}

fn dispatch_record(message: &[u8]) -> Log {
    record(
        vec![EventKind::Dispatch.signature(), address_word(0x11), word_of(80001), address_word(0x22)],
        ethers::abi::encode(&[Token::Bytes(message.to_vec())]),
    )
}

fn process_record() -> Log {
    record(
        vec![EventKind::Process.signature(), word_of(11155111), address_word(0x33), address_word(0x44)],
        vec![],
    )
}

#[test]
fn the_heading_names_event_and_block() {
    let log = process_record();
    let heading = MailboxLogItem { log: &log }.heading();
    assert_eq!("Process", heading.event_name);
    assert_eq!("10", heading.block);
    assert_eq!("\nProcess in block 10", heading.text());
    let mut log = dispatch_record(b"m");
    log.block_number = None;
    assert_eq!("\nDispatch in block None", MailboxLogItem { log: &log }.heading().text());
}

#[test]
fn a_heading_joins_its_parts() {
    let heading = LogItemHeading { event_name: "Gas Payment".to_string(), block: "7".to_string() };
    assert_eq!("\nGas Payment in block 7", heading.text());
}

#[test]
fn the_route_is_the_destination_or_else_the_origin() {
    let log = dispatch_record(b"m");
    assert_eq!(Ok(Route::To(80001)), MailboxLogItem { log: &log }.route());
    let log = process_record();
    assert_eq!(Ok(Route::From(11155111)), MailboxLogItem { log: &log }.route());
    let log = record(vec![EventKind::DispatchId.signature(), H256::zero()], vec![]);
    assert_eq!(Ok(Route::Unrouted), MailboxLogItem { log: &log }.route());
    let log = record(vec![EventKind::Dispatch.signature()], vec![]);
    assert_eq!(Err(DecodeError::Empty), MailboxLogItem { log: &log }.route());
    let log = record(vec![EventKind::Process.signature(), H256::zero()], vec![]);
    assert_eq!(Err(DecodeError::InvalidData), MailboxLogItem { log: &log }.route());
}

#[test]
fn the_details_of_a_dispatch_record() {
    let raw = envelope(b"body");
    let log = dispatch_record(&raw);
    let details = MailboxLogItem { log: &log }.details();
    assert_eq!(None, details.error);
    assert_eq!(
        vec![
            format!("  Tx hash  : 0x{}", "07".repeat(32)),
            format!("  Sender   : 0x{}", "11".repeat(20)),
            format!("  Recipient: 0x{}", "22".repeat(20)),
            format!("  ID       : 0x{}", hex::encode(ethers::utils::keccak256(&raw))),
        ],
        details.lines
    );
}

#[test]
fn the_details_of_a_process_record() {
    let mut log = process_record();
    log.transaction_hash = None;
    let details = MailboxLogItem { log: &log }.details();
    assert_eq!(None, details.error);
    assert_eq!(
        vec![
            "  Tx hash  : None".to_string(),
            format!("  Sender   : 0x{}", "33".repeat(20)),
            format!("  Recipient: 0x{}", "44".repeat(20)),
        ],
        details.lines
    );
}

#[test]
fn the_details_of_other_records() {
    let log = record(vec![EventKind::ProcessId.signature(), H256([0x5a; 32])], vec![]);
    let details = MailboxLogItem { log: &log }.details();
    assert_eq!(None, details.error);
    assert_eq!(
        vec![format!("  Tx hash  : 0x{}", "07".repeat(32)), format!("  ID       : 0x{}", "5a".repeat(32))],
        details.lines
    );
    let log = record(vec![H256([0xab; 32])], vec![]);
    let details = MailboxLogItem { log: &log }.details();
    assert_eq!(None, details.error);
    assert_eq!(vec![format!("  Tx hash  : 0x{}", "07".repeat(32))], details.lines);
}

#[test]
fn details_stop_at_the_first_value_that_cannot_be_read() {
    let log = dispatch_record(b"too short for a message");
    let details = MailboxLogItem { log: &log }.details();
    assert_eq!(Some(DecodeError::TruncatedMessage), details.error);
    assert_eq!(3, details.lines.len());
    assert_eq!(format!("  Recipient: 0x{}", "22".repeat(20)), details.lines[2]);
    let mut log = dispatch_record(b"m");
    log.data.clear();
    let details = MailboxLogItem { log: &log }.details();
    assert_eq!(Some(DecodeError::Empty), details.error);
    assert_eq!(vec![format!("  Tx hash  : 0x{}", "07".repeat(32))], details.lines);
}

#[test]
fn a_record_without_topics_has_no_route_and_one_detail() {
    let log = record(vec![], vec![1, 2, 3]);
    let item = MailboxLogItem { log: &log };
    assert_eq!(Ok(Route::Unrouted), item.route());
    let details = item.details();
    assert_eq!(None, details.error);
    assert_eq!(vec![format!("  Tx hash  : 0x{}", "07".repeat(32))], details.lines);
}
