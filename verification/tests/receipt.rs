use cli::event_kind::EventKind;
use cli::hash::H256;
use cli::log::Log;
use cli::receipt::{can_find_dispatched_message_id, find_dispatched_message_id};

fn record(topics: Vec<H256>) -> Log {
    Log { topics, data: vec![], block_number: None, transaction_hash: None, log_index: None }
}

#[test]
fn the_first_announced_identifier_is_found() {
    let logs = vec![
        record(vec![EventKind::Dispatch.signature(), H256([1; 32])]),
        record(vec![EventKind::DispatchId.signature(), H256([2; 32])]),
        record(vec![EventKind::DispatchId.signature(), H256([3; 32])]),
    ];
    assert!(can_find_dispatched_message_id(&logs));
    assert!(find_dispatched_message_id(&logs) == Some(H256([2; 32])));
}

#[test]
fn a_receipt_without_announcement_has_no_identifier() {
    let logs = vec![
        record(vec![EventKind::Dispatch.signature(), H256([1; 32])]),
        record(vec![EventKind::ProcessId.signature(), H256([2; 32])]),
    ];
    assert!(can_find_dispatched_message_id(&logs));
    assert!(find_dispatched_message_id(&logs).is_none());
    assert!(can_find_dispatched_message_id(&vec![]));
    assert!(find_dispatched_message_id(&vec![]).is_none());
}

#[test]
fn records_behind_the_announcement_are_not_looked_at() {
    let logs = vec![record(vec![EventKind::DispatchId.signature(), H256([2; 32])]), record(vec![])];
    assert!(can_find_dispatched_message_id(&logs));
    assert!(find_dispatched_message_id(&logs) == Some(H256([2; 32])));
}

#[test]
fn a_receipt_that_cannot_be_searched_is_told_apart() {
    let logs = vec![record(vec![]), record(vec![EventKind::DispatchId.signature(), H256([2; 32])])];
    assert!(!can_find_dispatched_message_id(&logs));
    let logs = vec![record(vec![EventKind::DispatchId.signature()])];
    assert!(!can_find_dispatched_message_id(&logs));
    let logs = vec![record(vec![EventKind::Process.signature()]), record(vec![])];
    assert!(!can_find_dispatched_message_id(&logs));
}
