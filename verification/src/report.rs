//! What a query reports of each log item, as text.

use vstd::prelude::*;
use vstd::string::to_string_from_display_ensures;
use vstd::string::StringExecFns;
use crate::abi::DecodeError;
use crate::hash::{H160, H256};
use crate::log::LogView;
use crate::log_item::{
    destination_domain_of, event_label, item_message_id_of, origin_domain_of, recipient_of,
    sender_of, MailboxLogItem,
};
use crate::text::{full_hex_text, hex_encode, hex_text, option_into_display_string, text_or_none};

verus! {

/// The chain at the other end of a record's message.
#[derive(Clone, Copy, Debug, PartialEq, Eq, Structural)]
pub enum Route {
    /// The message goes to the chain of this domain.
    To(u32),
    /// The message comes from the chain of this domain.
    From(u32),
    /// The record names no other chain.
    Unrouted,
}

/// The first line of the report of an item: its event and its block.
pub struct LogItemHeading {
    /// The name of the event.
    pub event_name: String,
    /// The number of the block, or `None`.
    pub block: String,
}

/// The lines that follow the first line of the report of an item, and the error that cut
/// them short, if one did.
pub struct LogItemDetails {
    /// The lines, each without its line end.
    pub lines: Vec<String>,
    /// Why the lines stop where they do, if not because they are complete.
    pub error: Option<DecodeError>,
}

/// The texts of lines.
pub open spec fn line_texts(lines: Seq<String>) -> Seq<Seq<char>> {
    Seq::new(lines.len(), |i: int| lines[i]@)
}

/// The chain at the other end of a record's message: the destination where the record has
/// one, else the origin where it has one.
pub open spec fn route_of(log: LogView) -> Result<Route, DecodeError> {
    match destination_domain_of(log) {
        Err(error) => Err(error),
        Ok(Some(domain)) => Ok(Route::To(domain)),
        Ok(None) => match origin_domain_of(log) {
            Err(error) => Err(error),
            Ok(Some(domain)) => Ok(Route::From(domain)),
            Ok(None) => Ok(Route::Unrouted),
        },
    }
}

/// A line that names a value and gives it in full hexadecimal.
pub open spec fn labelled_hex(label: Seq<char>, bytes: Seq<u8>) -> Seq<char> {
    label + full_hex_text(bytes)
}

/// The line of the transaction hash.
pub open spec fn transaction_line(hash: Option<Seq<u8>>) -> Seq<char> {
    match hash {
        Some(bytes) => labelled_hex("  Tx hash  : "@, bytes),
        None => "  Tx hash  : "@ + "None"@,
    }
}

/// The lines after `lines` that one more value of a record gives: its line where the record
/// has the value, none where it has not, and the error where the value cannot be read.
pub open spec fn with_value(
    lines: Seq<Seq<char>>,
    label: Seq<char>,
    value: Result<Option<Seq<u8>>, DecodeError>,
) -> (Seq<Seq<char>>, Option<DecodeError>) {
    match value {
        Err(error) => (lines, Some(error)),
        Ok(Some(bytes)) => (lines.push(labelled_hex(label, bytes)), None),
        Ok(None) => (lines, None),
    }
}

/// The detail lines of a record: the transaction hash, then sender, recipient and message
/// identifier as far as the record has them. The first value that cannot be read ends the
/// lines.
pub open spec fn details_of(log: LogView) -> (Seq<Seq<char>>, Option<DecodeError>) {
    let first = seq![transaction_line(log.transaction_hash)];
    let with_sender = with_value(first, "  Sender   : "@, sender_of(log));
    if with_sender.1 is Some {
        with_sender
    } else {
        let with_recipient = with_value(with_sender.0, "  Recipient: "@, recipient_of(log));
        if with_recipient.1 is Some {
            with_recipient
        } else {
            with_value(with_recipient.0, "  ID       : "@, item_message_id_of(log))
        }
    }
}

impl LogItemHeading {
    /// The heading as one text: a line end, the event, and the block.
    pub fn text(&self) -> (text: String)
        ensures
            text@ == "\n"@ + self.event_name@ + " in block "@ + self.block@,
    {
        String::from_str("\n").concat(self.event_name.as_str()).concat(" in block ").concat(
            self.block.as_str(),
        )
    }
}

/// Writes the line of a hash under a label.
fn hash_line(label: &str, hash: &H256) -> (line: String)
    ensures
        line@ == labelled_hex(label@, hash@),
{
    String::from_str(label).concat(hash.to_hex_string().as_str())
}

/// Writes the line of an address under a label.
fn address_line(label: &str, address: &H160) -> (line: String)
    ensures
        line@ == labelled_hex(label@, address@),
{
    String::from_str(label).concat(address.to_hex_string().as_str())
}

impl<'a> MailboxLogItem<'a> {
    /// The first line of the item's report.
    pub fn heading(&self) -> (heading: LogItemHeading)
        requires
            self.log@.has_signature(),
        ensures
            heading.event_name@ == event_label(self.log@.topics[0]),
            match self.log@.block_number {
                Some(number) => to_string_from_display_ensures::<u64>(&number, heading.block),
                None => heading.block@ == "None"@,
            },
    {
        LogItemHeading {
            event_name: self.event_name(),
            block: option_into_display_string(&self.block_number()),
        }
    }

    /// The chain at the other end of the item's message.
    pub fn route(&self) -> (route: Result<Route, DecodeError>)
        ensures
            route == route_of(self.log@),
    {
        match self.destination_domain() {
            Err(error) => Err(error),
            Ok(Some(domain)) => Ok(Route::To(domain)),
            Ok(None) => match self.origin_domain() {
                Err(error) => Err(error),
                Ok(Some(domain)) => Ok(Route::From(domain)),
                Ok(None) => Ok(Route::Unrouted),
            },
        }
    }

    /// The lines of the item's report after the first.
    pub fn details(&self) -> (details: LogItemDetails)
        ensures
            line_texts(details.lines@) == details_of(self.log@).0,
            details.error == details_of(self.log@).1,
    {
        let mut lines: Vec<String> = Vec::new();
        let first = match self.transaction_hash() {
            Some(hash) => hash_line("  Tx hash  : ", &hash),
            None => String::from_str("  Tx hash  : ").concat(text_or_none(None).as_str()),
        };
        lines.push(first);
        assert(line_texts(lines@) =~= seq![transaction_line(self.log@.transaction_hash)]);
        match self.sender() {
            Err(error) => { return LogItemDetails { lines, error: Some(error) }; },
            Ok(Some(sender)) => {
                let ghost before = lines@;
                lines.push(address_line("  Sender   : ", &sender));
                assert(line_texts(lines@) =~= line_texts(before).push(
                    labelled_hex("  Sender   : "@, sender@),
                ));
            },
            Ok(None) => {},
        }
        match self.recipient() {
            Err(error) => { return LogItemDetails { lines, error: Some(error) }; },
            Ok(Some(recipient)) => {
                let ghost before = lines@;
                lines.push(address_line("  Recipient: ", &recipient));
                assert(line_texts(lines@) =~= line_texts(before).push(
                    labelled_hex("  Recipient: "@, recipient@),
                ));
            },
            Ok(None) => {},
        }
        match self.message_id() {
            Err(error) => { return LogItemDetails { lines, error: Some(error) }; },
            Ok(Some(id)) => {
                let ghost before = lines@;
                lines.push(hash_line("  ID       : ", &id));
                assert(line_texts(lines@) =~= line_texts(before).push(
                    labelled_hex("  ID       : "@, id@),
                ));
            },
            Ok(None) => {},
        }
        LogItemDetails { lines, error: None }
    }

    /// The payload of the record in hexadecimal.
    pub fn data_hex(&self) -> (text: String)
        ensures
            text@ == hex_text(self.log@.data),
    {
        hex_encode(self.data())
    }
}

} // verus!
