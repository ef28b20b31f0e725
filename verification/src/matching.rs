//! What the criteria of a query are asked about an item.

use vstd::prelude::*;
use crate::abi::DecodeError;
use crate::hash::H160;
use crate::log::LogView;
use crate::log_item::{
    destination_domain_of, origin_domain_of, recipient_of, sender_of, MailboxLogItem,
};

verus! {

/// The four values of an item that criteria speak of.
#[derive(Clone, Copy, Debug)]
pub struct MatchCandidate {
    /// Domain of the chain that the message comes from.
    pub origin: u32,
    /// The account that sent the message.
    pub sender: H160,
    /// Domain of the chain that the message goes to.
    pub destination: u32,
    /// The account that receives the message.
    pub recipient: H160,
}

/// The domain that a record names, or else the domain of the chain that the record was
/// read from.
pub open spec fn domain_or_local(domain: Option<u32>, local_domain: u32) -> u32 {
    match domain {
        Some(named) => named,
        None => local_domain,
    }
}

/// What the criteria are asked about a record: origin, sender, destination and recipient.
///
/// Only a record with both a sender and a recipient is put to the criteria. The chain that
/// the record was read from stands for the end of the message that the record does not
/// name: it is the origin of a message that was sent, and the destination of one that was
/// delivered.
pub open spec fn candidate_of(log: LogView, local_domain: u32) -> Result<
    Option<(u32, Seq<u8>, u32, Seq<u8>)>,
    DecodeError,
> {
    match sender_of(log) {
        Err(error) => Err(error),
        Ok(sender) => match recipient_of(log) {
            Err(error) => Err(error),
            Ok(recipient) => if sender is None || recipient is None {
                Ok(None)
            } else {
                match origin_domain_of(log) {
                    Err(error) => Err(error),
                    Ok(origin) => match destination_domain_of(log) {
                        Err(error) => Err(error),
                        Ok(destination) => Ok(
                            Some(
                                (
                                    domain_or_local(origin, local_domain),
                                    sender->Some_0,
                                    domain_or_local(destination, local_domain),
                                    recipient->Some_0,
                                ),
                            ),
                        ),
                    },
                }
            },
        },
    }
}

/// Whether an item is reported, given what the criteria said of its candidate. An item
/// that has no candidate is reported.
pub fn is_reported(verdict: Option<bool>) -> (reported: bool)
    ensures
        reported == match verdict {
            Some(matched) => matched,
            None => true,
        },
{
    match verdict {
        Some(matched) => matched,
        None => true,
    }
}

impl<'a> MailboxLogItem<'a> {
    /// What the criteria are asked about the item, if they are asked at all.
    pub fn match_candidate(&self, local_domain: u32) -> (candidate: Result<
        Option<MatchCandidate>,
        DecodeError,
    >)
        ensures
            match candidate {
                Ok(Some(c)) => candidate_of(self.log@, local_domain) == Ok::<
                    Option<(u32, Seq<u8>, u32, Seq<u8>)>,
                    DecodeError,
                >(Some((c.origin, c.sender@, c.destination, c.recipient@))),
                Ok(None) => candidate_of(self.log@, local_domain) == Ok::<
                    Option<(u32, Seq<u8>, u32, Seq<u8>)>,
                    DecodeError,
                >(None),
                Err(e) => candidate_of(self.log@, local_domain) == Err::<
                    Option<(u32, Seq<u8>, u32, Seq<u8>)>,
                    DecodeError,
                >(e),
            },
    {
        let sender = match self.sender() {
            Err(error) => { return Err(error); },
            Ok(sender) => sender,
        };
        let recipient = match self.recipient() {
            Err(error) => { return Err(error); },
            Ok(recipient) => recipient,
        };
        match (sender, recipient) {
            (Some(sender), Some(recipient)) => {
                let origin = match self.origin_domain() {
                    Err(error) => { return Err(error); },
                    Ok(Some(named)) => named,
                    Ok(None) => local_domain,
                };
                let destination = match self.destination_domain() {
                    Err(error) => { return Err(error); },
                    Ok(Some(named)) => named,
                    Ok(None) => local_domain,
                };
                Ok(Some(MatchCandidate { origin, sender, destination, recipient }))
            },
            _ => Ok(None),
        }
    }
}

} // verus!
