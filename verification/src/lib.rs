//! Query engine for the event log of a cross-chain mailbox contract.
//!
//! A query names a window of blocks by markers that may count back from the chain's head
//! ([`block_range`]), and gets the records of the contract's log in that window
//! ([`mailbox`]). Each record is read on demand as the event that it reports
//! ([`log_item`], [`event`]), and the records have an order along the chain and an identity
//! ([`item_order`]). What a run reports of each record is in [`report`], and what the
//! criteria of a query are asked about it in [`matching`].
//!
//! The rest serves the program around the engine: the parameters of a run and their rules
//! ([`params`]), the notation of query criteria ([`criteria`]), the receipt of a dispatch
//! ([`receipt`]) and the upkeep of the readme ([`readme`]).

pub mod abi;
pub mod block_range;
pub mod criteria;
pub mod digest;
pub mod event;
pub mod event_kind;
pub mod hash;
pub mod item_order;
pub mod log;
pub mod log_item;
pub mod matching;
pub mod mailbox;
pub mod message;
pub mod ordering;
pub mod params;
pub mod readme;
pub mod receipt;
pub mod report;
pub mod text;
