//! The order of log items along the chain, and what makes two items the same.

use core::cmp::Ordering;
use vstd::prelude::*;
use vstd::std_specs::cmp::{PartialEqSpec, PartialOrdIs, PartialOrdSpec};
use crate::log::{optional_hash_view, LogView};
use crate::log_item::MailboxLogItem;
use crate::ordering::{
    hash_order, lemma_hash_order_mirrored, lemma_hash_order_transitive, partial_cmp_some_lt_none,
    some_lt_none_order,
};

verus! {

/// Two records are the same item where they come from the same transaction. Where they
/// stand in the log plays no part.
pub open spec fn same_item(a: LogView, b: LogView) -> bool {
    a.transaction_hash == b.transaction_hash
}

/// The order of two optional hashes, an absent one last. Two absent hashes are equal.
pub open spec fn optional_hash_order(a: Option<Seq<u8>>, b: Option<Seq<u8>>) -> Ordering {
    match (a, b) {
        (Some(x), Some(y)) => hash_order(x, y),
        (Some(_), None) => Ordering::Less,
        (None, Some(_)) => Ordering::Greater,
        (None, None) => Ordering::Equal,
    }
}

/// The order of two records by block number, then by log index.
///
/// At each step a present value comes before an absent one. The log index is looked at
/// only where both records are in the same block.
pub open spec fn position_order(a: LogView, b: LogView) -> Option<Ordering> {
    let by_block = some_lt_none_order(a.block_number, b.block_number);
    if by_block == Some(Ordering::Equal) {
        some_lt_none_order(a.log_index, b.log_index)
    } else {
        by_block
    }
}

/// The order of two records along the chain: by block number, then by log index, and
/// by transaction hash where these two do not tell the records apart. Any two records are
/// comparable.
pub open spec fn item_order(a: LogView, b: LogView) -> Option<Ordering> {
    let by_position = position_order(a, b);
    if by_position == Some(Ordering::Equal) || by_position is None {
        Some(optional_hash_order(a.transaction_hash, b.transaction_hash))
    } else {
        by_position
    }
}

/// `a` comes before `b` or is the same item.
pub open spec fn item_le(a: LogView, b: LogView) -> bool {
    item_order(a, b) == Some(Ordering::Less) || item_order(a, b) == Some(Ordering::Equal)
}

impl<'a> PartialEq for MailboxLogItem<'a> {
    fn eq(&self, other: &MailboxLogItem<'a>) -> (equal: bool) {
        self.transaction_hash() == other.transaction_hash()
    }
}

impl<'a> vstd::std_specs::cmp::PartialEqSpecImpl for MailboxLogItem<'a> {
    open spec fn obeys_eq_spec() -> bool {
        true
    }

    open spec fn eq_spec(&self, other: &MailboxLogItem<'a>) -> bool {
        same_item(self.log@, other.log@)
    }
}

impl<'a> PartialOrd for MailboxLogItem<'a> {
    fn partial_cmp(&self, other: &MailboxLogItem<'a>) -> (order: Option<Ordering>) {
        let mut order = partial_cmp_some_lt_none(&self.block_number(), &other.block_number());
        if matches!(order, Some(Ordering::Equal)) {
            order = partial_cmp_some_lt_none(&self.log_index(), &other.log_index());
        }
        if matches!(order, Some(Ordering::Equal) | None) {
            // two items without a transaction hash are the same item
            match partial_cmp_some_lt_none(&self.transaction_hash(), &other.transaction_hash()) {
                None => Some(Ordering::Equal),
                by_hash => by_hash,
            }
        } else {
            order
        }
    }

    fn lt(&self, other: &MailboxLogItem<'a>) -> (less: bool) {
        matches!(self.partial_cmp(other), Some(Ordering::Less))
    }

    fn le(&self, other: &MailboxLogItem<'a>) -> (at_most: bool) {
        matches!(self.partial_cmp(other), Some(Ordering::Less | Ordering::Equal))
    }

    fn gt(&self, other: &MailboxLogItem<'a>) -> (greater: bool) {
        matches!(self.partial_cmp(other), Some(Ordering::Greater))
    }

    fn ge(&self, other: &MailboxLogItem<'a>) -> (at_least: bool) {
        matches!(self.partial_cmp(other), Some(Ordering::Greater | Ordering::Equal))
    }
}

impl<'a> vstd::std_specs::cmp::PartialOrdSpecImpl for MailboxLogItem<'a> {
    open spec fn obeys_partial_cmp_spec() -> bool {
        true
    }

    open spec fn partial_cmp_spec(&self, other: &MailboxLogItem<'a>) -> Option<Ordering> {
        item_order(self.log@, other.log@)
    }
}

/// Every item is at the same place as itself.
pub proof fn lemma_item_order_reflexive(a: LogView)
    ensures
        item_order(a, a) == Some(Ordering::Equal),
        item_le(a, a),
{
}

/// Any two items are comparable.
pub proof fn lemma_item_order_total(a: LogView, b: LogView)
    ensures
        item_order(a, b) is Some,
{
}

/// Swapping two items mirrors their order, and only items that are the same are at the same
/// place: where each of two items comes before or with the other, they are the same item.
pub proof fn lemma_item_order_antisymmetric(a: LogView, b: LogView)
    requires
        a.wf(),
        b.wf(),
    ensures
        item_order(a, b) == Some(Ordering::Less) <==> item_order(b, a) == Some(Ordering::Greater),
        item_order(a, b) == Some(Ordering::Greater) <==> item_order(b, a) == Some(Ordering::Less),
        item_order(a, b) == Some(Ordering::Equal) <==> item_order(b, a) == Some(Ordering::Equal),
        item_order(a, b) == Some(Ordering::Equal) ==> same_item(a, b),
        item_le(a, b) && item_le(b, a) ==> same_item(a, b),
{
    if a.transaction_hash is Some && b.transaction_hash is Some {
        lemma_hash_order_mirrored(a.transaction_hash->Some_0, b.transaction_hash->Some_0);
        lemma_hash_order_mirrored(b.transaction_hash->Some_0, a.transaction_hash->Some_0);
    }
}

/// The order of items is transitive, with and without the items that are the same.
pub proof fn lemma_item_order_transitive(a: LogView, b: LogView, c: LogView)
    requires
        a.wf(),
        b.wf(),
        c.wf(),
    ensures
        item_le(a, b) && item_le(b, c) ==> item_le(a, c),
        item_order(a, b) == Some(Ordering::Less) && item_order(b, c) == Some(Ordering::Less)
            ==> item_order(a, c) == Some(Ordering::Less),
{
    if a.transaction_hash is Some && b.transaction_hash is Some && c.transaction_hash is Some {
        let x = a.transaction_hash->Some_0;
        let y = b.transaction_hash->Some_0;
        let z = c.transaction_hash->Some_0;
        lemma_hash_order_mirrored(x, y);
        lemma_hash_order_mirrored(y, z);
        lemma_hash_order_mirrored(x, z);
        if hash_order(x, y) == Ordering::Less && hash_order(y, z) == Ordering::Less {
            lemma_hash_order_transitive(x, y, z);
        }
    }
}

/// An item with a block number comes before every item without one.
pub proof fn lemma_mined_items_first(a: LogView, b: LogView)
    requires
        a.block_number is Some,
        b.block_number is None,
    ensures
        item_order(a, b) == Some(Ordering::Less),
        item_order(b, a) == Some(Ordering::Greater),
{
}

/// The comparison of items is a weak order along the chain.
///
/// It is reflexive and transitive, and any two items are comparable. Swapping two items
/// mirrors the result, and two items of which each comes before or with the other are equal.
/// An item with a block number comes before every item without one.
pub proof fn lemma_items_weakly_ordered(a: MailboxLogItem<'_>, b: MailboxLogItem<'_>, c: MailboxLogItem<'_>)
    ensures
        a.partial_cmp_spec(&a) == Some(Ordering::Equal),
        a.is_le(&a),
        a.partial_cmp_spec(&b) is Some,
        a.is_le(&b) && b.is_le(&c) ==> a.is_le(&c),
        a.is_lt(&b) && b.is_lt(&c) ==> a.is_lt(&c),
        a.is_lt(&b) <==> b.is_gt(&a),
        a.is_le(&b) && b.is_le(&a) ==> a.eq_spec(&b),
        a.log.block_number is Some && b.log.block_number is None ==> a.is_lt(&b),
{
    a.log.lemma_view_wf();
    b.log.lemma_view_wf();
    c.log.lemma_view_wf();
    lemma_item_order_reflexive(a.log@);
    lemma_item_order_total(a.log@, b.log@);
    lemma_item_order_transitive(a.log@, b.log@, c.log@);
    lemma_item_order_antisymmetric(a.log@, b.log@);
    if a.log.block_number is Some && b.log.block_number is None {
        lemma_mined_items_first(a.log@, b.log@);
    }
}

/// Two items are equal exactly where their records have the same transaction hash, whatever
/// their block numbers and log indices are.
pub proof fn lemma_items_equal_by_transaction(a: MailboxLogItem<'_>, b: MailboxLogItem<'_>)
    ensures
        a.eq_spec(&b) <==> optional_hash_view(a.log.transaction_hash) == optional_hash_view(
            b.log.transaction_hash,
        ),
        a.log.transaction_hash is Some && a.log.transaction_hash == b.log.transaction_hash
            ==> a.eq_spec(&b),
{
}

} // verus!
