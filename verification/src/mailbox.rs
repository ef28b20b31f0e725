//! The records of one query, in the order in which they were fetched.

use vstd::prelude::*;
use crate::log::Log;
use crate::log_item::MailboxLogItem;

verus! {

/// The two events that a query looks for.
#[derive(Clone, Copy, Debug, PartialEq, Eq, Structural)]
pub enum MailboxLogType {
    /// A message was sent.
    Dispatch,
    /// A message was delivered.
    Process,
}

impl MailboxLogType {
    /// The name of the log type.
    pub fn name(&self) -> (name: &'static str)
        ensures
            name == match *self {
                MailboxLogType::Dispatch => "Dispatch",
                MailboxLogType::Process => "Process",
            },
    {
        match self {
            MailboxLogType::Dispatch => "Dispatch",
            MailboxLogType::Process => "Process",
        }
    }
}

/// The records of one query. They stay in the order in which they came: nothing is dropped,
/// added or moved.
pub struct MailboxLog {
    /// The records.
    pub logs: Vec<Log>,
}

/// A walk over the records of a [`MailboxLog`], from the first to the last.
pub struct MailboxLogIter<'a> {
    logs: &'a Vec<Log>,
    position: usize,
}

impl<'a> MailboxLogIter<'a> {
    /// The records that the walk goes over.
    pub closed spec fn logs(&self) -> Seq<Log> {
        self.logs@
    }

    /// How many records the walk has handed out.
    pub closed spec fn position(&self) -> int {
        self.position as int
    }

    /// The walk never runs past the last record.
    #[verifier::type_invariant]
    spec fn within(&self) -> bool {
        self.position <= self.logs@.len()
    }

    /// How many records the walk has yet to hand out.
    pub fn remaining(&self) -> (count: usize)
        ensures
            count == self.logs().len() - self.position(),
            0 <= self.position() <= self.logs().len(),
    {
        proof {
            use_type_invariant(self);
        }
        self.logs.len() - self.position
    }

    /// Hands out the item of the next record, or nothing once all records were handed out.
    pub fn next(&mut self) -> (item: Option<MailboxLogItem<'a>>)
        ensures
            final(self).logs() == old(self).logs(),
            0 <= final(self).position() <= final(self).logs().len(),
            old(self).position() < old(self).logs().len() ==> {
                &&& item is Some
                &&& *item->Some_0.log == old(self).logs()[old(self).position()]
                &&& final(self).position() == old(self).position() + 1
            },
            old(self).position() >= old(self).logs().len() ==> {
                &&& item is None
                &&& final(self).position() == old(self).position()
            },
    {
        proof {
            use_type_invariant(&*self);
        }
        if self.position < self.logs.len() {
            let log = &self.logs[self.position];
            self.position = self.position + 1;
            Some(MailboxLogItem { log })
        } else {
            None
        }
    }
}

impl MailboxLog {
    /// Starts a walk over the records, at the first one. Each walk is on its own: one does
    /// not move another, and none changes the records.
    pub fn iter(&self) -> (walk: MailboxLogIter<'_>)
        ensures
            walk.logs() == self.logs@,
            walk.position() == 0,
    {
        MailboxLogIter { logs: &self.logs, position: 0 }
    }

    /// The number of records.
    pub fn len(&self) -> (count: usize)
        ensures
            count == self.logs@.len(),
    {
        self.logs.len()
    }

    /// The item of the record at `index`.
    pub fn get(&self, index: usize) -> (item: Option<MailboxLogItem<'_>>)
        ensures
            index < self.logs@.len() ==> item is Some && *item->Some_0.log == self.logs@[index as int],
            index >= self.logs@.len() ==> item is None,
    {
        if index < self.logs.len() {
            Some(MailboxLogItem { log: &self.logs[index] })
        } else {
            None
        }
    }

    /// The items of all records, in the records' order.
    pub fn items(&self) -> (items: Vec<MailboxLogItem<'_>>)
        ensures
            items@.len() == self.logs@.len(),
            forall|i: int| 0 <= i < items@.len() ==> *(#[trigger] items@[i]).log == self.logs@[i],
    {
        let mut items: Vec<MailboxLogItem<'_>> = Vec::new();
        let mut i: usize = 0;
        while i < self.logs.len()
            invariant
                i <= self.logs@.len(),
                items@.len() == i,
                forall|j: int| 0 <= j < i ==> *(#[trigger] items@[j]).log == self.logs@[j],
            decreases self.logs@.len() - i,
        {
            items.push(MailboxLogItem { log: &self.logs[i] });
            i += 1;
        }
        items
    }
}

} // verus!
