//! What the agent's services tell each other, and the bookkeeping of the
//! background tasks that a service starts and cancels.
use vstd::prelude::*;
use crate::text::str_equal;

verus! {

/// A table of string keys and values (settings, message headers), in the
/// order the entries were handed over. A key may occur more than once;
/// reading a key gives the value of its first entry (`lookup`).
pub struct StringTable {
    pub entries: Vec<(String, String)>,
}

/// The value of the first entry whose key is `key`.
pub open spec fn lookup(entries: Seq<(String, String)>, key: Seq<char>) -> Option<Seq<char>>
    decreases entries.len(),
{
    if entries.len() == 0 {
        None
    } else if entries[0].0@ == key {
        Some(entries[0].1@)
    } else {
        lookup(entries.drop_first(), key)
    }
}

impl StringTable {
    pub open spec fn spec_get(&self, key: Seq<char>) -> Option<Seq<char>> {
        lookup(self.entries@, key)
    }

    /// The value stored under `key`, if any.
    pub fn get(&self, key: &str) -> (r: Option<String>)
        ensures
            match r {
                Some(v) => self.spec_get(key@) == Some(v@),
                None => self.spec_get(key@) is None,
            },
    {
        let n = self.entries.len();
        let mut i: usize = 0;
        assert(self.entries@.skip(0) =~= self.entries@);
        while i < n
            invariant
                n == self.entries@.len(),
                i <= n,
                lookup(self.entries@, key@) == lookup(self.entries@.skip(i as int), key@),
            decreases n - i,
        {
            assert(self.entries@.skip(i as int)[0] == self.entries@[i as int]);
            assert(self.entries@.skip(i as int).drop_first() =~= self.entries@.skip(i + 1));
            if str_equal(self.entries[i].0.as_str(), key) {
                return Some(self.entries[i].1.clone());
            }
            i = i + 1;
        }
        assert(self.entries@.skip(n as int) =~= Seq::<(String, String)>::empty());
        None
    }
}

/// Events broadcast between the agent's services.
pub enum AgentEvent {
    /// The messaging service connected to the broker.
    MessagingConnected,
    /// The messaging service lost its connection.
    MessagingDisconnected,
    /// The broker client reported a disconnection.
    NatsDisconnected,
    /// The machine was provisioned.
    Provisioned,
    /// The machine was de-provisioned.
    Deprovisioned,
    /// The machine settings were synchronised.
    SettingsSynced,
    /// Settings changed: the table before and the entries that were set.
    SettingsUpdated { existing_settings: StringTable, new_settings: StringTable },
}

/// The cancellation token that a service keeps for one background task.
/// A cleared token stays in place, cancelled, until a new task replaces it.
#[derive(Debug, Clone, Copy, PartialEq, Eq, Structural)]
pub enum TaskSlot {
    /// No task was ever started.
    Empty,
    /// The task started last is running.
    Running,
    /// The task started last was cancelled.
    Cancelled,
}

/// What the owner of a `TaskSlot` has to do with the real token.
#[derive(Debug, Clone, Copy, PartialEq, Eq, Structural)]
pub enum SlotCommand {
    /// Leave the token alone.
    Keep,
    /// Cancel the token held now.
    Cancel,
}

/// The cancellation owed to the token held in `slot`: one when there is a
/// token.
pub open spec fn cancel_owed(slot: TaskSlot) -> SlotCommand {
    if slot == TaskSlot::Empty { SlotCommand::Keep } else { SlotCommand::Cancel }
}

/// The slot after its token, if any, was cancelled.
pub open spec fn cleared(slot: TaskSlot) -> TaskSlot {
    if slot == TaskSlot::Empty { TaskSlot::Empty } else { TaskSlot::Cancelled }
}

impl TaskSlot {
    /// Before a new task starts: cancel the token held now, if any.
    pub fn begin_restart(&mut self) -> (cmd: SlotCommand)
        ensures
            cmd == cancel_owed(*old(self)),
            *final(self) == cleared(*old(self)),
    {
        match self {
            TaskSlot::Empty => SlotCommand::Keep,
            _ => {
                *self = TaskSlot::Cancelled;
                SlotCommand::Cancel
            },
        }
    }

    /// The new task was started and its token stored.
    pub fn started(&mut self)
        ensures
            *final(self) == TaskSlot::Running,
    {
        *self = TaskSlot::Running;
    }

    /// Cancel the token held now; `true` when there was one.
    pub fn clear(&mut self) -> (r: (bool, SlotCommand))
        ensures
            r.0 == (*old(self) != TaskSlot::Empty),
            r.1 == cancel_owed(*old(self)),
            *final(self) == cleared(*old(self)),
    {
        match self {
            TaskSlot::Empty => (false, SlotCommand::Keep),
            _ => {
                *self = TaskSlot::Cancelled;
                (true, SlotCommand::Cancel)
            },
        }
    }
}

/// Why a message's payload could not be read.
pub enum PayloadFault {
    /// The bytes are not UTF-8; the decoder's message.
    NotUtf8 { detail: String },
    /// The text is not the JSON the message should hold; the parser's
    /// message.
    NotJson { detail: String },
}

} // verus!
