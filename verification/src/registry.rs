//! The context registry: one conversation context per conversation key,
//! created lazily on the first observed message. Lookup goes by the
//! channel component of the key, as the inbound events carry it.

use vstd::prelude::*;

use crate::history::{ChatHistory, default_start_context};

verus! {

/// The opaque conversation key: a direct channel, or a channel within a
/// guild.
#[derive(Clone, Copy, PartialEq, Eq, Structural, Debug)]
pub enum ChatMedium {
    Channel(u64),
    Guild(u64, u64),
}

impl ChatMedium {
    /// The channel component of the key.
    pub open spec fn spec_channel_id(&self) -> u64 {
        match *self {
            ChatMedium::Channel(c) => c,
            ChatMedium::Guild(_, c) => c,
        }
    }

    /// Whether this key names the given channel.
    pub fn is_channel(&self, channel_id: u64) -> (r: bool)
        ensures
            r == (self.spec_channel_id() == channel_id),
    {
        match self {
            ChatMedium::Channel(chan) => *chan == channel_id,
            ChatMedium::Guild(_, chan) => *chan == channel_id,
        }
    }
}

/// One registered conversation.
pub struct HistoryEntry {
    pub medium: ChatMedium,
    pub history: ChatHistory,
}

/// The registry itself.
pub struct HistoryMap {
    pub entries: Vec<HistoryEntry>,
}

/// A freshly created context for the given privacy flag: empty logs, the
/// default preamble and configuration, the estimate counted from the
/// preamble alone.
pub open spec fn fresh_history(h: ChatHistory, is_private: bool) -> bool {
    &&& h.wf()
    &&& h.is_private == is_private
    &&& h.human_chat_log@.len() == 0
    &&& h.ai_chat_log@.len() == 0
    &&& h.seen_names@.len() == 0
    &&& h.start_context@ == default_start_context()
}

impl HistoryMap {
    /// Every registered context is well-formed.
    pub open spec fn wf(&self) -> bool {
        forall|i: int| 0 <= i < self.entries@.len() ==> (#[trigger] self.entries@[i]).history.wf()
    }

    /// Whether some registered key names the given channel.
    pub fn contains_medium(&self, channel_id: u64) -> (r: bool)
        ensures
            r == exists|i: int|
                0 <= i < self.entries@.len() && (#[trigger] self.entries@[i]).medium.spec_channel_id()
                    == channel_id,
    {
        let n = self.entries.len();
        let mut i: usize = 0;
        while i < n
            invariant
                i <= n,
                n == self.entries@.len(),
                forall|j: int|
                    0 <= j < i ==> (#[trigger] self.entries@[j]).medium.spec_channel_id()
                        != channel_id,
            decreases n - i,
        {
            if self.entries[i].medium.is_channel(channel_id) {
                return true;
            }
            i = i + 1;
        }
        false
    }

    /// Registers a new conversation under the given key.
    pub fn create_from_initial_message(&mut self, medium: ChatMedium, is_private: bool)
        ensures
            final (self).entries@.len() == old(self).entries@.len() + 1,
            final (self).entries@.drop_last() == old(self).entries@,
            final (self).entries@.last().medium == medium,
            fresh_history(final (self).entries@.last().history, is_private),
    {
        let history = ChatHistory::new(is_private);
        self.entries.push(HistoryEntry { medium, history });
        proof {
            assert(final (self).entries@.drop_last() =~= old(self).entries@);
        }
    }

    /// The position of the first registered key naming the given channel.
    pub fn find_channel(&self, channel_id: u64) -> (r: Option<usize>)
        ensures
            (r is Some) == exists|i: int|
                0 <= i < self.entries@.len() && (#[trigger] self.entries@[i]).medium.spec_channel_id()
                    == channel_id,
            r matches Some(i) ==> {
                &&& i < self.entries@.len()
                &&& self.entries@[i as int].medium.spec_channel_id() == channel_id
                &&& forall|j: int|
                    0 <= j < i ==> (#[trigger] self.entries@[j]).medium.spec_channel_id()
                        != channel_id
            },
    {
        let n = self.entries.len();
        let mut i: usize = 0;
        while i < n
            invariant
                i <= n,
                n == self.entries@.len(),
                forall|j: int|
                    0 <= j < i ==> (#[trigger] self.entries@[j]).medium.spec_channel_id()
                        != channel_id,
            decreases n - i,
        {
            if self.entries[i].medium.is_channel(channel_id) {
                return Some(i);
            }
            i = i + 1;
        }
        None
    }

    /// Looks the channel up and registers a fresh context only when it is
    /// absent: the atomic form of check-then-insert, so two callers cannot
    /// race a key into existence twice.
    pub fn get_or_create(&mut self, medium: ChatMedium, is_private: bool) -> (i: usize)
        ensures
            i < final (self).entries@.len(),
            final (self).entries@[i as int].medium.spec_channel_id() == medium.spec_channel_id(),
            (exists|j: int|
                0 <= j < old(self).entries@.len() && (#[trigger] old(
                    self,
                ).entries@[j]).medium.spec_channel_id() == medium.spec_channel_id()) ==> *final (
            self) == *old(self),
            !(exists|j: int|
                0 <= j < old(self).entries@.len() && (#[trigger] old(
                    self,
                ).entries@[j]).medium.spec_channel_id() == medium.spec_channel_id()) ==> {
                &&& final (self).entries@.len() == old(self).entries@.len() + 1
                &&& final (self).entries@.drop_last() == old(self).entries@
                &&& final (self).entries@.last().medium == medium
                &&& fresh_history(final (self).entries@.last().history, is_private)
                &&& i == old(self).entries@.len()
            },
    {
        let channel_id = medium_channel_id(&medium);
        match self.find_channel(channel_id) {
            Some(i) => i,
            None => {
                let n = self.entries.len();
                self.create_from_initial_message(medium, is_private);
                n
            },
        }
    }

    /// Borrows the context at a registered position for mutation.
    pub fn history_mut(&mut self, i: usize) -> (r: &mut ChatHistory)
        requires
            i < old(self).entries@.len(),
        ensures
            *r == old(self).entries@[i as int].history,
            final (self).entries@ == old(self).entries@.update(
                i as int,
                (HistoryEntry {
                    medium: old(self).entries@[i as int].medium,
                    history: *final (r),
                }),
            ),
    {
        &mut self.entries[i].history
    }
}

/// The channel component of a key, at runtime.
fn medium_channel_id(m: &ChatMedium) -> (r: u64)
    ensures
        r == m.spec_channel_id(),
{
    match m {
        ChatMedium::Channel(c) => *c,
        ChatMedium::Guild(_, c) => *c,
    }
}

impl std::default::Default for HistoryMap {
    /// An empty registry.
    fn default() -> (r: Self)
        ensures
            r.entries@.len() == 0,
            r.wf(),
    {
        HistoryMap { entries: Vec::new() }
    }
}

} // verus!
