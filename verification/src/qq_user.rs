//! A private-chat partner and the conversation kept with them.

use vstd::prelude::*;
use crate::iflow_json::{AiMessageItem, reply_text};
use crate::memory::{
    appended_one, assistant_entries_nonempty, is_assistant_entry, is_system_entry, is_user_entry,
    remember_assistant, remember_system, remember_user,
};

verus! {

/// A QQ user who chats with the bot in private, with the conversation so far.
#[derive(Debug)]
pub struct QQUser {
    pub memory: Vec<AiMessageItem>,
    pub user_id: u64,
    pub user_name: String,
}

impl QQUser {
    /// A user with an empty conversation.
    pub fn new(user_id: u64, user_name: &str) -> (r: Self)
        ensures
            r.memory@.len() == 0,
            r.user_id == user_id,
            r.user_name@ == user_name@,
    {
        QQUser { memory: Vec::with_capacity(10), user_id, user_name: String::from_str(user_name) }
    }

    /// Adds what the user said to the conversation.
    pub fn push_memory_user(&mut self, text: &str)
        ensures
            appended_one(old(self).memory@, final(self).memory@),
            is_user_entry(final(self).memory@.last(), text@),
            final(self).user_id == old(self).user_id,
            final(self).user_name == old(self).user_name,
            assistant_entries_nonempty(old(self).memory@) ==> assistant_entries_nonempty(
                final(self).memory@,
            ),
    {
        remember_user(&mut self.memory, text);
    }

    /// Adds an instruction or a description to the conversation.
    pub fn push_memory_system(&mut self, text: &str)
        ensures
            appended_one(old(self).memory@, final(self).memory@),
            is_system_entry(final(self).memory@.last(), text@),
            final(self).user_id == old(self).user_id,
            final(self).user_name == old(self).user_name,
            assistant_entries_nonempty(old(self).memory@) ==> assistant_entries_nonempty(
                final(self).memory@,
            ),
    {
        remember_system(&mut self.memory, text);
    }

    /// Adds a reply of the bot to the conversation; an empty reply is kept as
    /// `null`.
    pub fn push_memory_assistant(&mut self, text: &str)
        ensures
            appended_one(old(self).memory@, final(self).memory@),
            is_assistant_entry(final(self).memory@.last(), reply_text(text@)),
            text@.len() > 0 ==> is_assistant_entry(final(self).memory@.last(), text@),
            text@.len() == 0 ==> is_assistant_entry(final(self).memory@.last(), "null"@),
            final(self).user_id == old(self).user_id,
            final(self).user_name == old(self).user_name,
            assistant_entries_nonempty(old(self).memory@) ==> assistant_entries_nonempty(
                final(self).memory@,
            ),
    {
        remember_assistant(&mut self.memory, text);
    }
}

} // verus!
