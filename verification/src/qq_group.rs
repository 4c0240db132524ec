//! A group chat and the conversation kept in it.

use vstd::prelude::*;
use crate::iflow_json::{AiMessageItem, reply_text};
use crate::memory::{
    appended_one, assistant_entries_nonempty, is_assistant_entry, is_system_entry, is_user_entry,
    remember_assistant, remember_system, remember_user,
};

verus! {

/// A QQ group the bot takes part in, with the conversation so far.
#[derive(Debug)]
pub struct QQGroup {
    pub memory: Vec<AiMessageItem>,
    pub group_info: Option<GroupInfo>,
    pub group_id: u64,
}

impl QQGroup {
    /// A group with an empty conversation.
    pub fn new(group_id: u64, group_info: Option<GroupInfo>) -> (r: Self)
        ensures
            r.memory@.len() == 0,
            r.group_id == group_id,
            r.group_info == group_info,
    {
        QQGroup { memory: Vec::with_capacity(10), group_info, group_id }
    }

    /// Adds what a member said to the conversation.
    pub fn push_memory_user(&mut self, text: &str)
        ensures
            appended_one(old(self).memory@, final(self).memory@),
            is_user_entry(final(self).memory@.last(), text@),
            final(self).group_id == old(self).group_id,
            final(self).group_info == old(self).group_info,
            assistant_entries_nonempty(old(self).memory@) ==> assistant_entries_nonempty(
                final(self).memory@,
            ),
    {
        remember_user(&mut self.memory, text);
    }

    /// Adds an instruction or a description to the conversation.
    pub fn push_memory_system(&mut self, text: &str)
        ensures
            appended_one(old(self).memory@, final(self).memory@),
            is_system_entry(final(self).memory@.last(), text@),
            final(self).group_id == old(self).group_id,
            final(self).group_info == old(self).group_info,
            assistant_entries_nonempty(old(self).memory@) ==> assistant_entries_nonempty(
                final(self).memory@,
            ),
    {
        remember_system(&mut self.memory, text);
    }

    /// Adds a reply of the bot to the conversation; an empty reply is kept as
    /// `null`.
    pub fn push_memory_assistant(&mut self, text: &str)
        ensures
            appended_one(old(self).memory@, final(self).memory@),
            is_assistant_entry(final(self).memory@.last(), reply_text(text@)),
            text@.len() > 0 ==> is_assistant_entry(final(self).memory@.last(), text@),
            text@.len() == 0 ==> is_assistant_entry(final(self).memory@.last(), "null"@),
            final(self).group_id == old(self).group_id,
            final(self).group_info == old(self).group_info,
            assistant_entries_nonempty(old(self).memory@) ==> assistant_entries_nonempty(
                final(self).memory@,
            ),
    {
        remember_assistant(&mut self.memory, text);
    }
}

/// A request for the record of the group `group_id`.
pub struct GroupInfoRequest {
    pub group_id: u64,
}

/// The group's record as the OneBot server reports it.
#[derive(Debug)]
pub struct GroupInfo {
    pub data: GroupData,
    pub message: String,
    pub retcode: i64,
    pub status: String,
    pub wording: String,
}

/// Facts about a group.
#[derive(Debug)]
pub struct GroupData {
    /// Number of active members.
    pub active_member_count: i64,
    /// Address of the group's avatar.
    pub avatar_url: String,
    /// When the group was created.
    pub group_create_time: i64,
    /// The group's number.
    pub group_id: i64,
    /// The group's introduction.
    pub group_memo: String,
    /// The group's name.
    pub group_name: String,
    /// Whether the group is frozen.
    pub is_freeze: bool,
    /// Whether the group is pinned.
    pub is_top: bool,
    /// Capacity of the group.
    pub max_member_count: i64,
    /// Number of members.
    pub member_count: i64,
    /// QQ number of the owner.
    pub owner_id: i64,
    /// The bot's remark for the group.
    pub remark_name: String,
    /// When the mute of all members ends.
    pub shut_up_all_timestamp: i64,
    /// When the bot's own mute ends.
    pub shut_up_me_timestamp: i64,
}

} // verus!
