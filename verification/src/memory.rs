//! Conversation memory shared by users and groups: a sequence of entries that
//! only ever grows at its end.

use vstd::prelude::*;
use crate::iflow_json::{AiMessageItem, AiMessages, is_plain, reply_text};

verus! {

/// `item` is a user entry with exactly the text `text`.
pub open spec fn is_user_entry(item: AiMessageItem, text: Seq<char>) -> bool {
    item matches AiMessageItem::User(m) && is_plain(m, text)
}

/// `item` is a system entry with exactly the text `text`.
pub open spec fn is_system_entry(item: AiMessageItem, text: Seq<char>) -> bool {
    item matches AiMessageItem::System(m) && is_plain(m, text)
}

/// `item` is an assistant entry with exactly the text `text`.
pub open spec fn is_assistant_entry(item: AiMessageItem, text: Seq<char>) -> bool {
    item matches AiMessageItem::Assistant(m) && is_plain(m, text)
}

/// No assistant entry of `memory` has an empty text.
pub open spec fn assistant_entries_nonempty(memory: Seq<AiMessageItem>) -> bool {
    forall|i: int|
        0 <= i < memory.len() ==> (#[trigger] memory[i] matches AiMessageItem::Assistant(m)
            ==> m.content@.len() > 0)
}

/// `after` is `before` with exactly one entry added at its end.
pub open spec fn appended_one(before: Seq<AiMessageItem>, after: Seq<AiMessageItem>) -> bool {
    &&& after.len() == before.len() + 1
    &&& after.take(before.len() as int) == before
}

/// `after` keeps every entry of `before` in place, possibly followed by more.
pub open spec fn extends(before: Seq<AiMessageItem>, after: Seq<AiMessageItem>) -> bool {
    &&& before.len() <= after.len()
    &&& after.take(before.len() as int) == before
}

/// A conversation only grows at its end: a push keeps what was there, and so
/// does any series of pushes.
pub proof fn lemma_memory_only_grows(
    a: Seq<AiMessageItem>,
    b: Seq<AiMessageItem>,
    c: Seq<AiMessageItem>,
)
    requires
        appended_one(a, b) || extends(a, b),
        appended_one(b, c) || extends(b, c),
    ensures
        extends(a, b),
        extends(b, c),
        extends(a, c),
{
    assert(c.take(a.len() as int) =~= c.take(b.len() as int).take(a.len() as int));
}

/// Adds a user entry with the text `text` to `memory`.
pub(crate) fn remember_user(memory: &mut Vec<AiMessageItem>, text: &str)
    ensures
        appended_one(old(memory)@, final(memory)@),
        is_user_entry(final(memory)@.last(), text@),
        assistant_entries_nonempty(old(memory)@) ==> assistant_entries_nonempty(final(memory)@),
{
    memory.push(AiMessageItem::User(AiMessages::new(text)));
    assert(final(memory)@.take(old(memory)@.len() as int) =~= old(memory)@);
}

/// Adds a system entry with the text `text` to `memory`.
pub(crate) fn remember_system(memory: &mut Vec<AiMessageItem>, text: &str)
    ensures
        appended_one(old(memory)@, final(memory)@),
        is_system_entry(final(memory)@.last(), text@),
        assistant_entries_nonempty(old(memory)@) ==> assistant_entries_nonempty(final(memory)@),
{
    memory.push(AiMessageItem::System(AiMessages::new(text)));
    assert(final(memory)@.take(old(memory)@.len() as int) =~= old(memory)@);
}

/// Adds an assistant entry for the reply `text` to `memory`; an empty reply
/// is kept as `null`.
pub(crate) fn remember_assistant(memory: &mut Vec<AiMessageItem>, text: &str)
    ensures
        appended_one(old(memory)@, final(memory)@),
        is_assistant_entry(final(memory)@.last(), reply_text(text@)),
        text@.len() > 0 ==> is_assistant_entry(final(memory)@.last(), text@),
        text@.len() == 0 ==> is_assistant_entry(final(memory)@.last(), "null"@),
        assistant_entries_nonempty(old(memory)@) ==> assistant_entries_nonempty(final(memory)@),
{
    let final_text = if text.is_empty() {
        "null"
    } else {
        text
    };
    proof {
        reveal_strlit("null");
    }
    memory.push(AiMessageItem::Assistant(AiMessages::new(final_text)));
    assert(final(memory)@.take(old(memory)@.len() as int) =~= old(memory)@);
}

} // verus!
