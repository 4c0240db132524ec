//! The daily job that likes every friend of the bot: when it runs, whom it
//! likes, and how many likes each friend gets.

use vstd::prelude::*;

verus! {

/// How many likes each friend gets per run.
pub const LIKES_PER_FRIEND: u64 = 10;

/// When the job runs, as a cron line with seconds: every day at 15:34:00.
pub fn like_schedule() -> (r: &'static str)
    ensures
        r@ == "0 34 15 * * *"@,
{
    "0 34 15 * * *"
}

/// The bot's friend list, as the OneBot server reports it.
pub struct FriendList {
    pub data: Vec<Friend>,
}

/// One friend of the bot.
pub struct Friend {
    pub user_id: u64,
}

/// The ids of the friends, in the order of the list.
pub fn friend_ids(list: &FriendList) -> (r: Vec<u64>)
    ensures
        r@.len() == list.data@.len(),
        forall|i: int| 0 <= i < r@.len() ==> #[trigger] r@[i] == list.data@[i].user_id,
{
    let mut r: Vec<u64> = Vec::new();
    let mut i: usize = 0;
    while i < list.data.len()
        invariant
            i <= list.data@.len(),
            r@.len() == i,
            forall|k: int| 0 <= k < i ==> #[trigger] r@[k] == list.data@[k].user_id,
        decreases list.data@.len() - i,
    {
        r.push(list.data[i].user_id);
        i = i + 1;
    }
    r
}

/// A request for likes to one user.
pub struct SendLike {
    pub user_id: u64,
    pub times: u64,
}

impl SendLike {
    /// The daily likes for `user_id`.
    pub fn new(user_id: u64) -> (r: Self)
        ensures
            r.user_id == user_id,
            r.times == LIKES_PER_FRIEND,
    {
        SendLike { user_id, times: LIKES_PER_FRIEND }
    }
}

} // verus!
