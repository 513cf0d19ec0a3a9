//! Channel records read from the database.

use vstd::prelude::*;

use crate::text::{decimal, push_decimal, str_to_string};

verus! {

/// A channel post for display
#[derive(Debug, Clone)]
pub struct ChannelPost {
    pub id: i64,
    pub channel_id: i64,
    pub content: String,
    pub post_id: String,
    pub created_at: i64,
    pub signature: String,
}

/// A channel subscription entry (subscriber side)
#[derive(Debug, Clone)]
pub struct ChannelSubscription {
    pub id: i64,
    pub publisher_onion: String,
    pub channel_type: String,
    pub subscribed_at: i64,
    pub last_sync_at: Option<i64>,
}

/// The numbered parameters `?1, ?2, ..., ?n`.
pub open spec fn numbered_params(n: nat) -> Seq<char>
    decreases n,
{
    if n == 0 {
        Seq::empty()
    } else if n == 1 {
        "?1"@
    } else {
        numbered_params((n - 1) as nat) + ", ?"@ + decimal(n)
    }
}

/// The query counting the read receipts of `n` posts at once, one
/// numbered parameter per post id.
pub open spec fn read_counts_query(n: nat) -> Seq<char> {
    "SELECT post_id, COUNT(*) FROM channel_post_receipts WHERE post_id IN ("@ + numbered_params(n)
        + ") GROUP BY post_id"@
}

/// The batch read-count query for `count` post ids, or none when there
/// are no ids (there is nothing to ask).
pub fn read_counts_batch_sql(count: usize) -> (r: Option<String>)
    ensures
        count == 0 <==> r is None,
        r matches Some(q) ==> q@ == read_counts_query(count as nat),
{
    if count == 0 {
        return None;
    }
    let mut q = str_to_string("SELECT post_id, COUNT(*) FROM channel_post_receipts WHERE post_id IN (?1");
    proof {
        reveal_strlit("SELECT post_id, COUNT(*) FROM channel_post_receipts WHERE post_id IN (?1");
        reveal_strlit("SELECT post_id, COUNT(*) FROM channel_post_receipts WHERE post_id IN (");
        reveal_strlit("?1");
        assert(q@ =~= "SELECT post_id, COUNT(*) FROM channel_post_receipts WHERE post_id IN ("@ + numbered_params(1));
    }
    let mut i: usize = 1;
    while i < count
        invariant
            1 <= i <= count,
            q@ == "SELECT post_id, COUNT(*) FROM channel_post_receipts WHERE post_id IN ("@ + numbered_params(i as nat),
        decreases count - i,
    {
        i = i + 1;
        q.append(", ?");
        push_decimal(&mut q, i as u64);
        assert(q@ =~= "SELECT post_id, COUNT(*) FROM channel_post_receipts WHERE post_id IN ("@ + numbered_params(i as nat));
    }
    q.append(") GROUP BY post_id");
    assert(q@ =~= read_counts_query(count as nat));
    Some(q)
}

} // verus!
