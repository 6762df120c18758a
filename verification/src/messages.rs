//! The texts of the bot's replies that are built from data: channel
//! mentions, track counts, and numbered track listings. Each builder's
//! contract gives the resulting text character for character.

use vstd::prelude::*;

use crate::embed::{is_reply, Embed, EmbedBuilder};
use crate::text::{dec_rep, u64_to_dec};

verus! {

/// The chat mention of a channel.
pub open spec fn mention_rep(id: u64) -> Seq<char> {
    "<#"@ + dec_rep(id as nat) + ">"@
}

/// Renders a channel mention.
pub fn mention(id: u64) -> (s: String)
    ensures
        s@ == mention_rep(id),
{
    let mut s = String::from_str("<#");
    let num = u64_to_dec(id);
    s.append(num.as_str());
    s.append(">");
    proof {
        assert(s@ =~= mention_rep(id));
    }
    s
}

/// The given prefix followed by a channel mention.
pub open spec fn with_mention_rep(prefix: Seq<char>, id: u64) -> Seq<char> {
    prefix + mention_rep(id)
}

/// Renders `prefix` followed by the channel's mention.
pub fn with_mention(prefix: &str, id: u64) -> (s: String)
    ensures
        s@ == with_mention_rep(prefix@, id),
{
    let mut s = String::from_str(prefix);
    let m = mention(id);
    s.append(m.as_str());
    s
}

/// The listing "0. first\n1. second\n..." of the given titles.
pub open spec fn numbered_lines(titles: Seq<Seq<char>>) -> Seq<char>
    decreases titles.len(),
{
    if titles.len() == 0 {
        Seq::empty()
    } else {
        numbered_lines(titles.drop_last()) + dec_rep((titles.len() - 1) as nat) + ". "@
            + titles.last() + "\n"@
    }
}

/// Renders the numbered listing of the given titles.
pub fn numbered_list(titles: &Vec<String>) -> (s: String)
    ensures
        s@ == numbered_lines(titles@.map_values(|t: String| t@)),
{
    let ghost ts = titles@.map_values(|t: String| t@);
    let mut s = String::new();
    let n = titles.len();
    let mut i: usize = 0;
    while i < n
        invariant
            i <= n == titles@.len(),
            ts == titles@.map_values(|t: String| t@),
            s@ == numbered_lines(ts.take(i as int)),
        decreases n - i,
    {
        let num = u64_to_dec(i as u64);
        s.append(num.as_str());
        s.append(". ");
        s.append(titles[i].as_str());
        s.append("\n");
        proof {
            assert(ts.take(i as int + 1).drop_last() =~= ts.take(i as int));
            assert(ts.take(i as int + 1).last() == ts[i as int]);
            assert(s@ =~= numbered_lines(ts.take(i as int + 1)));
        }
        i += 1;
    }
    proof {
        assert(ts.take(n as int) =~= ts);
    }
    s
}

/// How many tracks a playlist added to the queue.
pub open spec fn tracks_added_rep(n: nat) -> Seq<char> {
    dec_rep(n) + " tracks added to the queue"@
}

/// Renders the playlist reply text.
pub fn tracks_added(n: u64) -> (s: String)
    ensures
        s@ == tracks_added_rep(n as nat),
{
    let mut s = u64_to_dec(n);
    s.append(" tracks added to the queue");
    s
}

/// A title wrapped between the given prefix and suffix.
pub open spec fn wrapped_rep(prefix: Seq<char>, middle: Seq<char>, suffix: Seq<char>) -> Seq<char> {
    prefix + middle + suffix
}

/// Renders `prefix`, then `middle`, then `suffix`.
pub fn wrapped(prefix: &str, middle: &str, suffix: &str) -> (s: String)
    ensures
        s@ == wrapped_rep(prefix@, middle@, suffix@),
{
    let mut s = String::from_str(prefix);
    s.append(middle);
    s.append(suffix);
    proof {
        assert(s@ =~= wrapped_rep(prefix@, middle@, suffix@));
    }
    s
}

/// How many enqueued tracks the `!queue` listing shows at most.
pub const QUEUE_LISTING_CAP: usize = 50;

/// The listing the `!queue` command replies with: the front (current)
/// title as "now playing", the count of the remaining tracks, then a
/// numbered listing of at most the first fifty of them.
pub open spec fn queue_listing_rep(titles: Seq<Seq<char>>) -> Seq<char>
    recommends
        titles.len() > 0,
{
    let rest = titles.skip(1);
    let shown = if rest.len() <= QUEUE_LISTING_CAP {
        rest
    } else {
        rest.take(QUEUE_LISTING_CAP as int)
    };
    "Now playing: **"@ + titles[0] + "**\n\nTotal tracks in queue: **"@ + dec_rep(
        (titles.len() - 1) as nat,
    ) + "**\n\n"@ + numbered_lines(shown)
}

/// Renders the `!queue` listing; `titles` must be nonempty.
pub fn queue_listing(titles: &Vec<String>) -> (s: String)
    requires
        titles@.len() > 0,
    ensures
        s@ == queue_listing_rep(titles@.map_values(|t: String| t@)),
{
    let ghost ts = titles@.map_values(|t: String| t@);
    let n = titles.len();
    let cap = if n - 1 <= QUEUE_LISTING_CAP {
        n - 1
    } else {
        QUEUE_LISTING_CAP
    };
    let mut shown: Vec<String> = Vec::new();
    let mut i: usize = 1;
    while i <= cap
        invariant
            1 <= i <= cap + 1,
            cap < n == titles@.len(),
            shown@ == titles@.subrange(1, i as int),
        decreases cap + 1 - i,
    {
        shown.push(titles[i].clone());
        proof {
            assert(shown@ =~= titles@.subrange(1, i as int + 1));
        }
        i += 1;
    }
    let mut s = String::from_str("Now playing: **");
    s.append(titles[0].as_str());
    s.append("**\n\nTotal tracks in queue: **");
    let count = u64_to_dec((n - 1) as u64);
    s.append(count.as_str());
    s.append("**\n\n");
    let listing = numbered_list(&shown);
    s.append(listing.as_str());
    proof {
        let rest = ts.skip(1);
        let spec_shown = if rest.len() <= QUEUE_LISTING_CAP {
            rest
        } else {
            rest.take(QUEUE_LISTING_CAP as int)
        };
        assert(shown@.map_values(|t: String| t@) =~= spec_shown);
        assert(ts[0] == titles@[0]@);
        assert(s@ =~= queue_listing_rep(ts));
    }
    s
}

/// Builds the plain reply embed every handler answers with: the command
/// name as title, the outcome as description.
pub fn reply(error: bool, title: &str, description: String) -> (e: Embed)
    ensures
        is_reply(e, error, title@, description@),
{
    let b = if error {
        EmbedBuilder::error()
    } else {
        EmbedBuilder::new()
    };
    b.title(title).description(description).build()
}

/// Builds a plain reply whose description is a fixed text.
pub fn reply_str(error: bool, title: &str, description: &str) -> (e: Embed)
    ensures
        is_reply(e, error, title@, description@),
{
    reply(error, title, String::from_str(description))
}

} // verus!
