//! What each chat command does: the guard conditions checked before any
//! action, the change to the session registry, and the exact reply. The
//! surrounding program performs the voice-library calls these decisions
//! ask for and reports each outcome back as a plain value.

use vstd::prelude::*;

use crate::embed::{is_reply, Embed, EmbedBuilder, EmbedField};
use crate::messages::{
    numbered_lines, numbered_list, queue_listing, queue_listing_rep, reply, reply_str,
    tracks_added, tracks_added_rep, with_mention, with_mention_rep, wrapped, wrapped_rep,
};
use crate::playlist::Metadata;
use crate::session::{titles_of, Sessions, Track};
use crate::text::{
    dec_parse, parse_u64, spec_contains, spec_starts_with, str_contains, str_starts_with,
};

verus! {

/// The author of the command sits in the channel of the bot's session.
pub open spec fn author_in_bot_channel(
    s: Sessions,
    guild: u64,
    author_channel: Option<u64>,
) -> bool {
    s.spec_has(guild) && author_channel == Some(s.spec_get(guild).channel)
}

/// The rejection every session-bound command gives when its guard fails:
/// no session means the user is told they are not in a voice channel,
/// a session in another channel that they are not in the same one.
pub open spec fn guard_reject(
    s: Sessions,
    guild: u64,
    title: Seq<char>,
    e: Embed,
) -> bool {
    if !s.spec_has(guild) {
        is_reply(e, true, title, "User not in a voice channel"@)
    } else {
        is_reply(e, true, title, "User not in the same voice channel"@)
    }
}

/// Checks the guard shared by every session-bound command and yields the
/// rejection reply when it fails.
fn member_guard(s: &Sessions, guild: u64, author_channel: Option<u64>, title: &str) -> (r: Option<
    Embed,
>)
    requires
        s.wf(),
    ensures
        r.is_none() == author_in_bot_channel(*s, guild, author_channel),
        r.is_some() ==> guard_reject(*s, guild, title@, r.unwrap()),
{
    if !s.has(guild) {
        return Some(reply_str(true, title, "User not in a voice channel"));
    }
    let ch = s.channel_of(guild);
    let same = match author_channel {
        Some(c) => c == ch,
        None => false,
    };
    if !same {
        return Some(reply_str(true, title, "User not in the same voice channel"));
    }
    None
}

/// The field `f` carries the given name and value, not inline.
pub open spec fn is_field(f: EmbedField, name: Seq<char>, value: Seq<char>) -> bool {
    f.name@ == name && f.value@ == value && !f.inline
}

/// The reply to `!help`: every command with its explanation.
pub fn help_reply() -> (e: Embed)
    ensures
        !e.error,
        e.title.is_some() && e.title.unwrap()@ == "!help"@,
        e.description.is_some() && e.description.unwrap()@ == "Available commands"@,
        e.fields@.len() == 9,
        is_field(e.fields@[0], "!help"@, "Explains all available commands"@),
        is_field(e.fields@[1], "!join"@, "Call **Nina** to join your current voice channel"@),
        is_field(
            e.fields@[2],
            "!mute"@,
            "Mutes **Nina**. Beware, if playing a track, no sound will come out. See **!unmute** to unmute **Nina**"@,
        ),
        is_field(
            e.fields@[3],
            "!play"@,
            "Play or enqueue a track. Must provide the track name or source **URL**"@,
        ),
        is_field(
            e.fields@[4],
            "!skip"@,
            "Skip track. Accepts an optional parameter to define amount of tracks to skip (max of 20)"@,
        ),
        is_field(
            e.fields@[5],
            "!stop"@,
            "Stop **Nina** if playing a track and clears all enqueued tracks"@,
        ),
        is_field(e.fields@[6], "!unmute"@, "Unmute **Nina**. See **!mute** to mute **Nina**"@),
        is_field(
            e.fields@[7],
            "!queue"@,
            "List first 50 enqueued tracks. There is currently no way to list all enqueue tracks"@,
        ),
        is_field(e.fields@[8], "!now"@, "Show playing track title"@),
{
    let mut fields: Vec<EmbedField> = Vec::new();
    fields.push(EmbedField::new("!help", "Explains all available commands"));
    fields.push(EmbedField::new("!join", "Call **Nina** to join your current voice channel"));
    fields.push(
        EmbedField::new(
            "!mute",
            "Mutes **Nina**. Beware, if playing a track, no sound will come out. See **!unmute** to unmute **Nina**",
        ),
    );
    fields.push(
        EmbedField::new(
            "!play",
            "Play or enqueue a track. Must provide the track name or source **URL**",
        ),
    );
    fields.push(
        EmbedField::new(
            "!skip",
            "Skip track. Accepts an optional parameter to define amount of tracks to skip (max of 20)",
        ),
    );
    fields.push(
        EmbedField::new("!stop", "Stop **Nina** if playing a track and clears all enqueued tracks"),
    );
    fields.push(EmbedField::new("!unmute", "Unmute **Nina**. See **!mute** to mute **Nina**"));
    fields.push(
        EmbedField::new(
            "!queue",
            "List first 50 enqueued tracks. There is currently no way to list all enqueue tracks",
        ),
    );
    fields.push(EmbedField::new("!now", "Show playing track title"));
    EmbedBuilder::new().title("!help").description(
        String::from_str("Available commands"),
    ).fields(fields).build()
}

/// What `!join` decides before any connection is made.
#[derive(Debug)]
pub enum JoinDecision {
    /// Reply without joining.
    Reject(Embed),
    /// Try to join the author's channel.
    Attempt { channel: u64 },
}

/// The `!join` guards: the author must sit in a voice channel and the
/// bot must not already hold a session in the guild.
pub fn join_request(s: &Sessions, guild: u64, author_channel: Option<u64>) -> (r: JoinDecision)
    requires
        s.wf(),
    ensures
        author_channel.is_none() ==> (r matches JoinDecision::Reject(e) && is_reply(
            e,
            true,
            "!join"@,
            "User not in a voice channel"@,
        )),
        author_channel.is_some() && s.spec_has(guild) ==> (r matches JoinDecision::Reject(e)
            && is_reply(e, true, "!join"@, "I'm already in another voice channel"@)),
        author_channel.is_some() && !s.spec_has(guild) ==> r == (JoinDecision::Attempt {
            channel: author_channel.unwrap(),
        }),
{
    let channel = match author_channel {
        Some(c) => c,
        None => {
            return JoinDecision::Reject(
                reply_str(true, "!join", "User not in a voice channel"),
            );
        },
    };
    if s.has(guild) {
        return JoinDecision::Reject(
            reply_str(true, "!join", "I'm already in another voice channel"),
        );
    }
    JoinDecision::Attempt { channel }
}

/// Records a completed join and builds its reply.
pub fn join_succeeded(s: &mut Sessions, guild: u64, channel: u64) -> (e: Embed)
    requires
        old(s).wf(),
        !old(s).spec_has(guild),
    ensures
        final(s).wf(),
        final(s).spec_has(guild),
        final(s).spec_get(guild).channel == channel,
        !final(s).spec_get(guild).muted,
        final(s).spec_get(guild).queue@.len() == 0,
        old(s).same_except(*final(s), guild),
        is_reply(e, false, "!join"@, with_mention_rep("Joined "@, channel)),
{
    s.insert(guild, channel);
    reply(false, "!join", with_mention("Joined ", channel))
}

/// The reply when joining the channel failed.
pub fn join_failed(channel: u64) -> (e: Embed)
    ensures
        is_reply(e, true, "!join"@, with_mention_rep("Could not join the voice channel "@, channel)),
{
    reply(true, "!join", with_mention("Could not join the voice channel ", channel))
}

/// What a command decides when its only gate is the member guard.
#[derive(Debug)]
pub enum GuardDecision {
    /// Reply without acting.
    Reject(Embed),
    /// Perform the command's action.
    Attempt,
}

/// The `!leave` guards.
pub fn leave_request(s: &Sessions, guild: u64, author_channel: Option<u64>) -> (r: GuardDecision)
    requires
        s.wf(),
    ensures
        !author_in_bot_channel(*s, guild, author_channel) ==> (r matches GuardDecision::Reject(e)
            && guard_reject(*s, guild, "!leave"@, e)),
        author_in_bot_channel(*s, guild, author_channel) ==> r matches GuardDecision::Attempt,
{
    match member_guard(s, guild, author_channel, "!leave") {
        Some(e) => GuardDecision::Reject(e),
        None => GuardDecision::Attempt,
    }
}

/// Records a completed leave and builds its reply; `channel` is the
/// channel left.
pub fn leave_succeeded(s: &mut Sessions, guild: u64, channel: u64) -> (e: Embed)
    requires
        old(s).wf(),
        old(s).spec_has(guild),
    ensures
        final(s).wf(),
        !final(s).spec_has(guild),
        old(s).same_except(*final(s), guild),
        is_reply(e, false, "!leave"@, with_mention_rep("Left voice channel "@, channel)),
{
    s.remove(guild);
    reply(false, "!leave", with_mention("Left voice channel ", channel))
}

/// The reply when leaving the channel failed.
pub fn leave_failed() -> (e: Embed)
    ensures
        is_reply(e, true, "!leave"@, "Failed leaving voice channel"@),
{
    reply_str(true, "!leave", "Failed leaving voice channel")
}

/// The `!mute` guards: beyond the member guard, an already muted bot
/// only answers that it is muted.
pub fn mute_request(s: &Sessions, guild: u64, author_channel: Option<u64>) -> (r: GuardDecision)
    requires
        s.wf(),
    ensures
        !author_in_bot_channel(*s, guild, author_channel) ==> (r matches GuardDecision::Reject(e)
            && guard_reject(*s, guild, "!mute"@, e)),
        author_in_bot_channel(*s, guild, author_channel) && s.spec_get(guild).muted ==> (r matches
            GuardDecision::Reject(e) && is_reply(
            e,
            false,
            "!mute"@,
            "I'm already muted. Use `!unmute` to unmute me"@,
        )),
        author_in_bot_channel(*s, guild, author_channel) && !s.spec_get(guild).muted ==> r matches
            GuardDecision::Attempt,
{
    match member_guard(s, guild, author_channel, "!mute") {
        Some(e) => GuardDecision::Reject(e),
        None => {
            if s.is_muted(guild) {
                GuardDecision::Reject(
                    reply_str(false, "!mute", "I'm already muted. Use `!unmute` to unmute me"),
                )
            } else {
                GuardDecision::Attempt
            }
        },
    }
}

/// Records a completed mute and builds its reply.
pub fn mute_succeeded(s: &mut Sessions, guild: u64) -> (e: Embed)
    requires
        old(s).wf(),
        old(s).spec_has(guild),
    ensures
        final(s).wf(),
        final(s).spec_has(guild),
        final(s).spec_get(guild).muted,
        final(s).spec_get(guild).channel == old(s).spec_get(guild).channel,
        final(s).spec_get(guild).queue == old(s).spec_get(guild).queue,
        old(s).same_except(*final(s), guild),
        is_reply(e, false, "!mute"@, "I'm now muted. Use `!unmute` to unmute me"@),
{
    s.set_muted(guild, true);
    reply_str(false, "!mute", "I'm now muted. Use `!unmute` to unmute me")
}

/// The reply when muting failed.
pub fn mute_failed() -> (e: Embed)
    ensures
        is_reply(e, true, "!mute"@, "Could not mute myself"@),
{
    reply_str(true, "!mute", "Could not mute myself")
}

/// The `!unmute` guards.
pub fn unmute_request(s: &Sessions, guild: u64, author_channel: Option<u64>) -> (r: GuardDecision)
    requires
        s.wf(),
    ensures
        !author_in_bot_channel(*s, guild, author_channel) ==> (r matches GuardDecision::Reject(e)
            && guard_reject(*s, guild, "!unmute"@, e)),
        author_in_bot_channel(*s, guild, author_channel) ==> r matches GuardDecision::Attempt,
{
    match member_guard(s, guild, author_channel, "!unmute") {
        Some(e) => GuardDecision::Reject(e),
        None => GuardDecision::Attempt,
    }
}

/// Records a completed unmute and builds its reply.
pub fn unmute_succeeded(s: &mut Sessions, guild: u64) -> (e: Embed)
    requires
        old(s).wf(),
        old(s).spec_has(guild),
    ensures
        final(s).wf(),
        final(s).spec_has(guild),
        !final(s).spec_get(guild).muted,
        final(s).spec_get(guild).channel == old(s).spec_get(guild).channel,
        final(s).spec_get(guild).queue == old(s).spec_get(guild).queue,
        old(s).same_except(*final(s), guild),
        is_reply(e, false, "!unmute"@, "I'm now unmuted. Use `!mute` to mute me"@),
{
    s.set_muted(guild, false);
    reply_str(false, "!unmute", "I'm now unmuted. Use `!mute` to mute me")
}

/// The reply when unmuting failed.
pub fn unmute_failed() -> (e: Embed)
    ensures
        is_reply(e, true, "!unmute"@, "Could not unmute myself"@),
{
    reply_str(true, "!unmute", "Could not unmute myself")
}

/// The `!stop` guards.
pub fn stop_request(s: &Sessions, guild: u64, author_channel: Option<u64>) -> (r: GuardDecision)
    requires
        s.wf(),
    ensures
        !author_in_bot_channel(*s, guild, author_channel) ==> (r matches GuardDecision::Reject(e)
            && guard_reject(*s, guild, "!stop"@, e)),
        author_in_bot_channel(*s, guild, author_channel) ==> r matches GuardDecision::Attempt,
{
    match member_guard(s, guild, author_channel, "!stop") {
        Some(e) => GuardDecision::Reject(e),
        None => GuardDecision::Attempt,
    }
}

/// Records a stop: the queue is emptied; no reply is sent.
pub fn stop_apply(s: &mut Sessions, guild: u64)
    requires
        old(s).wf(),
        old(s).spec_has(guild),
    ensures
        final(s).wf(),
        final(s).spec_has(guild),
        final(s).spec_get(guild).queue@.len() == 0,
        final(s).spec_get(guild).channel == old(s).spec_get(guild).channel,
        final(s).spec_get(guild).muted == old(s).spec_get(guild).muted,
        old(s).same_except(*final(s), guild),
{
    s.clear_queue(guild);
}

/// A `String` option abstracted to its characters.
pub open spec fn opt_rep(o: Option<String>) -> Option<Seq<char>> {
    match o {
        Some(t) => Some(t@),
        None => None,
    }
}

/// The amount `!skip` acts on: one track when no argument is given, else
/// the argument read as a decimal number; nothing when it is not one.
pub open spec fn skip_amount(arg: Option<Seq<char>>) -> Option<nat> {
    match arg {
        None => Some(1 as nat),
        Some(t) => if dec_parse(t).is_some() && dec_parse(t).unwrap() <= u64::MAX {
            Some(dec_parse(t).unwrap())
        } else {
            None
        },
    }
}

/// What `!skip` decides.
#[derive(Debug)]
pub enum SkipDecision {
    /// Reply without skipping.
    Reject(Embed),
    /// Skip this many tracks.
    Attempt { amount: usize },
}

/// The `!skip` guards: the member guard, a nonempty queue, and a valid
/// amount between 1 and 20.
pub fn skip_request(
    s: &Sessions,
    guild: u64,
    author_channel: Option<u64>,
    amount_arg: &Option<String>,
) -> (r: SkipDecision)
    requires
        s.wf(),
    ensures
        !author_in_bot_channel(*s, guild, author_channel) ==> (r matches SkipDecision::Reject(e)
            && guard_reject(*s, guild, "!skip"@, e)),
        author_in_bot_channel(*s, guild, author_channel) && s.spec_get(guild).queue@.len() == 0
            ==> (r matches SkipDecision::Reject(e) && is_reply(
            e,
            true,
            "!skip"@,
            "Queue is already empty. No tracks to skip"@,
        )),
        author_in_bot_channel(*s, guild, author_channel) && s.spec_get(guild).queue@.len() > 0
            ==> ({
            let a = skip_amount(opt_rep(*amount_arg));
            &&& (a.is_none() || a == Some(0 as nat)) ==> (r matches SkipDecision::Reject(e)
                && is_reply(
                e,
                true,
                "!skip"@,
                "Amount of tracks to skip must be a positive integer"@,
            ))
            &&& a.is_some() && a.unwrap() > 20 ==> (r matches SkipDecision::Reject(e) && is_reply(
                e,
                true,
                "!skip"@,
                "Cannot skip more than 20 tracks at once"@,
            ))
            &&& a.is_some() && 1 <= a.unwrap() <= 20 ==> r == (SkipDecision::Attempt {
                amount: a.unwrap() as usize,
            })
        }),
{
    if let Some(e) = member_guard(s, guild, author_channel, "!skip") {
        return SkipDecision::Reject(e);
    }
    if s.queue_len(guild) == 0 {
        return SkipDecision::Reject(
            reply_str(true, "!skip", "Queue is already empty. No tracks to skip"),
        );
    }
    let parsed: Option<u64> = match amount_arg {
        Some(t) => parse_u64(t.as_str()),
        None => Some(1),
    };
    match parsed {
        None => SkipDecision::Reject(
            reply_str(true, "!skip", "Amount of tracks to skip must be a positive integer"),
        ),
        Some(v) => {
            if v > 20 {
                SkipDecision::Reject(
                    reply_str(true, "!skip", "Cannot skip more than 20 tracks at once"),
                )
            } else if v == 0 {
                SkipDecision::Reject(
                    reply_str(true, "!skip", "Amount of tracks to skip must be a positive integer"),
                )
            } else {
                SkipDecision::Attempt { amount: v as usize }
            }
        },
    }
}

/// The reply when skipping the current track failed.
pub fn skip_failed() -> (e: Embed)
    ensures
        is_reply(e, true, "!skip"@, "Could not skip current track"@),
{
    reply_str(true, "!skip", "Could not skip current track")
}

/// Records a skip of `amount` tracks and builds its reply: one skipped
/// track is announced by title; several are listed, the current track
/// left out of the listing.
pub fn skip_apply(s: &mut Sessions, guild: u64, amount: usize) -> (e: Embed)
    requires
        old(s).wf(),
        old(s).spec_has(guild),
        old(s).spec_get(guild).queue@.len() > 0,
        1 <= amount,
    ensures
        final(s).wf(),
        final(s).spec_has(guild),
        final(s).spec_get(guild).channel == old(s).spec_get(guild).channel,
        final(s).spec_get(guild).muted == old(s).spec_get(guild).muted,
        ({
            let q = old(s).spec_get(guild).queue@;
            let k = if amount <= q.len() {
                amount as int
            } else {
                q.len() as int
            };
            final(s).spec_get(guild).queue@ == q.skip(k) && (amount == 1 ==> is_reply(
                e,
                false,
                "!skip"@,
                wrapped_rep("Current track "@, titles_of(q)[0], " skipped"@),
            )) && (amount > 1 ==> is_reply(
                e,
                false,
                "!skip"@,
                "Skipped following tracks:\n"@ + numbered_lines(titles_of(q).subrange(1, k)),
            ))
        }),
        old(s).same_except(*final(s), guild),
{
    let ghost q = old(s).spec_get(guild).queue@;
    let removed = s.drop_front(guild, amount);
    proof {
        assert(titles_of(removed@) =~= titles_of(q).take(removed@.len() as int));
    }
    if amount == 1 {
        let d = wrapped("Current track ", removed[0].title.as_str(), " skipped");
        proof {
            assert(titles_of(removed@)[0] == titles_of(q)[0]);
        }
        reply(false, "!skip", d)
    } else {
        let n = removed.len();
        let mut listed: Vec<String> = Vec::new();
        let mut i: usize = 1;
        while i < n
            invariant
                1 <= i <= n == removed@.len(),
                listed@.map_values(|t: String| t@) =~= titles_of(removed@).subrange(1, i as int),
            decreases n - i,
        {
            let ghost prevl = listed@;
            listed.push(removed[i].title.clone());
            proof {
                assert(listed@.map_values(|t: String| t@) =~= prevl.map_values(
                    |t: String| t@,
                ).push(removed@[i as int].title@));
                assert(titles_of(removed@)[i as int] == removed@[i as int].title@);
                assert(titles_of(removed@).subrange(1, i as int + 1) =~= titles_of(
                    removed@,
                ).subrange(1, i as int).push(titles_of(removed@)[i as int]));
                assert(listed@.map_values(|t: String| t@) =~= titles_of(removed@).subrange(
                    1,
                    i as int + 1,
                ));
            }
            i += 1;
        }
        let body = numbered_list(&listed);
        let mut d = String::from_str("Skipped following tracks:\n");
        d.append(body.as_str());
        proof {
            let k = if amount <= q.len() {
                amount as int
            } else {
                q.len() as int
            };
            assert(titles_of(removed@).subrange(1, n as int) =~= titles_of(q).subrange(1, k));
        }
        reply(false, "!skip", d)
    }
}

/// Where `!play` finds its track: a playlist URL, a plain URL, or a
/// search by name.
#[derive(Debug)]
pub enum PlaySource {
    Playlist { url: String },
    Url { url: String },
    Search { query: String },
}

/// `src` classifies `q`: a URL holding a playlist marker is a playlist,
/// any other URL a single track, anything else a search.
pub open spec fn source_matches(src: PlaySource, q: Seq<char>) -> bool {
    if spec_starts_with(q, "http"@) && spec_contains(q, "&list="@) {
        src matches PlaySource::Playlist { url } && url@ == q
    } else if spec_starts_with(q, "http"@) {
        src matches PlaySource::Url { url } && url@ == q
    } else {
        src matches PlaySource::Search { query } && query@ == q
    }
}

/// Classifies a `!play` argument.
fn classify_source(q: String) -> (src: PlaySource)
    ensures
        source_matches(src, q@),
{
    let is_url = str_starts_with(q.as_str(), "http");
    if is_url && str_contains(q.as_str(), "&list=") {
        PlaySource::Playlist { url: q }
    } else if is_url {
        PlaySource::Url { url: q }
    } else {
        PlaySource::Search { query: q }
    }
}

/// What `!play` decides.
#[derive(Debug)]
pub enum PlayDecision {
    /// Reply without playing.
    Reject(Embed),
    /// Join the author's channel first, then resolve the source.
    JoinThen { channel: u64, source: PlaySource },
    /// Resolve the source and enqueue in the existing session.
    Enqueue { source: PlaySource },
}

/// The `!play` guards: the author must sit in a voice channel and name a
/// track; without a session the bot joins the author's channel first;
/// with one, the author must sit in its channel.
pub fn play_request(
    s: &Sessions,
    guild: u64,
    author_channel: Option<u64>,
    query: Option<String>,
) -> (r: PlayDecision)
    requires
        s.wf(),
    ensures
        author_channel.is_none() ==> (r matches PlayDecision::Reject(e) && is_reply(
            e,
            true,
            "!play"@,
            "User not in a voice channel"@,
        )),
        author_channel.is_some() && query.is_none() ==> (r matches PlayDecision::Reject(e)
            && is_reply(e, true, "!play"@, "Missing music or URL argument"@)),
        author_channel.is_some() && query.is_some() && !s.spec_has(guild) ==> (r matches
            PlayDecision::JoinThen { channel, source } && channel == author_channel.unwrap()
            && source_matches(source, query.unwrap()@)),
        author_channel.is_some() && query.is_some() && s.spec_has(guild) && !author_in_bot_channel(
            *s,
            guild,
            author_channel,
        ) ==> (r matches PlayDecision::Reject(e) && is_reply(
            e,
            true,
            "!play"@,
            "User not in the same voice channel"@,
        )),
        author_channel.is_some() && query.is_some() && author_in_bot_channel(
            *s,
            guild,
            author_channel,
        ) ==> (r matches PlayDecision::Enqueue { source } && source_matches(
            source,
            query.unwrap()@,
        )),
{
    let author = match author_channel {
        Some(c) => c,
        None => {
            return PlayDecision::Reject(reply_str(true, "!play", "User not in a voice channel"));
        },
    };
    let q = match query {
        Some(q) => q,
        None => {
            return PlayDecision::Reject(reply_str(true, "!play", "Missing music or URL argument"));
        },
    };
    if !s.has(guild) {
        return PlayDecision::JoinThen { channel: author, source: classify_source(q) };
    }
    let ch = s.channel_of(guild);
    if author != ch {
        return PlayDecision::Reject(reply_str(true, "!play", "User not in the same voice channel"));
    }
    PlayDecision::Enqueue { source: classify_source(q) }
}

/// The reply when `!play` could not join the author's channel.
pub fn play_join_failed(channel: u64) -> (e: Embed)
    ensures
        is_reply(e, true, "!play"@, with_mention_rep("Could not join voice channel "@, channel)),
{
    reply(true, "!play", with_mention("Could not join voice channel ", channel))
}

/// The reply when the playlist's metadata could not be resolved.
pub fn playlist_failed() -> (e: Embed)
    ensures
        is_reply(e, true, "!play"@, "Could not load track from playlist"@),
{
    reply_str(true, "!play", "Could not load track from playlist")
}

/// Appends every playlist track to the guild's queue, in order, and
/// builds the reply counting them.
pub fn enqueue_playlist(s: &mut Sessions, guild: u64, items: Vec<Metadata>) -> (e: Embed)
    requires
        old(s).wf(),
        old(s).spec_has(guild),
    ensures
        final(s).wf(),
        final(s).spec_has(guild),
        final(s).spec_get(guild).channel == old(s).spec_get(guild).channel,
        final(s).spec_get(guild).muted == old(s).spec_get(guild).muted,
        titles_of(final(s).spec_get(guild).queue@) == titles_of(old(s).spec_get(guild).queue@)
            + items@.map_values(|m: Metadata| m.title@),
        old(s).same_except(*final(s), guild),
        is_reply(e, false, "!play"@, tracks_added_rep(items@.len())),
{
    let ghost pre = *s;
    let ghost its = items@;
    let n = items.len();
    let mut items = items;
    let mut i: usize = 0;
    while i < n
        invariant
            i <= n == its.len(),
            items@ == its.skip(i as int),
            s.wf(),
            s.spec_has(guild),
            s.spec_get(guild).channel == pre.spec_get(guild).channel,
            s.spec_get(guild).muted == pre.spec_get(guild).muted,
            titles_of(s.spec_get(guild).queue@) =~= titles_of(pre.spec_get(guild).queue@)
                + its.take(i as int).map_values(|m: Metadata| m.title@),
            pre.same_except(*s, guild),
        decreases n - i,
    {
        let m = items.remove(0);
        proof {
            assert(its.skip(i as int).remove(0) =~= its.skip(i as int + 1));
            assert(m == its[i as int]);
        }
        let ghost qprev = s.spec_get(guild).queue@;
        s.push_track(guild, Track { title: m.title });
        proof {
            assert(titles_of(qprev.push(Track { title: m.title })) =~= titles_of(qprev).push(
                its[i as int].title@,
            ));
            assert(titles_of(s.spec_get(guild).queue@) =~= titles_of(pre.spec_get(guild).queue@)
                + its.take(i as int + 1).map_values(|m: Metadata| m.title@));
        }
        i += 1;
    }
    proof {
        assert(its.take(n as int) =~= its);
    }
    reply(false, "!play", tracks_added(n as u64))
}

/// The title a track is enqueued under: what the resolver reported, or
/// "Unknown" when it reported none.
pub open spec fn enqueue_title(title: Option<Seq<char>>) -> Seq<char> {
    match title {
        Some(t) => t,
        None => "Unknown"@,
    }
}

/// Appends one resolved track to the guild's queue; no reply is sent.
pub fn enqueue_track(s: &mut Sessions, guild: u64, title: Option<String>)
    requires
        old(s).wf(),
        old(s).spec_has(guild),
    ensures
        final(s).wf(),
        final(s).spec_has(guild),
        final(s).spec_get(guild).channel == old(s).spec_get(guild).channel,
        final(s).spec_get(guild).muted == old(s).spec_get(guild).muted,
        titles_of(final(s).spec_get(guild).queue@) == titles_of(old(s).spec_get(guild).queue@).push(
            enqueue_title(opt_rep(title)),
        ),
        old(s).same_except(*final(s), guild),
{
    let ghost qprev = s.spec_get(guild).queue@;
    let t = match title {
        Some(t) => t,
        None => String::from_str("Unknown"),
    };
    let ghost tv = t@;
    s.push_track(guild, Track { title: t });
    proof {
        assert(titles_of(s.spec_get(guild).queue@) =~= titles_of(qprev).push(tv));
    }
}

/// The reply to `!queue`: the guard, then the queue listing.
pub fn queue_reply(s: &Sessions, guild: u64, author_channel: Option<u64>) -> (e: Embed)
    requires
        s.wf(),
    ensures
        !author_in_bot_channel(*s, guild, author_channel) ==> guard_reject(*s, guild, "!queue"@, e),
        author_in_bot_channel(*s, guild, author_channel) && s.spec_get(guild).queue@.len() == 0
            ==> is_reply(e, false, "!queue"@, "Queue is curently empty"@),
        author_in_bot_channel(*s, guild, author_channel) && s.spec_get(guild).queue@.len() > 0
            ==> is_reply(
            e,
            false,
            "!queue"@,
            queue_listing_rep(titles_of(s.spec_get(guild).queue@)),
        ),
{
    if let Some(e) = member_guard(s, guild, author_channel, "!queue") {
        return e;
    }
    let titles = s.queue_titles(guild);
    proof {
        assert(titles@.map_values(|t: String| t@).len() == titles@.len());
        assert(titles_of(s.spec_get(guild).queue@).len() == s.spec_get(guild).queue@.len());
    }
    if titles.len() == 0 {
        return reply_str(false, "!queue", "Queue is curently empty");
    }
    let d = queue_listing(&titles);
    reply(false, "!queue", d)
}

/// The reply to `!now`: the guard, then the playing track's title.
pub fn now_reply(s: &Sessions, guild: u64, author_channel: Option<u64>) -> (e: Embed)
    requires
        s.wf(),
    ensures
        !author_in_bot_channel(*s, guild, author_channel) ==> guard_reject(*s, guild, "!now"@, e),
        author_in_bot_channel(*s, guild, author_channel) && s.spec_get(guild).queue@.len() == 0
            ==> is_reply(e, false, "!now"@, "Not currently playing a track"@),
        author_in_bot_channel(*s, guild, author_channel) && s.spec_get(guild).queue@.len() > 0
            ==> is_reply(
            e,
            false,
            "!now"@,
            "Now playing "@ + titles_of(s.spec_get(guild).queue@)[0],
        ),
{
    if let Some(e) = member_guard(s, guild, author_channel, "!now") {
        return e;
    }
    let titles = s.queue_titles(guild);
    proof {
        assert(titles@.map_values(|t: String| t@).len() == titles@.len());
        assert(titles_of(s.spec_get(guild).queue@).len() == s.spec_get(guild).queue@.len());
    }
    if titles.len() == 0 {
        return reply_str(false, "!now", "Not currently playing a track");
    }
    let mut d = String::from_str("Now playing ");
    d.append(titles[0].as_str());
    proof {
        assert(titles@.map_values(|t: String| t@)[0] == titles@[0]@);
    }
    reply(false, "!now", d)
}

/// The channel a voice-state change reports as left: only a change from
/// some channel to none is a leave.
pub fn leave_event_channel(old_channel: Option<u64>, new_channel: Option<u64>) -> (r: Option<u64>)
    ensures
        r == if old_channel.is_some() && new_channel.is_none() {
            old_channel
        } else {
            None::<u64>
        },
{
    match (old_channel, new_channel) {
        (Some(c), None) => Some(c),
        _ => None,
    }
}

/// Whether the bot leaves a channel on its own: it does when the left
/// channel is a voice channel with at most one remaining member (the bot
/// itself).
pub fn should_auto_leave(is_voice_channel: bool, member_count: usize) -> (r: bool)
    ensures
        r == (is_voice_channel && member_count <= 1),
{
    is_voice_channel && member_count <= 1
}

} // verus!
