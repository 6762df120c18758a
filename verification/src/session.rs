//! Per-guild voice sessions: which channel the bot sits in, whether it is
//! muted, and the playback queue. At most one session exists per guild,
//! and queue order is insertion order; both are stated as the registry's
//! well-formedness and kept by every operation.

use vstd::prelude::*;

verus! {

/// One enqueued track: a playable source labelled with its title.
#[derive(Clone, Debug)]
pub struct Track {
    pub title: String,
}

/// The titles of a queue, in order.
pub open spec fn titles_of(q: Seq<Track>) -> Seq<Seq<char>> {
    q.map_values(|t: Track| t.title@)
}

/// The bot's state in one guild's voice channel.
#[derive(Debug)]
pub struct Session {
    /// The voice channel the bot is connected to.
    pub channel: u64,
    /// Whether the bot muted itself.
    pub muted: bool,
    /// The playback queue, front first; the front track is the one playing.
    pub queue: Vec<Track>,
}

/// All active sessions, keyed by guild.
#[derive(Debug)]
pub struct Sessions {
    entries: Vec<(u64, Session)>,
}

impl Sessions {
    /// The guild key of entry `i`.
    pub closed spec fn key_at(self, i: int) -> u64 {
        self.entries@[i].0
    }

    /// The session of entry `i`.
    pub closed spec fn session_at(self, i: int) -> Session {
        self.entries@[i].1
    }

    /// How many sessions are active.
    pub closed spec fn spec_len(self) -> nat {
        self.entries@.len()
    }

    /// One session per guild: no guild key occurs twice.
    pub open spec fn wf(self) -> bool {
        forall|i: int, j: int|
            0 <= i < j < self.spec_len() ==> self.key_at(i) != self.key_at(j)
    }

    /// The guild has an active session.
    pub open spec fn spec_has(self, guild: u64) -> bool {
        exists|i: int| 0 <= i < self.spec_len() && #[trigger] self.key_at(i) == guild
    }

    /// The index of the guild's session; meaningful only when it has one.
    pub open spec fn idx_of(self, guild: u64) -> int {
        choose|i: int| 0 <= i < self.spec_len() && #[trigger] self.key_at(i) == guild
    }

    /// The guild's session; meaningful only when it has one.
    pub open spec fn spec_get(self, guild: u64) -> Session {
        self.session_at(self.idx_of(guild))
    }

    /// Guilds other than `guild` keep the session they had (or had none).
    pub open spec fn same_except(self, post: Sessions, guild: u64) -> bool {
        forall|g: u64|
            g != guild ==> #[trigger] post.spec_has(g) == self.spec_has(g) && (self.spec_has(g)
                ==> post.spec_get(g) == self.spec_get(g))
    }

    /// An empty registry.
    pub fn new() -> (s: Sessions)
        ensures
            s.wf(),
            forall|g: u64| !s.spec_has(g),
    {
        Sessions { entries: Vec::new() }
    }

    /// Whether the guild has an active session.
    pub fn has(&self, guild: u64) -> (r: bool)
        ensures
            r == self.spec_has(guild),
    {
        let n = self.entries.len();
        let mut i: usize = 0;
        while i < n
            invariant
                i <= n == self.spec_len(),
                forall|j: int| 0 <= j < i ==> self.key_at(j) != guild,
            decreases n - i,
        {
            if self.entries[i].0 == guild {
                proof {
                    assert(self.key_at(i as int) == guild);
                }
                return true;
            }
            i += 1;
        }
        false
    }

    /// The index of the guild's entry.
    fn find(&self, guild: u64) -> (i: usize)
        requires
            self.wf(),
            self.spec_has(guild),
        ensures
            i == self.idx_of(guild),
            0 <= i < self.spec_len(),
            self.key_at(i as int) == guild,
            self.session_at(i as int) == self.spec_get(guild),
    {
        let n = self.entries.len();
        let mut i: usize = 0;
        while i < n
            invariant
                i <= n == self.spec_len(),
                self.wf(),
                self.spec_has(guild),
                forall|j: int| 0 <= j < i ==> self.key_at(j) != guild,
            decreases n - i,
        {
            if self.entries[i].0 == guild {
                proof {
                    assert(self.key_at(i as int) == guild);
                    lemma_unique_get(*self, i as int);
                }
                return i;
            }
            i += 1;
        }
        proof {
            let w = self.idx_of(guild);
            assert(self.key_at(w) == guild);
            assert(false);
        }
        0
    }

    /// The channel of the guild's session.
    pub fn channel_of(&self, guild: u64) -> (c: u64)
        requires
            self.wf(),
            self.spec_has(guild),
        ensures
            c == self.spec_get(guild).channel,
    {
        let i = self.find(guild);
        self.entries[i].1.channel
    }

    /// Whether the bot is muted in the guild's session.
    pub fn is_muted(&self, guild: u64) -> (m: bool)
        requires
            self.wf(),
            self.spec_has(guild),
        ensures
            m == self.spec_get(guild).muted,
    {
        let i = self.find(guild);
        self.entries[i].1.muted
    }

    /// How many tracks the guild's queue holds.
    pub fn queue_len(&self, guild: u64) -> (n: usize)
        requires
            self.wf(),
            self.spec_has(guild),
        ensures
            n == self.spec_get(guild).queue@.len(),
    {
        let i = self.find(guild);
        self.entries[i].1.queue.len()
    }

    /// The titles of the guild's queue, front first.
    pub fn queue_titles(&self, guild: u64) -> (ts: Vec<String>)
        requires
            self.wf(),
            self.spec_has(guild),
        ensures
            ts@.map_values(|t: String| t@) == titles_of(self.spec_get(guild).queue@),
    {
        let i = self.find(guild);
        let q = &self.entries[i].1.queue;
        let n = q.len();
        let mut ts: Vec<String> = Vec::new();
        let mut k: usize = 0;
        while k < n
            invariant
                k <= n == q@.len(),
                ts@.map_values(|t: String| t@) =~= titles_of(q@.take(k as int)),
            decreases n - k,
        {
            ts.push(q[k].title.clone());
            proof {
                assert(q@.take(k as int + 1).drop_last() =~= q@.take(k as int));
                assert(titles_of(q@.take(k as int + 1)) =~= titles_of(q@.take(k as int)).push(
                    q@[k as int].title@,
                ));
                assert(ts@.map_values(|t: String| t@) =~= titles_of(q@.take(k as int + 1)));
            }
            k += 1;
        }
        proof {
            assert(q@.take(n as int) =~= q@);
        }
        ts
    }

    /// Registers a session for the guild: in the given channel, unmuted,
    /// with an empty queue.
    pub fn insert(&mut self, guild: u64, channel: u64)
        requires
            old(self).wf(),
            !old(self).spec_has(guild),
        ensures
            final(self).wf(),
            final(self).spec_has(guild),
            final(self).spec_get(guild).channel == channel,
            !final(self).spec_get(guild).muted,
            final(self).spec_get(guild).queue@.len() == 0,
            old(self).same_except(*final(self), guild),
    {
        let ghost pre = *self;
        let session = Session { channel, muted: false, queue: Vec::new() };
        self.entries.push((guild, session));
        proof {
            let n = pre.spec_len() as int;
            assert(forall|j: int| 0 <= j < n ==> self.key_at(j) == pre.key_at(j));
            assert(self.key_at(n) == guild);
            assert forall|i: int, j: int| 0 <= i < j < self.spec_len() implies self.key_at(i)
                != self.key_at(j) by {
                if j == n {
                    assert(self.key_at(i) == pre.key_at(i));
                    assert(pre.key_at(i) != guild);
                } else {
                    assert(self.key_at(i) == pre.key_at(i));
                    assert(self.key_at(j) == pre.key_at(j));
                    assert(pre.key_at(i) != pre.key_at(j));
                }
            }
            lemma_unique_get(*self, n);
            assert forall|g: u64| g != guild implies #[trigger] self.spec_has(g) == pre.spec_has(g)
                && (pre.spec_has(g) ==> self.spec_get(g) == pre.spec_get(g)) by {
                if pre.spec_has(g) {
                    let w = pre.idx_of(g);
                    assert(pre.key_at(w) == g);
                    assert(self.key_at(w) == g);
                    lemma_unique_get(*self, w);
                    lemma_unique_get(pre, w);
                } else {
                    if self.spec_has(g) {
                        let w = self.idx_of(g);
                        assert(self.key_at(w) == g);
                        assert(pre.key_at(w) == g);
                        assert(false);
                    }
                }
            }
        }
    }

    /// Removes the guild's session.
    pub fn remove(&mut self, guild: u64)
        requires
            old(self).wf(),
            old(self).spec_has(guild),
        ensures
            final(self).wf(),
            !final(self).spec_has(guild),
            old(self).same_except(*final(self), guild),
    {
        let ghost pre = *self;
        let i = self.find(guild);
        let _ = self.entries.remove(i);
        proof {
            let n = pre.spec_len() as int;
            assert(forall|j: int| 0 <= j < i ==> self.key_at(j) == pre.key_at(j));
            assert(forall|j: int| i <= j < n - 1 ==> self.key_at(j) == pre.key_at(j + 1));
            assert forall|p: int, q: int| 0 <= p < q < self.spec_len() implies self.key_at(p)
                != self.key_at(q) by {
                let p0 = if p < i {
                    p
                } else {
                    p + 1
                };
                let q0 = if q < i {
                    q
                } else {
                    q + 1
                };
                assert(self.key_at(p) == pre.key_at(p0));
                assert(self.key_at(q) == pre.key_at(q0));
            }
            assert forall|g: u64| g != guild implies #[trigger] self.spec_has(g) == pre.spec_has(g)
                && (pre.spec_has(g) ==> self.spec_get(g) == pre.spec_get(g)) by {
                if pre.spec_has(g) {
                    let w = pre.idx_of(g);
                    assert(pre.key_at(w) == g);
                    assert(w != i);
                    let w2 = if w < i {
                        w
                    } else {
                        w - 1
                    };
                    assert(self.key_at(w2) == g);
                    lemma_unique_get(*self, w2);
                    lemma_unique_get(pre, w);
                } else {
                    if self.spec_has(g) {
                        let w = self.idx_of(g);
                        assert(self.key_at(w) == g);
                        let w0 = if w < i {
                            w
                        } else {
                            w + 1
                        };
                        assert(pre.key_at(w0) == g);
                        assert(false);
                    }
                }
            }
            if self.spec_has(guild) {
                let w = self.idx_of(guild);
                assert(self.key_at(w) == guild);
                let w0 = if w < i {
                    w
                } else {
                    w + 1
                };
                assert(pre.key_at(w0) == guild);
                assert(pre.key_at(i as int) == guild);
                assert(false);
            }
        }
    }

    /// Sets whether the bot is muted in the guild's session.
    pub fn set_muted(&mut self, guild: u64, muted: bool)
        requires
            old(self).wf(),
            old(self).spec_has(guild),
        ensures
            final(self).wf(),
            final(self).spec_has(guild),
            final(self).spec_get(guild).channel == old(self).spec_get(guild).channel,
            final(self).spec_get(guild).muted == muted,
            final(self).spec_get(guild).queue == old(self).spec_get(guild).queue,
            old(self).same_except(*final(self), guild),
    {
        let ghost pre = *self;
        let i = self.find(guild);
        let mut e = self.entries.remove(i);
        e.1.muted = muted;
        let ghost entry = e;
        self.entries.insert(i, e);
        proof {
            lemma_replace_entry(pre, *self, i as int, entry);
        }
    }

    /// Appends a track to the guild's queue.
    pub fn push_track(&mut self, guild: u64, track: Track)
        requires
            old(self).wf(),
            old(self).spec_has(guild),
        ensures
            final(self).wf(),
            final(self).spec_has(guild),
            final(self).spec_get(guild).channel == old(self).spec_get(guild).channel,
            final(self).spec_get(guild).muted == old(self).spec_get(guild).muted,
            final(self).spec_get(guild).queue@ == old(self).spec_get(guild).queue@.push(track),
            old(self).same_except(*final(self), guild),
    {
        let ghost pre = *self;
        let i = self.find(guild);
        let mut e = self.entries.remove(i);
        e.1.queue.push(track);
        let ghost entry = e;
        self.entries.insert(i, e);
        proof {
            lemma_replace_entry(pre, *self, i as int, entry);
        }
    }

    /// Removes the first `min(n, len)` tracks of the guild's queue and
    /// hands them back, in order.
    pub fn drop_front(&mut self, guild: u64, n: usize) -> (removed: Vec<Track>)
        requires
            old(self).wf(),
            old(self).spec_has(guild),
        ensures
            final(self).wf(),
            final(self).spec_has(guild),
            final(self).spec_get(guild).channel == old(self).spec_get(guild).channel,
            final(self).spec_get(guild).muted == old(self).spec_get(guild).muted,
            ({
                let q = old(self).spec_get(guild).queue@;
                let k = if n <= q.len() {
                    n as int
                } else {
                    q.len() as int
                };
                removed@ == q.take(k) && final(self).spec_get(guild).queue@ == q.skip(k)
            }),
            old(self).same_except(*final(self), guild),
    {
        let ghost pre = *self;
        let i = self.find(guild);
        let mut e = self.entries.remove(i);
        let ghost q0 = e.1.queue@;
        let mut removed: Vec<Track> = Vec::new();
        let mut k: usize = 0;
        while k < n && e.1.queue.len() > 0
            invariant
                k <= n,
                k <= q0.len(),
                removed@ =~= q0.take(k as int),
                e.1.queue@ =~= q0.skip(k as int),
                pre.wf(),
                pre.spec_has(guild),
                0 <= i < pre.spec_len(),
                i == pre.idx_of(guild),
                e.0 == pre.key_at(i as int),
                e.1.channel == pre.spec_get(guild).channel,
                e.1.muted == pre.spec_get(guild).muted,
                q0 == pre.spec_get(guild).queue@,
                self.entries@ == pre.entries@.remove(i as int),
            decreases n - k,
        {
            let t = e.1.queue.remove(0);
            proof {
                assert(q0.skip(k as int).remove(0) =~= q0.skip(k as int + 1));
                assert(q0.take(k as int).push(q0.skip(k as int)[0]) =~= q0.take(k as int + 1));
            }
            removed.push(t);
            k += 1;
        }
        let ghost entry = e;
        self.entries.insert(i, e);
        proof {
            lemma_replace_entry(pre, *self, i as int, entry);
            let kk = if n <= q0.len() {
                n as int
            } else {
                q0.len() as int
            };
            assert(k == kk);
        }
        removed
    }

    /// Keeps only the last `live_len` tracks of the guild's queue (all
    /// of them when it already holds no more): tracks leave the playing
    /// queue from the front as they end, so this drops what has finished.
    pub fn keep_last(&mut self, guild: u64, live_len: usize)
        requires
            old(self).wf(),
            old(self).spec_has(guild),
        ensures
            final(self).wf(),
            final(self).spec_has(guild),
            final(self).spec_get(guild).channel == old(self).spec_get(guild).channel,
            final(self).spec_get(guild).muted == old(self).spec_get(guild).muted,
            ({
                let q = old(self).spec_get(guild).queue@;
                let k: int = if live_len <= q.len() {
                    q.len() - live_len
                } else {
                    0
                };
                final(self).spec_get(guild).queue@ == q.skip(k)
            }),
            old(self).same_except(*final(self), guild),
    {
        let len = self.queue_len(guild);
        if len > live_len {
            let _ = self.drop_front(guild, len - live_len);
        } else {
            proof {
                assert(self.spec_get(guild).queue@.skip(0) =~= self.spec_get(guild).queue@);
            }
        }
    }

    /// Empties the guild's queue.
    pub fn clear_queue(&mut self, guild: u64)
        requires
            old(self).wf(),
            old(self).spec_has(guild),
        ensures
            final(self).wf(),
            final(self).spec_has(guild),
            final(self).spec_get(guild).channel == old(self).spec_get(guild).channel,
            final(self).spec_get(guild).muted == old(self).spec_get(guild).muted,
            final(self).spec_get(guild).queue@.len() == 0,
            old(self).same_except(*final(self), guild),
    {
        let ghost pre = *self;
        let i = self.find(guild);
        let mut e = self.entries.remove(i);
        e.1.queue.clear();
        let ghost entry = e;
        self.entries.insert(i, e);
        proof {
            lemma_replace_entry(pre, *self, i as int, entry);
        }
    }
}

/// In a well-formed registry, the entry at `i` is the one its key finds.
proof fn lemma_unique_get(s: Sessions, i: int)
    requires
        s.wf(),
        0 <= i < s.spec_len(),
    ensures
        s.spec_has(s.key_at(i)),
        s.idx_of(s.key_at(i)) == i,
        s.spec_get(s.key_at(i)) == s.session_at(i),
{
    let g = s.key_at(i);
    assert(s.spec_has(g));
    let w = s.idx_of(g);
    assert(s.key_at(w) == g);
    if w < i {
        assert(s.key_at(w) != s.key_at(i));
        assert(false);
    }
    if i < w {
        assert(s.key_at(i) != s.key_at(w));
        assert(false);
    }
}

/// Replacing the entry at `i` by one with the same key keeps the registry
/// well formed and every other guild's session unchanged.
proof fn lemma_replace_entry(pre: Sessions, post: Sessions, i: int, e: (u64, Session))
    requires
        pre.wf(),
        0 <= i < pre.spec_len(),
        e.0 == pre.key_at(i),
        post.entries@ == pre.entries@.remove(i).insert(i, e),
    ensures
        post.wf(),
        post.spec_has(e.0),
        post.spec_get(e.0) == e.1,
        pre.same_except(post, e.0),
{
    assert(post.entries@ =~= pre.entries@.update(i, e));
    assert(forall|j: int| 0 <= j < pre.spec_len() ==> post.key_at(j) == pre.key_at(j));
    assert(post.spec_len() == pre.spec_len());
    lemma_unique_get(post, i);
    assert forall|g: u64| g != e.0 implies #[trigger] post.spec_has(g) == pre.spec_has(g) && (
    pre.spec_has(g) ==> post.spec_get(g) == pre.spec_get(g)) by {
        if pre.spec_has(g) {
            let w = pre.idx_of(g);
            assert(pre.key_at(w) == g);
            assert(post.key_at(w) == g);
            assert(w != i);
            lemma_unique_get(post, w);
            lemma_unique_get(pre, w);
        } else {
            if post.spec_has(g) {
                let w = post.idx_of(g);
                assert(post.key_at(w) == g);
                assert(pre.key_at(w) == g);
                assert(false);
            }
        }
    }
}

} // verus!
