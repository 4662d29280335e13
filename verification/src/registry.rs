//! The process-wide session registry: a mapping from guild identifier to at
//! most one voice session, and the command and lifecycle-event operations
//! that drive each session through its states. The embedding program holds
//! one registry behind a lock, performs the transport actions the operations
//! call for, and feeds the transport's events back in.

use vstd::prelude::*;
use crate::assoc::{
    assoc_map, distinct_keys, lemma_assoc_map_dom, lemma_assoc_map_index, lemma_assoc_map_push,
    lemma_assoc_map_remove, lemma_distinct_keys_push,
};
use crate::errors::{JoinError, LeaveError, PlayError, QueueError};
use crate::metadata::Metadata;
use crate::queue::{pending_of, QueueEntry};
use crate::session::{
    JoinPlan, PlayReport, SessionState, TrackEndOutcome, TrackStartFollowup, VoiceSession,
};

verus! {

/// At most one session per guild: the registry's entries, read as a map.
pub struct SessionRegistry {
    sessions: Vec<(u64, VoiceSession)>,
}

impl View for SessionRegistry {
    type V = Map<u64, VoiceSession>;

    closed spec fn view(&self) -> Map<u64, VoiceSession> {
        assoc_map(self.sessions@)
    }
}

impl SessionRegistry {
    /// Guild keys are pairwise distinct and every session is well formed.
    pub closed spec fn wf(&self) -> bool {
        &&& distinct_keys(self.sessions@)
        &&& forall|i: int|
            0 <= i < self.sessions@.len() ==> (#[trigger] self.sessions@[i]).1.wf()
    }

    /// An empty registry: every guild disconnected.
    pub fn new() -> (r: SessionRegistry)
        ensures
            r@ =~= Map::<u64, VoiceSession>::empty(),
            r.wf(),
    {
        SessionRegistry { sessions: Vec::new() }
    }

    /// Where the guild's entry sits in the backing sequence.
    fn find_index(&self, guild: u64) -> (r: Option<usize>)
        ensures
            match r {
                Some(i) => i < self.sessions@.len() && self.sessions@[i as int].0 == guild
                    && self@.contains_key(guild),
                None => !self@.contains_key(guild),
            },
    {
        let mut i: usize = 0;
        while i < self.sessions.len()
            invariant
                i <= self.sessions@.len(),
                forall|j: int| 0 <= j < i ==> self.sessions@[j].0 != guild,
            decreases self.sessions@.len() - i,
        {
            if self.sessions[i].0 == guild {
                proof {
                    lemma_assoc_map_dom(self.sessions@, guild);
                }
                return Some(i);
            }
            i = i + 1;
        }
        proof {
            lemma_assoc_map_dom(self.sessions@, guild);
        }
        None
    }

    /// Whether the guild has a session at all.
    pub fn contains(&self, guild: u64) -> (r: bool)
        ensures
            r == self@.contains_key(guild),
    {
        self.find_index(guild).is_some()
    }

    /// The guild's session, when there is one.
    pub fn get(&self, guild: u64) -> (r: Option<&VoiceSession>)
        requires
            self.wf(),
        ensures
            match r {
                Some(s) => self@.contains_key(guild) && *s == self@[guild],
                None => !self@.contains_key(guild),
            },
    {
        match self.find_index(guild) {
            Some(i) => {
                proof {
                    lemma_assoc_map_index(self.sessions@, i as int);
                }
                Some(&self.sessions[i].1)
            },
            None => None,
        }
    }

    /// The registry primitive behind every join. At most one session may
    /// exist per guild, so a guild that already has one gets it back
    /// untouched and no transport join is issued; only on a vacant guild is
    /// a connecting session created, whose transport join is then in flight.
    /// The result says whether this call was the one that created (and so
    /// whether a join was issued).
    pub fn get_or_create(&mut self, guild: u64, channel_id: u64) -> (created: bool)
        requires
            old(self).wf(),
        ensures
            final(self).wf(),
            created == !old(self)@.contains_key(guild),
            !created ==> final(self)@ =~= old(self)@,
            created ==> (final(self)@, created) == get_or_create_transition(
                old(self)@,
                guild,
                final(self)@[guild],
            ),
            created ==> final(self)@.dom() =~= old(self)@.dom().insert(guild),
            created ==> final(self)@[guild].state is Connecting
                && final(self)@[guild].channel_id == channel_id && final(self)@[guild].queue@
                =~= Seq::<crate::queue::QueueEntry>::empty()
                && !final(self)@[guild].callbacks_registered,
            forall|h: u64|
                h != guild && old(self)@.contains_key(h) ==> final(self)@.contains_key(h)
                    && final(self)@[h] == old(self)@[h],
    {
        match self.find_index(guild) {
            Some(_) => false,
            None => {
                proof {
                    lemma_assoc_map_dom(self.sessions@, guild);
                }
                let ghost before = self.sessions@;
                let fresh = VoiceSession::connecting(channel_id);
                proof {
                    lemma_assoc_map_push(before, guild, fresh);
                }
                self.sessions.push((guild, fresh));
                proof {
                    assert(self.sessions@ =~= before.push((guild, fresh)));
                    assert(self@ =~= assoc_map(before).insert(guild, fresh));
                    assert(distinct_keys(self.sessions@)) by {
                        lemma_distinct_keys_push(before, guild, fresh);
                    }
                }
                true
            },
        }
    }

    /// Take one entry out of the backing sequence so its session can be
    /// reshaped; `put` returns it.
    fn take(&mut self, i: usize) -> (r: (u64, VoiceSession))
        requires
            old(self).wf(),
            i < old(self).sessions@.len(),
        ensures
            final(self).wf(),
            r == old(self).sessions@[i as int],
            old(self)@.contains_key(r.0) && old(self)@[r.0] == r.1,
            final(self)@ =~= old(self)@.remove(r.0),
            !final(self)@.contains_key(r.0),
    {
        proof {
            lemma_assoc_map_index(self.sessions@, i as int);
            lemma_assoc_map_remove(self.sessions@, i as int);
        }
        let ghost before = self.sessions@;
        let r = self.sessions.remove(i);
        proof {
            assert(forall|j: int|
                0 <= j < self.sessions@.len() ==> (#[trigger] self.sessions@[j]) == (if j < i {
                    before[j]
                } else {
                    before[j + 1]
                }));
        }
        r
    }

    /// Return a session for a guild that has none.
    fn put(&mut self, guild: u64, s: VoiceSession)
        requires
            old(self).wf(),
            !old(self)@.contains_key(guild),
            s.wf(),
        ensures
            final(self).wf(),
            final(self)@ =~= old(self)@.insert(guild, s),
    {
        proof {
            lemma_assoc_map_dom(self.sessions@, guild);
            lemma_assoc_map_push(self.sessions@, guild, s);
            lemma_distinct_keys_push(self.sessions@, guild, s);
        }
        let ghost before = self.sessions@;
        self.sessions.push((guild, s));
        proof {
            assert(self.sessions@ =~= before.push((guild, s)));
        }
    }

    /// Registry teardown for one guild; other guilds are unaffected.
    pub fn remove(&mut self, guild: u64)
        requires
            old(self).wf(),
        ensures
            final(self).wf(),
            final(self)@ =~= old(self)@.remove(guild),
    {
        match self.find_index(guild) {
            Some(i) => {
                proof {
                    lemma_assoc_map_remove(self.sessions@, i as int);
                }
                let _ = self.sessions.remove(i);
            },
            None => {
                proof {
                    assert(self@ =~= self@.remove(guild));
                }
            },
        }
    }

    /// A join was requested for the guild. With a session already present —
    /// whatever channel it sits in — joining is a no-op that succeeds without
    /// changing channel. Otherwise the requesting user must occupy a voice
    /// channel; a connecting session is then created and a transport join for
    /// that channel is issued.
    pub fn begin_join(&mut self, guild: u64, user_channel: Option<u64>) -> (r: Result<
        JoinPlan,
        JoinError,
    >)
        requires
            old(self).wf(),
        ensures
            final(self).wf(),
            old(self)@.contains_key(guild) ==> r == Ok::<JoinPlan, JoinError>(
                JoinPlan::AlreadyConnected,
            ) && final(self)@ =~= old(self)@,
            !old(self)@.contains_key(guild) && user_channel is None ==> r == Err::<
                JoinPlan,
                JoinError,
            >(JoinError::UserNotInVoiceChannel) && final(self)@ =~= old(self)@,
            user_channel matches Some(c) ==> (!old(self)@.contains_key(guild) ==> {
                &&& r == Ok::<JoinPlan, JoinError>((JoinPlan::JoinIssued { channel_id: c }))
                &&& final(self)@.dom() =~= old(self)@.dom().insert(guild)
                &&& final(self)@[guild].state is Connecting
                &&& final(self)@[guild].channel_id == c
                &&& final(self)@[guild].queue@ =~= Seq::<QueueEntry>::empty()
                &&& !final(self)@[guild].callbacks_registered
                &&& forall|h: u64|
                    h != guild && old(self)@.contains_key(h) ==> final(self)@.contains_key(h)
                        && final(self)@[h] == old(self)@[h]
            }),
    {
        if self.contains(guild) {
            return Ok(JoinPlan::AlreadyConnected);
        }
        match user_channel {
            None => Err(JoinError::UserNotInVoiceChannel),
            Some(c) => {
                let _ = self.get_or_create(guild, c);
                Ok(JoinPlan::JoinIssued { channel_id: c })
            },
        }
    }

    /// The transport answered an issued join with success: the session turns
    /// connected and the three lifecycle callbacks are registered on the
    /// handle. Its queue is still empty.
    pub fn join_succeeded(&mut self, guild: u64)
        requires
            old(self).wf(),
            old(self)@.contains_key(guild),
            old(self)@[guild].state is Connecting,
        ensures
            final(self).wf(),
            final(self)@.dom() =~= old(self)@.dom(),
            final(self)@[guild].state is Connected,
            final(self)@[guild].channel_id == old(self)@[guild].channel_id,
            final(self)@[guild].queue@ =~= Seq::<QueueEntry>::empty(),
            final(self)@[guild].callbacks_registered,
            forall|h: u64|
                h != guild && old(self)@.contains_key(h) ==> final(self)@.contains_key(h)
                    && final(self)@[h] == old(self)@[h],
    {
        let i = match self.find_index(guild) {
            Some(i) => i,
            None => {
                proof {
                    assert(false);
                }
                return;
            },
        };
        let (g, mut s) = self.take(i);
        s.state = SessionState::Connected;
        s.callbacks_registered = true;
        self.put(g, s);
    }

    /// The transport answered an issued join with failure: the error goes to
    /// the caller and no session persists.
    pub fn join_failed(&mut self, guild: u64)
        requires
            old(self).wf(),
            old(self)@.contains_key(guild),
            old(self)@[guild].state is Connecting,
        ensures
            final(self).wf(),
            final(self)@ =~= old(self)@.remove(guild),
    {
        self.remove(guild);
    }

    /// The whole join flow of one request: a no-op success when a session is
    /// already there, a refusal when the user is in no voice channel, and
    /// otherwise an issued transport join whose answer `transport_ok` decides
    /// between a connected session and none.
    pub fn join(&mut self, guild: u64, user_channel: Option<u64>, transport_ok: bool) -> (r: Result<
        (),
        JoinError,
    >)
        requires
            old(self).wf(),
        ensures
            final(self).wf(),
            old(self)@.contains_key(guild) ==> r is Ok && final(self)@ =~= old(self)@,
            !old(self)@.contains_key(guild) && user_channel is None ==> r == Err::<(), JoinError>(
                JoinError::UserNotInVoiceChannel,
            ) && final(self)@ =~= old(self)@,
            !old(self)@.contains_key(guild) && user_channel is Some && !transport_ok ==> r
                == Err::<(), JoinError>(JoinError::TransportFailed) && final(self)@ =~= old(self)@,
            user_channel matches Some(c) ==> (!old(self)@.contains_key(guild) && transport_ok ==> {
                &&& r is Ok
                &&& final(self)@.dom() =~= old(self)@.dom().insert(guild)
                &&& final(self)@[guild].state is Connected
                &&& final(self)@[guild].channel_id == c
                &&& final(self)@[guild].queue@ =~= Seq::<QueueEntry>::empty()
                &&& final(self)@[guild].callbacks_registered
                &&& forall|h: u64|
                    h != guild && old(self)@.contains_key(h) ==> final(self)@.contains_key(h)
                        && final(self)@[h] == old(self)@[h]
            }),
    {
        match self.begin_join(guild, user_channel) {
            Err(e) => Err(e),
            Ok(JoinPlan::AlreadyConnected) => Ok(()),
            Ok(JoinPlan::JoinIssued { channel_id: _ }) => {
                if transport_ok {
                    self.join_succeeded(guild);
                    Ok(())
                } else {
                    self.join_failed(guild);
                    proof {
                        assert(self@ =~= old(self)@);
                    }
                    Err(JoinError::TransportFailed)
                }
            },
        }
    }

    /// An explicit disconnect: the session is removed and the transport told
    /// to leave gracefully; with no active session there is nothing to leave.
    pub fn leave(&mut self, guild: u64) -> (r: Result<(), LeaveError>)
        requires
            old(self).wf(),
        ensures
            final(self).wf(),
            old(self)@.contains_key(guild) ==> r is Ok && final(self)@ =~= old(self)@.remove(
                guild,
            ),
            !old(self)@.contains_key(guild) ==> r == Err::<(), LeaveError>(
                LeaveError::NoActiveSession,
            ) && final(self)@ =~= old(self)@,
    {
        if self.contains(guild) {
            self.remove(guild);
            Ok(())
        } else {
            Err(LeaveError::NoActiveSession)
        }
    }

    /// Append an entry to the guild's queue; its position is the new queue
    /// length. Valid only on a connected session.
    pub fn enqueue(&mut self, guild: u64, entry: QueueEntry) -> (r: Result<usize, PlayError>)
        requires
            old(self).wf(),
        ensures
            final(self).wf(),
            !(old(self)@.contains_key(guild) && old(self)@[guild].state is Connected) ==> r
                == Err::<usize, PlayError>(PlayError::NotConnected) && final(self)@ =~= old(self)@,
            old(self)@.contains_key(guild) && old(self)@[guild].state is Connected ==> ({
                &&& r matches Ok(n) && n == old(self)@[guild].queue@.len() + 1
                &&& final(self)@.dom() =~= old(self)@.dom()
                &&& final(self)@[guild].queue@ =~= old(self)@[guild].queue@.push(entry)
                &&& final(self)@[guild].state == old(self)@[guild].state
                &&& final(self)@[guild].channel_id == old(self)@[guild].channel_id
                &&& final(self)@[guild].callbacks_registered == old(self)@[guild].callbacks_registered
                &&& forall|h: u64|
                    h != guild && old(self)@.contains_key(h) ==> final(self)@.contains_key(h)
                        && final(self)@[h] == old(self)@[h]
            }),
    {
        let i = match self.find_index(guild) {
            Some(i) => i,
            None => {
                return Err(PlayError::NotConnected);
            },
        };
        let (g, mut s) = self.take(i);
        if s.state == SessionState::Connected {
            let n = s.queue.enqueue(entry);
            self.put(g, s);
            Ok(n)
        } else {
            self.put(g, s);
            proof {
                assert(self@ =~= old(self)@);
            }
            Err(PlayError::NotConnected)
        }
    }

    /// One play request, whole: join first when the guild is vacant (the
    /// user's channel and the transport's answer decide), then enqueue the
    /// entry. The report carries the entry's queue position and the channel a
    /// transport join was issued for, when one was.
    pub fn enqueue_and_maybe_play(
        &mut self,
        guild: u64,
        entry: QueueEntry,
        user_channel: Option<u64>,
        transport_ok: bool,
    ) -> (r: Result<PlayReport, PlayError>)
        requires
            old(self).wf(),
        ensures
            final(self).wf(),
            old(self)@.contains_key(guild) && old(self)@[guild].state is Connected ==> ({
                &&& r matches Ok(p) && p.position == old(self)@[guild].queue@.len() + 1
                    && p.join_issued is None
                &&& final(self)@.dom() =~= old(self)@.dom()
                &&& final(self)@[guild].queue@ =~= old(self)@[guild].queue@.push(entry)
                &&& final(self)@[guild].state == old(self)@[guild].state
                &&& final(self)@[guild].channel_id == old(self)@[guild].channel_id
                &&& final(self)@[guild].callbacks_registered == old(self)@[guild].callbacks_registered
                &&& forall|h: u64|
                    h != guild && old(self)@.contains_key(h) ==> final(self)@.contains_key(h)
                        && final(self)@[h] == old(self)@[h]
            }),
            old(self)@.contains_key(guild) && old(self)@[guild].state is Connecting ==> r == Err::<
                PlayReport,
                PlayError,
            >(PlayError::NotConnected) && final(self)@ =~= old(self)@,
            !old(self)@.contains_key(guild) && user_channel is None ==> r == Err::<
                PlayReport,
                PlayError,
            >(PlayError::Join(JoinError::UserNotInVoiceChannel)) && final(self)@ =~= old(self)@,
            !old(self)@.contains_key(guild) && user_channel is Some && !transport_ok ==> r
                == Err::<PlayReport, PlayError>(PlayError::Join(JoinError::TransportFailed))
                && final(self)@ =~= old(self)@,
            user_channel matches Some(c) ==> (!old(self)@.contains_key(guild) && transport_ok ==> {
                &&& r matches Ok(p) && p.position == 1 && p.join_issued == Some(c)
                &&& final(self)@.dom() =~= old(self)@.dom().insert(guild)
                &&& final(self)@[guild].state is Connected
                &&& final(self)@[guild].channel_id == c
                &&& final(self)@[guild].queue@ =~= seq![entry]
                &&& final(self)@[guild].callbacks_registered
                &&& forall|h: u64|
                    h != guild && old(self)@.contains_key(h) ==> final(self)@.contains_key(h)
                        && final(self)@[h] == old(self)@[h]
            }),
    {
        let had_session = self.contains(guild);
        if !had_session {
            match user_channel {
                None => {
                    return Err(PlayError::Join(JoinError::UserNotInVoiceChannel));
                },
                Some(c) => {
                    let _ = self.get_or_create(guild, c);
                    if transport_ok {
                        self.join_succeeded(guild);
                    } else {
                        self.join_failed(guild);
                        proof {
                            assert(self@ =~= old(self)@);
                        }
                        return Err(PlayError::Join(JoinError::TransportFailed));
                    }
                },
            }
        }
        match self.enqueue(guild, entry) {
            Ok(n) => Ok(
                PlayReport {
                    position: n,
                    join_issued: if had_session {
                        None
                    } else {
                        user_channel
                    },
                },
            ),
            Err(e) => Err(e),
        }
    }

    /// Move a connected session to the requesting user's channel. Unlike a
    /// join, this requires a session to exist already and does change its
    /// channel.
    pub fn change_channel(
        &mut self,
        guild: u64,
        user_channel: Option<u64>,
        transport_ok: bool,
    ) -> (r: Result<(), JoinError>)
        requires
            old(self).wf(),
        ensures
            final(self).wf(),
            user_channel is None ==> r == Err::<(), JoinError>(JoinError::UserNotInVoiceChannel)
                && final(self)@ =~= old(self)@,
            user_channel is Some && !(old(self)@.contains_key(guild)
                && old(self)@[guild].state is Connected) ==> r == Err::<(), JoinError>(
                JoinError::NotConnected,
            ) && final(self)@ =~= old(self)@,
            user_channel is Some && old(self)@.contains_key(guild)
                && old(self)@[guild].state is Connected && !transport_ok ==> r == Err::<
                (),
                JoinError,
            >(JoinError::TransportFailed) && final(self)@ =~= old(self)@,
            user_channel matches Some(c) ==> (old(self)@.contains_key(guild)
                && old(self)@[guild].state is Connected && transport_ok ==> {
                &&& r is Ok
                &&& final(self)@.dom() =~= old(self)@.dom()
                &&& final(self)@[guild].channel_id == c
                &&& final(self)@[guild].state == old(self)@[guild].state
                &&& final(self)@[guild].queue@ =~= old(self)@[guild].queue@
                &&& final(self)@[guild].callbacks_registered == old(self)@[guild].callbacks_registered
                &&& forall|h: u64|
                    h != guild && old(self)@.contains_key(h) ==> final(self)@.contains_key(h)
                        && final(self)@[h] == old(self)@[h]
            }),
    {
        let c = match user_channel {
            None => {
                return Err(JoinError::UserNotInVoiceChannel);
            },
            Some(c) => c,
        };
        let i = match self.find_index(guild) {
            Some(i) => i,
            None => {
                return Err(JoinError::NotConnected);
            },
        };
        let (g, mut s) = self.take(i);
        if s.state == SessionState::Connected {
            if transport_ok {
                s.channel_id = c;
                self.put(g, s);
                Ok(())
            } else {
                self.put(g, s);
                proof {
                    assert(self@ =~= old(self)@);
                }
                Err(JoinError::TransportFailed)
            }
        } else {
            self.put(g, s);
            proof {
                assert(self@ =~= old(self)@);
            }
            Err(JoinError::NotConnected)
        }
    }

    /// Ask the transport to stop the playing head; the head leaves the queue
    /// when the transport then reports the track's end, not here. A queue
    /// with no head cannot skip.
    pub fn skip(&self, guild: u64) -> (r: Result<(), QueueError>)
        requires
            self.wf(),
        ensures
            r is Ok <==> self@.contains_key(guild) && self@[guild].state is Connected
                && self@[guild].queue@.len() >= 1,
            !(self@.contains_key(guild) && self@[guild].state is Connected) ==> r == Err::<
                (),
                QueueError,
            >(QueueError::NoSession),
            self@.contains_key(guild) && self@[guild].state is Connected
                && self@[guild].queue@.len() == 0 ==> r == Err::<(), QueueError>(QueueError::Empty),
    {
        match self.get(guild) {
            None => Err(QueueError::NoSession),
            Some(s) => {
                if s.state == SessionState::Connected {
                    if s.queue.is_empty() {
                        Err(QueueError::Empty)
                    } else {
                        Ok(())
                    }
                } else {
                    Err(QueueError::NoSession)
                }
            },
        }
    }

    /// Remove every pending entry of the guild's queue; the playing head
    /// keeps its place and identity. A queue holding at most the playing
    /// track counts as empty here.
    pub fn clear(&mut self, guild: u64) -> (r: Result<(), QueueError>)
        requires
            old(self).wf(),
        ensures
            final(self).wf(),
            !(old(self)@.contains_key(guild) && old(self)@[guild].state is Connected) ==> r
                == Err::<(), QueueError>(QueueError::NoSession) && final(self)@ =~= old(self)@,
            old(self)@.contains_key(guild) && old(self)@[guild].state is Connected && old(self)@[guild].queue@.len() <= 1 ==> r == Err::<(), QueueError>(QueueError::Empty) && final(self)@ =~= old(self)@,
            old(self)@.contains_key(guild) && old(self)@[guild].state is Connected && old(self)@[guild].queue@.len() >= 2 ==> ({
                &&& r is Ok
                &&& final(self)@.dom() =~= old(self)@.dom()
                &&& final(self)@[guild].queue@ =~= seq![old(self)@[guild].queue@[0]]
                &&& final(self)@[guild].state == old(self)@[guild].state
                &&& final(self)@[guild].channel_id == old(self)@[guild].channel_id
                &&& final(self)@[guild].callbacks_registered == old(self)@[guild].callbacks_registered
                &&& forall|h: u64|
                    h != guild && old(self)@.contains_key(h) ==> final(self)@.contains_key(h)
                        && final(self)@[h] == old(self)@[h]
            }),
    {
        let i = match self.find_index(guild) {
            Some(i) => i,
            None => {
                return Err(QueueError::NoSession);
            },
        };
        let (g, mut s) = self.take(i);
        if s.state != SessionState::Connected {
            self.put(g, s);
            proof {
                assert(self@ =~= old(self)@);
            }
            return Err(QueueError::NoSession);
        }
        if s.queue.len() <= 1 {
            self.put(g, s);
            proof {
                assert(self@ =~= old(self)@);
            }
            return Err(QueueError::Empty);
        }
        s.queue.clear_pending();
        self.put(g, s);
        Ok(())
    }

    /// Permute the pending entries of the guild's queue in place: the head
    /// never moves, and the pending entries afterwards are exactly those from
    /// before — a permutation, not a resample. The same emptiness rule as for
    /// clearing applies.
    pub fn shuffle(&mut self, guild: u64) -> (r: Result<(), QueueError>)
        requires
            old(self).wf(),
        ensures
            final(self).wf(),
            !(old(self)@.contains_key(guild) && old(self)@[guild].state is Connected) ==> r
                == Err::<(), QueueError>(QueueError::NoSession) && final(self)@ =~= old(self)@,
            old(self)@.contains_key(guild) && old(self)@[guild].state is Connected && old(self)@[guild].queue@.len() <= 1 ==> r == Err::<(), QueueError>(QueueError::Empty) && final(self)@ =~= old(self)@,
            old(self)@.contains_key(guild) && old(self)@[guild].state is Connected && old(self)@[guild].queue@.len() >= 2 ==> ({
                &&& r is Ok
                &&& final(self)@.dom() =~= old(self)@.dom()
                &&& final(self)@[guild].queue@.len() == old(self)@[guild].queue@.len()
                &&& final(self)@[guild].queue@[0] == old(self)@[guild].queue@[0]
                &&& pending_of(final(self)@[guild].queue@).to_multiset() =~= pending_of(
                    old(self)@[guild].queue@,
                ).to_multiset()
                &&& final(self)@[guild].state == old(self)@[guild].state
                &&& final(self)@[guild].channel_id == old(self)@[guild].channel_id
                &&& final(self)@[guild].callbacks_registered == old(self)@[guild].callbacks_registered
                &&& forall|h: u64|
                    h != guild && old(self)@.contains_key(h) ==> final(self)@.contains_key(h)
                        && final(self)@[h] == old(self)@[h]
            }),
    {
        let i = match self.find_index(guild) {
            Some(i) => i,
            None => {
                return Err(QueueError::NoSession);
            },
        };
        let (g, mut s) = self.take(i);
        if s.state != SessionState::Connected {
            self.put(g, s);
            proof {
                assert(self@ =~= old(self)@);
            }
            return Err(QueueError::NoSession);
        }
        if s.queue.len() <= 1 {
            self.put(g, s);
            proof {
                assert(self@ =~= old(self)@);
            }
            return Err(QueueError::Empty);
        }
        s.queue.shuffle_pending();
        self.put(g, s);
        Ok(())
    }

    /// A read-only copy of the pending entries' metadata for display, in
    /// order, the playing head excluded. The same emptiness rule as for
    /// clearing applies.
    pub fn list_pending(&self, guild: u64) -> (r: Result<Vec<Metadata>, QueueError>)
        requires
            self.wf(),
        ensures
            !(self@.contains_key(guild) && self@[guild].state is Connected) ==> r == Err::<
                Vec<Metadata>,
                QueueError,
            >(QueueError::NoSession),
            self@.contains_key(guild) && self@[guild].state is Connected
                && self@[guild].queue@.len() <= 1 ==> r == Err::<Vec<Metadata>, QueueError>(
                QueueError::Empty,
            ),
            self@.contains_key(guild) && self@[guild].state is Connected
                && self@[guild].queue@.len() >= 2 ==> ({
                &&& r matches Ok(v) && v@.len() == self@[guild].queue@.len() - 1 && forall|j: int|
                    0 <= j < v@.len() ==> v@[j] == self@[guild].queue@[j + 1].metadata
            }),
    {
        match self.get(guild) {
            None => Err(QueueError::NoSession),
            Some(s) => {
                if s.state != SessionState::Connected {
                    Err(QueueError::NoSession)
                } else if s.queue.len() <= 1 {
                    Err(QueueError::Empty)
                } else {
                    Ok(s.queue.snapshot_pending())
                }
            },
        }
    }

    /// A new head began playing. When that entry carries an originating
    /// interaction, a follow-up is owed to it with the track's metadata and
    /// the count of entries pending behind it; entries that were auto-joined
    /// carry none and nothing is sent.
    pub fn on_track_start(&self, guild: u64) -> (r: Option<TrackStartFollowup>)
        requires
            self.wf(),
        ensures
            r is Some <==> self@.contains_key(guild) && self@[guild].queue@.len() >= 1
                && self@[guild].queue@[0].context is Some,
            r matches Some(f) ==> ({
                &&& Some(f.context) == self@[guild].queue@[0].context
                &&& f.metadata == self@[guild].queue@[0].metadata
                &&& f.pending == self@[guild].queue@.len() - 1
            }),
    {
        let s = match self.get(guild) {
            None => {
                return None;
            },
            Some(s) => s,
        };
        let n = s.queue.len();
        match s.queue.head() {
            None => None,
            Some(e) => match e.context {
                None => None,
                Some(ctx) => Some(
                    TrackStartFollowup { context: ctx, metadata: e.metadata.clone(), pending: n - 1 },
                ),
            },
        }
    }

    /// The playing head ended, naturally or by a skip, and has left the
    /// queue. When nothing is left the session leaves gracefully and is
    /// destroyed (auto-leave); otherwise the transport advances to the new
    /// head on its own.
    pub fn on_track_end(&mut self, guild: u64) -> (r: TrackEndOutcome)
        requires
            old(self).wf(),
        ensures
            final(self).wf(),
            !old(self)@.contains_key(guild) ==> r == TrackEndOutcome::NoSession && final(self)@
                =~= old(self)@,
            old(self)@.contains_key(guild) && old(self)@[guild].queue@.len() <= 1 ==> r
                == TrackEndOutcome::AutoLeave && final(self)@ =~= old(self)@.remove(guild),
            old(self)@.contains_key(guild) && old(self)@[guild].queue@.len() >= 2 ==> ({
                &&& r == TrackEndOutcome::Advanced
                &&& final(self)@.dom() =~= old(self)@.dom()
                &&& final(self)@[guild].queue@ =~= pending_of(old(self)@[guild].queue@)
                &&& final(self)@[guild].state == old(self)@[guild].state
                &&& final(self)@[guild].channel_id == old(self)@[guild].channel_id
                &&& final(self)@[guild].callbacks_registered == old(self)@[guild].callbacks_registered
                &&& forall|h: u64|
                    h != guild && old(self)@.contains_key(h) ==> final(self)@.contains_key(h)
                        && final(self)@[h] == old(self)@[h]
            }),
    {
        let i = match self.find_index(guild) {
            Some(i) => i,
            None => {
                return TrackEndOutcome::NoSession;
            },
        };
        let (g, mut s) = self.take(i);
        if s.queue.len() <= 1 {
            proof {
                assert(self@ =~= old(self)@.remove(guild));
            }
            TrackEndOutcome::AutoLeave
        } else {
            s.queue.advance();
            self.put(g, s);
            TrackEndOutcome::Advanced
        }
    }

    /// The transport's connection dropped outside of a requested leave: the
    /// session is removed without a graceful leave — the connection is
    /// already gone — so a later join starts clean.
    pub fn on_driver_disconnect(&mut self, guild: u64)
        requires
            old(self).wf(),
        ensures
            final(self).wf(),
            final(self)@ =~= old(self)@.remove(guild),
    {
        self.remove(guild);
    }
}

/// The registry transition that `get_or_create`'s contract states: an
/// occupied guild is returned untouched, a vacant one receives session `s`,
/// and the flag says whether a transport join was issued.
pub open spec fn get_or_create_transition(
    m: Map<u64, VoiceSession>,
    guild: u64,
    s: VoiceSession,
) -> (Map<u64, VoiceSession>, bool) {
    if m.contains_key(guild) {
        (m, false)
    } else {
        (m.insert(guild, s), true)
    }
}

/// However many get-or-create requests target one guild, only the first can
/// create — and so issue the one transport join — while every later request
/// changes nothing and observes the session the first request made.
pub proof fn lemma_at_most_one_join(
    m: Map<u64, VoiceSession>,
    guild: u64,
    s1: VoiceSession,
    s2: VoiceSession,
)
    requires
        !m.contains_key(guild),
    ensures
        ({
            let (m1, created1) = get_or_create_transition(m, guild, s1);
            let (m2, created2) = get_or_create_transition(m1, guild, s2);
            &&& created1
            &&& !created2
            &&& m2 == m1
            &&& m1[guild] == s1
            &&& m2[guild] == s1
        }),
{
}

} // verus!
