//! Per-guild voice state: the connection lifecycle, the channel the
//! transport was sent to, the track queue, and the registered lifecycle
//! callbacks.

use vstd::prelude::*;
use crate::errors::JoinError;
use crate::metadata::Metadata;
use crate::queue::{QueueEntry, TrackQueue};

verus! {

/// Which channel a join should target. With the bot already in some voice
/// channel of the guild no join is needed (`None`: joining is a no-op, never
/// a channel switch). Otherwise the requesting user's channel is the target,
/// and a user who is in none cannot summon the bot.
pub fn get_channel_to_join(bot_channel: Option<u64>, user_channel: Option<u64>) -> (r: Result<
    Option<u64>,
    JoinError,
>)
    ensures
        bot_channel is Some ==> r == Ok::<Option<u64>, JoinError>(None),
        bot_channel is None && user_channel is Some ==> r == Ok::<Option<u64>, JoinError>(
            user_channel,
        ),
        bot_channel is None && user_channel is None ==> r == Err::<Option<u64>, JoinError>(
            JoinError::UserNotInVoiceChannel,
        ),
{
    if bot_channel.is_some() {
        return Ok(None);
    }
    match user_channel {
        Some(c) => Ok(Some(c)),
        None => Err(JoinError::UserNotInVoiceChannel),
    }
}

/// Connection lifecycle of a guild's session. A guild without a session is
/// disconnected; a session is born connecting and is destroyed, not kept,
/// once its guild disconnects.
#[derive(Clone, Copy, Debug, PartialEq, Eq, Structural)]
pub enum SessionState {
    /// The transport was asked to join and has not answered yet. No queue
    /// operation may target a session in this state.
    Connecting,
    /// The transport joined; queue operations are valid.
    Connected,
}

/// One guild's voice session, uniquely owned by the registry.
pub struct VoiceSession {
    pub state: SessionState,
    /// The channel the transport was asked to join.
    pub channel_id: u64,
    pub queue: TrackQueue,
    /// Whether the track-start, track-end and transport-disconnect callbacks
    /// were registered on the transport handle (done on join success).
    pub callbacks_registered: bool,
}

impl VoiceSession {
    /// A session keeps its queue empty and its callbacks unregistered until
    /// the transport reports that the join succeeded.
    pub open spec fn wf(self) -> bool {
        self.state is Connecting ==> self.queue@.len() == 0 && !self.callbacks_registered
    }

    /// A fresh session awaiting the transport's answer to an issued join.
    pub fn connecting(channel_id: u64) -> (s: VoiceSession)
        ensures
            s.state is Connecting,
            s.channel_id == channel_id,
            s.queue@ =~= Seq::<QueueEntry>::empty(),
            !s.callbacks_registered,
            s.wf(),
    {
        VoiceSession {
            state: SessionState::Connecting,
            channel_id,
            queue: TrackQueue::new(),
            callbacks_registered: false,
        }
    }
}

/// What a join request decided.
#[derive(Clone, Copy, Debug, PartialEq, Eq, Structural)]
pub enum JoinPlan {
    /// The guild already has a session: joining is a no-op that succeeds
    /// without changing channel.
    AlreadyConnected,
    /// A transport join was issued for this channel.
    JoinIssued { channel_id: u64 },
}

/// What the track-start notifier decided: when the entry that began playing
/// carries an originating interaction, that interaction is sent a follow-up
/// with the track's metadata and the number of entries pending behind it.
pub struct TrackStartFollowup {
    /// Identifier of the originating interaction.
    pub context: u64,
    pub metadata: Metadata,
    /// Queue length minus the entry now playing.
    pub pending: usize,
}

/// What the track-end notifier decided.
#[derive(Clone, Copy, Debug, PartialEq, Eq, Structural)]
pub enum TrackEndOutcome {
    /// No session: nothing to do.
    NoSession,
    /// The queue emptied: the session leaves the channel gracefully and is
    /// destroyed.
    AutoLeave,
    /// Entries remain: the transport advances to the new head on its own.
    Advanced,
}

/// What a play request did: the position its entry got (the queue length
/// after the append) and the channel a transport join was issued for, when
/// one was.
pub struct PlayReport {
    pub position: usize,
    pub join_issued: Option<u64>,
}

} // verus!
