//! The error taxonomy of the bot's core: every failure a command can report.

use vstd::prelude::*;

verus! {

/// Why a join request was refused.
#[derive(Clone, Copy, Debug, PartialEq, Eq, Structural)]
pub enum JoinError {
    /// The invoking user occupies no voice channel in the guild.
    UserNotInVoiceChannel,
    /// The guild has no session to move (channel switch only).
    NotConnected,
    /// The transport reported that the join itself failed.
    TransportFailed,
}

/// Why a leave request was refused.
#[derive(Clone, Copy, Debug, PartialEq, Eq, Structural)]
pub enum LeaveError {
    /// The guild has no active session.
    NoActiveSession,
}

/// Why a resolve produced no playable track.
#[derive(Clone, Copy, Debug, PartialEq, Eq, Structural)]
pub enum ResolveError {
    /// The resolver could not be invoked, timed out, or its output did not
    /// parse as a single structured record.
    Resolution,
    /// The resolve succeeded but no live stream could be built from it.
    StreamInit,
}

/// Why a queue operation did nothing.
#[derive(Clone, Copy, Debug, PartialEq, Eq, Structural)]
pub enum QueueError {
    /// The guild has no connected session.
    NoSession,
    /// The queue does not hold enough entries for the operation: clearing
    /// and shuffling need a pending suffix, skipping needs a head.
    Empty,
}

/// Why a play request enqueued nothing.
#[derive(Clone, Copy, Debug, PartialEq, Eq, Structural)]
pub enum PlayError {
    /// A join was needed first and was refused or failed.
    Join(JoinError),
    /// No connected session existed when the entry was to be enqueued.
    NotConnected,
}

} // verus!
