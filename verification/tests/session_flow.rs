//! Session lifecycle: one session per guild, the join flow, queue commands
//! routed by guild, and the lifecycle notifiers' decisions.

use musicbot::errors::{JoinError, LeaveError, PlayError, QueueError};
use musicbot::metadata::Metadata;
use musicbot::queue::QueueEntry;
use musicbot::registry::SessionRegistry;
use musicbot::session::{get_channel_to_join, SessionState, TrackEndOutcome};

const G1: u64 = 11;
const G2: u64 = 22;
const C1: u64 = 7;
const C2: u64 = 8;

fn meta(title: &str) -> Metadata {
    Metadata {
        title: Some(title.to_string()),
        uploader: None,
        track: None,
        artist: None,
        duration: None,
        thumbnail: None,
        webpage_url: None,
        url: Some(format!("https://cdn.example/{title}")),
    }
}

fn entry(title: &str) -> QueueEntry {
    QueueEntry { metadata: meta(title), context: None }
}

fn entry_for(title: &str, interaction: u64) -> QueueEntry {
    QueueEntry { metadata: meta(title), context: Some(interaction) }
}

fn connected_with(reg: &mut SessionRegistry, guild: u64, channel: u64, titles: &[&str]) {
    assert!(reg.join(guild, Some(channel), true).is_ok());
    for t in titles {
        reg.enqueue(guild, entry(t)).unwrap();
    }
}

#[test]
fn get_or_create_creates_at_most_one_session() {
    let mut reg = SessionRegistry::new();
    assert!(reg.get_or_create(G1, C1));
    // A second request for the same guild: nothing created, no second join,
    // and the caller observes the session the first request made.
    assert!(!reg.get_or_create(G1, C2));
    let s = reg.get(G1).unwrap();
    assert_eq!(s.channel_id, C1);
    assert_eq!(s.state, SessionState::Connecting);
}

#[test]
fn join_requires_a_user_channel_when_disconnected() {
    let mut reg = SessionRegistry::new();
    assert_eq!(reg.join(G1, None, true), Err(JoinError::UserNotInVoiceChannel));
    assert!(reg.get(G1).is_none());
}

#[test]
fn failed_transport_join_leaves_no_session() {
    let mut reg = SessionRegistry::new();
    assert_eq!(reg.join(G1, Some(C1), false), Err(JoinError::TransportFailed));
    assert!(reg.get(G1).is_none());
}

#[test]
fn join_is_a_noop_when_already_connected() {
    let mut reg = SessionRegistry::new();
    assert!(reg.join(G1, Some(C1), true).is_ok());
    // Another join, even towards another channel, succeeds without moving.
    assert!(reg.join(G1, Some(C2), true).is_ok());
    assert_eq!(reg.get(G1).unwrap().channel_id, C1);
}

#[test]
fn change_channel_moves_a_connected_session() {
    let mut reg = SessionRegistry::new();
    assert_eq!(
        reg.change_channel(G1, Some(C2), true),
        Err(JoinError::NotConnected)
    );
    connected_with(&mut reg, G1, C1, &[]);
    assert_eq!(reg.change_channel(G1, None, true), Err(JoinError::UserNotInVoiceChannel));
    assert_eq!(
        reg.change_channel(G1, Some(C2), false),
        Err(JoinError::TransportFailed)
    );
    assert_eq!(reg.get(G1).unwrap().channel_id, C1);
    assert_eq!(reg.change_channel(G1, Some(C2), true), Ok(()));
    assert_eq!(reg.get(G1).unwrap().channel_id, C2);
}

#[test]
fn leave_requires_an_active_session() {
    let mut reg = SessionRegistry::new();
    assert_eq!(reg.leave(G1), Err(LeaveError::NoActiveSession));
    connected_with(&mut reg, G1, C1, &[]);
    assert_eq!(reg.leave(G1), Ok(()));
    assert!(reg.get(G1).is_none());
}

#[test]
fn enqueue_needs_a_connected_session() {
    let mut reg = SessionRegistry::new();
    assert!(matches!(reg.enqueue(G1, entry("a")), Err(PlayError::NotConnected)));
    connected_with(&mut reg, G1, C1, &[]);
    assert_eq!(reg.enqueue(G1, entry("a")).unwrap(), 1);
    assert_eq!(reg.enqueue(G1, entry("b")).unwrap(), 2);
}

#[test]
fn queue_commands_report_missing_sessions_and_emptiness() {
    let mut reg = SessionRegistry::new();
    assert_eq!(reg.skip(G1), Err(QueueError::NoSession));
    assert_eq!(reg.clear(G1), Err(QueueError::NoSession));
    assert_eq!(reg.shuffle(G1), Err(QueueError::NoSession));
    assert!(matches!(reg.list_pending(G1), Err(QueueError::NoSession)));

    connected_with(&mut reg, G1, C1, &[]);
    assert_eq!(reg.skip(G1), Err(QueueError::Empty));

    // One playing entry counts as empty for clearing, shuffling and listing,
    // but not for skipping.
    reg.enqueue(G1, entry("a")).unwrap();
    assert_eq!(reg.clear(G1), Err(QueueError::Empty));
    assert_eq!(reg.shuffle(G1), Err(QueueError::Empty));
    assert!(matches!(reg.list_pending(G1), Err(QueueError::Empty)));
    assert_eq!(reg.skip(G1), Ok(()));
}

#[test]
fn clear_keeps_only_the_playing_head() {
    let mut reg = SessionRegistry::new();
    connected_with(&mut reg, G1, C1, &["a", "b", "c"]);
    assert_eq!(reg.clear(G1), Ok(()));
    let s = reg.get(G1).unwrap();
    assert_eq!(s.queue.len(), 1);
    assert_eq!(s.queue.head().unwrap().metadata.title.as_deref(), Some("a"));
}

#[test]
fn shuffle_keeps_head_and_pending_multiset() {
    let mut reg = SessionRegistry::new();
    connected_with(&mut reg, G1, C1, &["a", "b", "c", "d", "e"]);
    assert_eq!(reg.shuffle(G1), Ok(()));
    let s = reg.get(G1).unwrap();
    assert_eq!(s.queue.len(), 5);
    assert_eq!(s.queue.head().unwrap().metadata.title.as_deref(), Some("a"));
    let mut pending: Vec<String> =
        s.queue.snapshot_pending().into_iter().map(|m| m.title.unwrap()).collect();
    pending.sort();
    assert_eq!(pending, vec!["b".to_string(), "c".to_string(), "d".to_string(), "e".to_string()]);
}

#[test]
fn list_pending_shows_everything_behind_the_head() {
    let mut reg = SessionRegistry::new();
    connected_with(&mut reg, G1, C1, &["a", "b", "c"]);
    let listed: Vec<String> =
        reg.list_pending(G1).unwrap().into_iter().map(|m| m.title.unwrap()).collect();
    assert_eq!(listed, vec!["b".to_string(), "c".to_string()]);
}

#[test]
fn track_start_follows_up_only_with_a_context() {
    let mut reg = SessionRegistry::new();
    connected_with(&mut reg, G1, C1, &[]);
    assert!(reg.on_track_start(G1).is_none());
    reg.enqueue(G1, entry_for("a", 901)).unwrap();
    reg.enqueue(G1, entry("b")).unwrap();
    let f = reg.on_track_start(G1).unwrap();
    assert_eq!(f.context, 901);
    assert_eq!(f.metadata.title.as_deref(), Some("a"));
    assert_eq!(f.pending, 1);
}

#[test]
fn track_start_is_silent_for_auto_joined_entries() {
    let mut reg = SessionRegistry::new();
    connected_with(&mut reg, G1, C1, &["a"]);
    assert!(reg.on_track_start(G1).is_none());
}

#[test]
fn auto_leave_fires_when_the_last_track_ends() {
    let mut reg = SessionRegistry::new();
    connected_with(&mut reg, G1, C1, &["only"]);
    assert_eq!(reg.on_track_end(G1), TrackEndOutcome::AutoLeave);
    assert!(reg.get(G1).is_none());
    assert_eq!(reg.on_track_end(G1), TrackEndOutcome::NoSession);
}

#[test]
fn track_end_advances_while_entries_remain() {
    let mut reg = SessionRegistry::new();
    connected_with(&mut reg, G1, C1, &["a", "b"]);
    assert_eq!(reg.on_track_end(G1), TrackEndOutcome::Advanced);
    let s = reg.get(G1).unwrap();
    assert_eq!(s.queue.head().unwrap().metadata.title.as_deref(), Some("b"));
}

#[test]
fn driver_disconnect_removes_the_session_without_a_leave() {
    let mut reg = SessionRegistry::new();
    connected_with(&mut reg, G1, C1, &["a", "b"]);
    connected_with(&mut reg, G2, C2, &["x"]);
    reg.on_driver_disconnect(G1);
    assert!(reg.get(G1).is_none());
    // The other guild's session is untouched.
    assert_eq!(reg.get(G2).unwrap().queue.len(), 1);
}

#[test]
fn channel_to_join_prefers_the_existing_connection() {
    assert_eq!(get_channel_to_join(Some(C1), Some(C2)), Ok(None));
    assert_eq!(get_channel_to_join(Some(C1), None), Ok(None));
    assert_eq!(get_channel_to_join(None, Some(C2)), Ok(Some(C2)));
    assert_eq!(get_channel_to_join(None, None), Err(JoinError::UserNotInVoiceChannel));
}

#[test]
fn play_scenario_runs_a_whole_session() {
    let mut reg = SessionRegistry::new();

    // First play on an empty, disconnected guild with the user in a channel:
    // the session comes up connected, the entry is the head, and the join
    // went to the user's channel.
    let report = reg
        .enqueue_and_maybe_play(G1, entry_for("trackA", 1), Some(C1), true)
        .unwrap();
    assert_eq!(report.position, 1);
    assert_eq!(report.join_issued, Some(C1));
    let s = reg.get(G1).unwrap();
    assert_eq!(s.state, SessionState::Connected);
    assert_eq!(s.channel_id, C1);
    assert_eq!(s.queue.len(), 1);

    // A second play while trackA plays: queued behind it, no second join.
    let report = reg
        .enqueue_and_maybe_play(G1, entry_for("trackB", 2), Some(C1), true)
        .unwrap();
    assert_eq!(report.position, 2);
    assert_eq!(report.join_issued, None);
    assert_eq!(reg.get(G1).unwrap().queue.len(), 2);

    // Skip: the transport stops trackA and reports its end; trackB becomes
    // the head and its track-start event owes interaction 2 a follow-up.
    assert_eq!(reg.skip(G1), Ok(()));
    assert_eq!(reg.on_track_end(G1), TrackEndOutcome::Advanced);
    let f = reg.on_track_start(G1).unwrap();
    assert_eq!(f.context, 2);
    assert_eq!(f.metadata.title.as_deref(), Some("trackB"));
    assert_eq!(f.pending, 0);

    // Skip again: the queue empties and auto-leave destroys the session.
    assert_eq!(reg.skip(G1), Ok(()));
    assert_eq!(reg.on_track_end(G1), TrackEndOutcome::AutoLeave);
    assert!(reg.get(G1).is_none());
}

#[test]
fn play_errors_mirror_the_join_rules() {
    let mut reg = SessionRegistry::new();
    assert!(matches!(
        reg.enqueue_and_maybe_play(G1, entry("a"), None, true),
        Err(PlayError::Join(JoinError::UserNotInVoiceChannel))
    ));
    assert!(matches!(
        reg.enqueue_and_maybe_play(G1, entry("a"), Some(C1), false),
        Err(PlayError::Join(JoinError::TransportFailed))
    ));
    assert!(reg.get(G1).is_none());
}

#[test]
fn guilds_are_isolated_from_each_other() {
    let mut reg = SessionRegistry::new();
    connected_with(&mut reg, G1, C1, &["a", "b"]);
    connected_with(&mut reg, G2, C2, &["x", "y", "z"]);
    assert_eq!(reg.clear(G1), Ok(()));
    assert_eq!(reg.get(G1).unwrap().queue.len(), 1);
    assert_eq!(reg.get(G2).unwrap().queue.len(), 3);
    assert_eq!(reg.leave(G2), Ok(()));
    assert!(reg.get(G1).is_some());
}
