//! Queue behaviour: clearing and shuffling touch only the pending suffix.

use musicbot::metadata::Metadata;
use musicbot::queue::{QueueEntry, TrackQueue};

fn meta(title: &str) -> Metadata {
    Metadata {
        title: Some(title.to_string()),
        uploader: None,
        track: None,
        artist: None,
        duration: None,
        thumbnail: None,
        webpage_url: None,
        url: Some(format!("https://cdn.example/{title}")),
    }
}

fn entry(title: &str) -> QueueEntry {
    QueueEntry { metadata: meta(title), context: None }
}

fn filled(titles: &[&str]) -> TrackQueue {
    let mut q = TrackQueue::new();
    for (i, t) in titles.iter().enumerate() {
        let n = q.enqueue(entry(t));
        assert_eq!(n, i + 1);
    }
    q
}

fn titles_of(q: &TrackQueue) -> Vec<String> {
    q.snapshot_pending().into_iter().map(|m| m.title.unwrap()).collect()
}

#[test]
fn enqueue_reports_position() {
    let mut q = TrackQueue::new();
    assert!(q.is_empty());
    assert_eq!(q.enqueue(entry("a")), 1);
    assert_eq!(q.enqueue(entry("b")), 2);
    assert_eq!(q.len(), 2);
    assert_eq!(q.head().unwrap().metadata.title.as_deref(), Some("a"));
}

#[test]
fn clear_pending_keeps_exactly_the_head() {
    let mut q = filled(&["a", "b", "c", "d"]);
    q.clear_pending();
    assert_eq!(q.len(), 1);
    assert_eq!(q.head().unwrap().metadata.title.as_deref(), Some("a"));
    assert!(q.snapshot_pending().is_empty());
}

#[test]
fn shuffle_pending_permutes_and_keeps_head() {
    let names = ["a", "b", "c", "d", "e", "f", "g", "h"];
    let mut q = filled(&names);
    let before = titles_of(&q);
    q.shuffle_pending();
    assert_eq!(q.len(), names.len());
    assert_eq!(q.head().unwrap().metadata.title.as_deref(), Some("a"));
    let mut after = titles_of(&q);
    let mut sorted_before = before.clone();
    sorted_before.sort();
    after.sort();
    assert_eq!(after, sorted_before);
}

#[test]
fn shuffle_of_single_pending_entry_keeps_it() {
    let mut q = filled(&["head", "only"]);
    q.shuffle_pending();
    assert_eq!(titles_of(&q), vec!["only".to_string()]);
}

#[test]
fn advance_drops_the_head_only() {
    let mut q = filled(&["a", "b", "c"]);
    q.advance();
    assert_eq!(q.len(), 2);
    assert_eq!(q.head().unwrap().metadata.title.as_deref(), Some("b"));
}

#[test]
fn snapshot_excludes_the_head_and_keeps_order() {
    let q = filled(&["a", "b", "c"]);
    assert_eq!(titles_of(&q), vec!["b".to_string(), "c".to_string()]);
}
