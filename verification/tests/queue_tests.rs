use sgrbot::models::{QueuedTrack, Source, Track, TrackUserData};
use sgrbot::queue::{Queue, QueueError};

fn queued(id: &str) -> QueuedTrack {
    QueuedTrack {
        track: Track {
            encoded: format!("encoded-{id}"),
            identifier: id.to_string(),
            title: format!("Title {id}"),
            author: "Someone".to_string(),
            source: Source::Other,
            uri: None,
            artwork_url: None,
            length: 1000,
            is_stream: false,
        },
        user_data: TrackUserData {
            requester_name: "alice".to_string(),
            requester_avatar_url: "http://avatar/alice".to_string(),
            request_timestamp: 1_700_000_000_000,
        },
    }
}

fn identifiers(queue: &Queue) -> Vec<String> {
    let mut ids = Vec::new();
    let mut i = 0;
    while let Some(entry) = queue.get_track(i) {
        ids.push(entry.track.identifier.clone());
        i += 1;
    }
    ids
}

fn abc() -> Queue {
    let mut queue = Queue::new();
    queue.append(vec![queued("A"), queued("B"), queued("C")]);
    queue
}

#[test]
fn new_queue_is_empty() {
    let queue = Queue::new();
    assert_eq!(queue.get_count(), 0);
    assert!(queue.is_empty());
    assert!(queue.get_track(0).is_none());
}

#[test]
fn append_keeps_insertion_order() {
    let mut queue = Queue::new();
    queue.append(vec![queued("A"), queued("B")]);
    queue.append(vec![]);
    queue.push(queued("C"));
    queue.append(vec![queued("D"), queued("E")]);
    assert_eq!(identifiers(&queue), vec!["A", "B", "C", "D", "E"]);
    assert_eq!(queue.get_count(), 5);
    assert!(!queue.is_empty());
}

#[test]
fn remove_excises_one_and_shifts_the_rest() {
    let mut queue = abc();
    let removed = queue.remove(2);
    assert_eq!(removed, Ok(queued("B")));
    assert_eq!(identifiers(&queue), vec!["A", "C"]);
    assert_eq!(queue.get_count(), 2);
}

#[test]
fn remove_out_of_range_leaves_the_queue_alone() {
    let mut queue = abc();
    assert_eq!(queue.remove(5), Err(QueueError::OutOfRange { track_number: 5, count: 3 }));
    assert_eq!(queue.remove(0), Err(QueueError::OutOfRange { track_number: 0, count: 3 }));
    assert_eq!(queue.remove(4), Err(QueueError::OutOfRange { track_number: 4, count: 3 }));
    assert_eq!(identifiers(&queue), vec!["A", "B", "C"]);
}

#[test]
fn remove_first_and_last() {
    let mut queue = abc();
    assert_eq!(queue.remove(3), Ok(queued("C")));
    assert_eq!(queue.remove(1), Ok(queued("A")));
    assert_eq!(identifiers(&queue), vec!["B"]);
}

#[test]
fn remove_from_empty_queue_fails() {
    let mut queue = Queue::new();
    assert_eq!(queue.remove(1), Err(QueueError::OutOfRange { track_number: 1, count: 0 }));
}

#[test]
fn get_counts_from_one() {
    let queue = abc();
    assert_eq!(queue.get(1), Ok(&queued("A")));
    assert_eq!(queue.get(3), Ok(&queued("C")));
    assert_eq!(queue.get(0), Err(QueueError::OutOfRange { track_number: 0, count: 3 }));
    assert_eq!(queue.get(4), Err(QueueError::OutOfRange { track_number: 4, count: 3 }));
    assert_eq!(queue.get(usize::MAX), Err(QueueError::OutOfRange { track_number: usize::MAX, count: 3 }));
    assert_eq!(queue.get_count(), 3);
}

#[test]
fn get_track_counts_from_zero() {
    let queue = abc();
    assert_eq!(queue.get_track(0), Some(&queued("A")));
    assert_eq!(queue.get_track(2), Some(&queued("C")));
    assert_eq!(queue.get_track(3), None);
}

#[test]
fn pop_front_takes_the_oldest() {
    let mut queue = abc();
    assert_eq!(queue.pop_front(), Some(queued("A")));
    assert_eq!(identifiers(&queue), vec!["B", "C"]);
    assert_eq!(queue.pop_front(), Some(queued("B")));
    assert_eq!(queue.pop_front(), Some(queued("C")));
    assert_eq!(queue.pop_front(), None);
    assert!(queue.is_empty());
}

#[test]
fn clear_empties_the_queue() {
    let mut queue = abc();
    queue.clear();
    assert_eq!(queue.get_count(), 0);
    queue.push(queued("D"));
    assert_eq!(identifiers(&queue), vec!["D"]);
}
