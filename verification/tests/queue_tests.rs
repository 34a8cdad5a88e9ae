use playqueue::queue::{LoopMode, QueueError, TracksQueue};
use playqueue::track::Track;

fn track(handle: &str, target: u64) -> Track {
    Track::new(
        handle.to_owned(),
        Some(format!("title of {}", handle)),
        Some(format!("author of {}", handle)),
        format!("https://example.invalid/{}", handle),
        1000,
        target,
    )
}

#[test]
fn push_grows_len_and_keeps_head() {
    let mut q = TracksQueue::new();
    assert_eq!(q.len(), 0);
    assert!(q.is_empty());
    for i in 0..5u64 {
        q.push(track(&format!("t{}", i), i));
        assert_eq!(q.len(), (i + 1) as usize);
    }
    // peek is an idempotent read: the first-pushed track, unchanged
    for _ in 0..3 {
        let head = q.peek().unwrap();
        assert_eq!(head.playable_handle, "t0");
        assert_eq!(head.notify_target, 0);
        assert_eq!(head.title.as_deref(), Some("title of t0"));
    }
    assert_eq!(q.len(), 5);
}

#[test]
fn pop_returns_peeked_head_and_preserves_order() {
    let mut q = TracksQueue::new();
    q.push(track("a", 1));
    q.push(track("b", 2));
    q.push(track("c", 3));
    let peeked = q.peek().unwrap();
    let popped = q.pop().unwrap();
    assert_eq!(peeked.playable_handle, popped.playable_handle);
    assert_eq!(popped.playable_handle, "a");
    assert_eq!(q.len(), 2);
    let rest = q.current_queue();
    let handles: Vec<&str> = rest.iter().map(|t| t.playable_handle.as_str()).collect();
    assert_eq!(handles, vec!["b", "c"]);
}

#[test]
fn pop_and_peek_on_empty_fail_and_leave_queue_unchanged() {
    let mut q = TracksQueue::new();
    assert!(matches!(q.pop(), Err(QueueError::EmptyQueue)));
    assert!(matches!(q.peek(), Err(QueueError::EmptyQueue)));
    assert_eq!(q.len(), 0);
    assert_eq!(q.loop_mode(), LoopMode::NoLoop);
    // the queue still works normally afterwards
    q.push(track("a", 1));
    assert_eq!(q.pop().unwrap().playable_handle, "a");
}

#[test]
fn draining_pops_remove_each_track_exactly_once() {
    let n = 16u64;
    let mut q = TracksQueue::new();
    for i in 0..n {
        q.push(track(&format!("t{}", i), i));
    }
    let mut seen = Vec::new();
    for _ in 0..n {
        let t = q.pop().unwrap();
        assert!(!seen.contains(&t.playable_handle), "duplicate removal");
        seen.push(t.playable_handle);
    }
    assert!(q.is_empty());
    assert!(matches!(q.pop(), Err(QueueError::EmptyQueue)));
    for i in 0..n {
        assert_eq!(seen[i as usize], format!("t{}", i));
    }
}

#[test]
fn clear_empties_but_keeps_loop_mode() {
    let mut q = TracksQueue::new();
    q.push(track("a", 1));
    q.push(track("b", 2));
    q.set_loop_mode(LoopMode::LoopQueue);
    q.clear();
    assert!(q.is_empty());
    assert_eq!(q.loop_mode(), LoopMode::LoopQueue);
}

#[test]
fn snapshot_is_independent_of_later_mutations() {
    let mut q = TracksQueue::new();
    q.push(track("a", 1));
    q.push(track("b", 2));
    let snap = q.current_queue();
    q.clear();
    assert_eq!(snap.len(), 2);
    assert_eq!(snap[0].playable_handle, "a");
    assert_eq!(snap[1].playable_handle, "b");
    assert!(q.is_empty());
}

#[test]
fn shuffle_keeps_the_same_tracks() {
    let mut q = TracksQueue::new();
    for i in 0..12u64 {
        q.push(track(&format!("t{}", i), i));
    }
    q.set_loop_mode(LoopMode::LoopTrack);
    for _ in 0..10 {
        q.shuffle();
        assert_eq!(q.len(), 12);
        assert_eq!(q.loop_mode(), LoopMode::LoopTrack);
        let mut handles: Vec<String> = q
            .current_queue()
            .iter()
            .map(|t| t.playable_handle.clone())
            .collect();
        handles.sort();
        let mut expected: Vec<String> = (0..12u64).map(|i| format!("t{}", i)).collect();
        expected.sort();
        assert_eq!(handles, expected);
    }
}

#[test]
fn set_loop_mode_changes_only_the_mode() {
    let mut q = TracksQueue::new();
    q.push(track("a", 1));
    assert_eq!(q.loop_mode(), LoopMode::NoLoop);
    q.set_loop_mode(LoopMode::LoopTrack);
    assert_eq!(q.loop_mode(), LoopMode::LoopTrack);
    assert_eq!(q.len(), 1);
    q.set_loop_mode(LoopMode::NoLoop);
    assert_eq!(q.loop_mode(), LoopMode::NoLoop);
}

#[test]
fn push_all_appends_in_order() {
    let mut q = TracksQueue::new();
    q.push(track("a", 1));
    let more = vec![track("b", 2), track("c", 3)];
    q.push_all(&more);
    let handles: Vec<String> = q
        .current_queue()
        .iter()
        .map(|t| t.playable_handle.clone())
        .collect();
    assert_eq!(handles, vec!["a", "b", "c"]);
}
