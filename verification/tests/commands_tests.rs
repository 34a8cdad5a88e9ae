use playqueue::commands::{
    build_search_query, enqueue_playlist, enqueue_track, num_pages, page_bounds,
    parse_command_name, parse_loop_mode, peek_current, queue_snapshot, remaining_ms,
    set_loop_mode, shuffle, skip, stop, CommandKind,
};
use playqueue::queue::{LoopMode, QueueError};
use playqueue::registry::Registry;
use playqueue::track::Track;

fn track(handle: &str, target: u64) -> Track {
    Track::new(
        handle.to_owned(),
        Some(format!("title of {}", handle)),
        None,
        format!("https://example.invalid/{}", handle),
        1000,
        target,
    )
}

#[test]
fn enqueue_track_registers_a_queue_on_first_use() {
    let mut reg = Registry::new();
    assert!(!reg.has_queue(4));
    enqueue_track(&mut reg, 4, track("a", 1));
    assert!(reg.has_queue(4));
    let q = reg.get_queue(4).unwrap();
    assert_eq!(q.len(), 1);
    assert_eq!(q.loop_mode(), LoopMode::NoLoop);
}

#[test]
fn enqueue_playlist_returns_the_resulting_head() {
    let mut reg = Registry::new();
    enqueue_track(&mut reg, 4, track("a", 1));
    let list = vec![track("b", 2), track("c", 3)];
    let head = enqueue_playlist(&mut reg, 4, &list).unwrap();
    // the play command targets the head of the resulting queue, which is
    // the track that was already queued first
    assert_eq!(head.playable_handle, "a");
    let q = reg.get_queue(4).unwrap();
    assert_eq!(q.len(), 3);
}

#[test]
fn enqueue_empty_playlist_into_nothing_reports_empty_queue() {
    let mut reg = Registry::new();
    let empty: Vec<Track> = Vec::new();
    let r = enqueue_playlist(&mut reg, 4, &empty);
    assert!(matches!(r, Err(QueueError::EmptyQueue)));
    // the queue itself was still registered
    assert!(reg.has_queue(4));
}

#[test]
fn skip_rules() {
    let mut reg = Registry::new();
    assert!(matches!(skip(&reg, 4), Err(QueueError::NoQueueFound(4))));
    let _ = reg.get_or_create_queue(4);
    assert!(matches!(skip(&reg, 4), Err(QueueError::EmptyQueue)));
    enqueue_track(&mut reg, 4, track("a", 1));
    assert!(skip(&reg, 4).is_ok());
}

#[test]
fn stop_clears_but_keeps_loop_mode() {
    let mut reg = Registry::new();
    assert!(matches!(stop(&mut reg, 4), Err(QueueError::NoQueueFound(4))));
    enqueue_track(&mut reg, 4, track("a", 1));
    enqueue_track(&mut reg, 4, track("b", 2));
    set_loop_mode(&mut reg, 4, LoopMode::LoopQueue).unwrap();
    stop(&mut reg, 4).unwrap();
    let q = reg.get_queue(4).unwrap();
    assert!(q.is_empty());
    assert_eq!(q.loop_mode(), LoopMode::LoopQueue);
}

#[test]
fn shuffle_command_rules() {
    let mut reg = Registry::new();
    assert!(matches!(
        shuffle(&mut reg, 4),
        Err(QueueError::NoQueueFound(4))
    ));
    let _ = reg.get_or_create_queue(4);
    assert!(matches!(shuffle(&mut reg, 4), Err(QueueError::EmptyQueue)));
    for i in 0..8u64 {
        enqueue_track(&mut reg, 4, track(&format!("t{}", i), i));
    }
    shuffle(&mut reg, 4).unwrap();
    let mut handles: Vec<String> = queue_snapshot(&reg, 4)
        .unwrap()
        .iter()
        .map(|t| t.playable_handle.clone())
        .collect();
    handles.sort();
    let mut expected: Vec<String> = (0..8u64).map(|i| format!("t{}", i)).collect();
    expected.sort();
    assert_eq!(handles, expected);
}

#[test]
fn set_loop_mode_rules() {
    let mut reg = Registry::new();
    assert!(matches!(
        set_loop_mode(&mut reg, 4, LoopMode::LoopTrack),
        Err(QueueError::NoQueueFound(4))
    ));
    enqueue_track(&mut reg, 4, track("a", 1));
    set_loop_mode(&mut reg, 4, LoopMode::LoopTrack).unwrap();
    let q = reg.get_queue(4).unwrap();
    assert_eq!(q.loop_mode(), LoopMode::LoopTrack);
    assert_eq!(q.len(), 1);
}

#[test]
fn parse_loop_mode_accepts_the_three_names_only() {
    assert_eq!(parse_loop_mode("none"), Some(LoopMode::NoLoop));
    assert_eq!(parse_loop_mode("queue"), Some(LoopMode::LoopQueue));
    assert_eq!(parse_loop_mode("track"), Some(LoopMode::LoopTrack));
    assert_eq!(parse_loop_mode("something"), None);
    assert_eq!(parse_loop_mode(""), None);
    assert_eq!(parse_loop_mode("Queue"), None);
}

#[test]
fn peek_current_rules() {
    let mut reg = Registry::new();
    assert!(matches!(
        peek_current(&reg, 4),
        Err(QueueError::NoQueueFound(4))
    ));
    let _ = reg.get_or_create_queue(4);
    assert!(matches!(peek_current(&reg, 4), Err(QueueError::EmptyQueue)));
    enqueue_track(&mut reg, 4, track("a", 1));
    enqueue_track(&mut reg, 4, track("b", 2));
    assert_eq!(peek_current(&reg, 4).unwrap().playable_handle, "a");
}

#[test]
fn queue_snapshot_rules() {
    let mut reg = Registry::new();
    assert!(matches!(
        queue_snapshot(&reg, 4),
        Err(QueueError::NoQueueFound(4))
    ));
    enqueue_track(&mut reg, 4, track("a", 1));
    let snap = queue_snapshot(&reg, 4).unwrap();
    assert_eq!(snap.len(), 1);
    assert_eq!(snap[0].playable_handle, "a");
}

#[test]
fn page_arithmetic() {
    assert_eq!(num_pages(0), 0);
    assert_eq!(num_pages(1), 1);
    assert_eq!(num_pages(10), 1);
    assert_eq!(num_pages(11), 2);
    assert_eq!(num_pages(25), 3);

    assert_eq!(page_bounds(0, 1), None);
    assert_eq!(page_bounds(25, 0), None);
    assert_eq!(page_bounds(25, 1), Some((0, 10)));
    assert_eq!(page_bounds(25, 2), Some((10, 20)));
    assert_eq!(page_bounds(25, 3), Some((20, 25)));
    assert_eq!(page_bounds(25, 4), None);
    assert_eq!(page_bounds(10, 1), Some((0, 10)));
    assert_eq!(page_bounds(10, 2), None);
}

#[test]
fn remaining_time_is_floored_at_zero() {
    assert_eq!(remaining_ms(90000, 30000), 60000);
    assert_eq!(remaining_ms(90000, 90000), 0);
    assert_eq!(remaining_ms(30000, 90000), 0);
}

#[test]
fn command_names_resolve_to_their_commands() {
    assert_eq!(parse_command_name("join"), Some(CommandKind::Join));
    assert_eq!(parse_command_name("leave"), Some(CommandKind::Leave));
    assert_eq!(parse_command_name("play"), Some(CommandKind::Play));
    assert_eq!(parse_command_name("pause"), Some(CommandKind::Pause));
    assert_eq!(parse_command_name("resume"), Some(CommandKind::Resume));
    assert_eq!(parse_command_name("stop"), Some(CommandKind::Stop));
    assert_eq!(parse_command_name("skip"), Some(CommandKind::Skip));
    assert_eq!(parse_command_name("shuffle"), Some(CommandKind::Shuffle));
    assert_eq!(parse_command_name("queue"), Some(CommandKind::ShowQueue));
    assert_eq!(parse_command_name("np"), Some(CommandKind::NowPlaying));
    assert_eq!(parse_command_name("loop"), Some(CommandKind::SetLoopMode));
    assert_eq!(parse_command_name("banana"), None);
    assert_eq!(parse_command_name(""), None);
}

#[test]
fn search_queries_keep_links_and_prefix_text() {
    assert_eq!(
        build_search_query("https://example.invalid/v"),
        "https://example.invalid/v"
    );
    assert_eq!(build_search_query("http"), "http");
    assert_eq!(build_search_query("never gonna"), "ytsearch:never gonna");
    assert_eq!(build_search_query("htt"), "ytsearch:htt");
    assert_eq!(build_search_query(""), "ytsearch:");
}
