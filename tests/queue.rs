use voice_queue::{CoreError, PlayState, SongMetadata, TrackQueue};

fn meta(title: &str) -> SongMetadata {
    SongMetadata {
        title: title.to_string(),
        duration: 0,
        user: "ana".to_string(),
        thumbnail: None,
    }
}

fn titles(q: &TrackQueue) -> Vec<String> {
    (0..q.len()).map(|i| q.get(i).unwrap().metadata.title.clone()).collect()
}

fn states(q: &TrackQueue) -> Vec<PlayState> {
    (0..q.len()).map(|i| q.get(i).unwrap().state).collect()
}

fn abc() -> TrackQueue {
    let mut q = TrackQueue::new();
    assert_eq!(q.enqueue(1, meta("A")), 1);
    assert_eq!(q.enqueue(2, meta("B")), 2);
    assert_eq!(q.enqueue(3, meta("C")), 3);
    q
}

#[test]
fn enqueue_first_track_plays() {
    let q = abc();
    assert_eq!(
        states(&q),
        vec![PlayState::Playing, PlayState::Queued, PlayState::Queued]
    );
}

#[test]
fn skip_middle_then_head_end_to_end() {
    let mut q = abc();
    let out = q.skip_range(1, 1).unwrap();
    assert_eq!(titles(&q), vec!["A", "C"]);
    assert_eq!(states(&q), vec![PlayState::Playing, PlayState::Queued]);
    assert_eq!(out.removed, vec![2]);
    assert_eq!(out.started, None);

    let out = q.skip_range(0, 0).unwrap();
    assert_eq!(titles(&q), vec!["C"]);
    assert_eq!(states(&q), vec![PlayState::Playing]);
    assert_eq!(out.removed, vec![1]);
    assert_eq!(out.started, Some(3));
}

#[test]
fn skip_head_starts_next_even_when_paused() {
    let mut q = abc();
    q.pause();
    assert_eq!(q.get(0).unwrap().state, PlayState::Paused);
    let out = q.skip_range(0, 0).unwrap();
    assert_eq!(titles(&q), vec!["B", "C"]);
    assert_eq!(q.get(0).unwrap().state, PlayState::Playing);
    assert_eq!(out.started, Some(2));
}

#[test]
fn skip_last_track_leaves_empty_queue() {
    let mut q = TrackQueue::new();
    q.enqueue(7, meta("only"));
    let out = q.skip_range(0, 0).unwrap();
    assert_eq!(q.len(), 0);
    assert_eq!(out.started, None);
    assert_eq!(out.removed, vec![7]);
}

#[test]
fn skip_range_end_before_start_is_invalid() {
    let mut q = abc();
    assert_eq!(q.skip_range(2, 1).unwrap_err(), CoreError::InvalidRange);
    assert_eq!(titles(&q), vec!["A", "B", "C"]);
    assert_eq!(
        states(&q),
        vec![PlayState::Playing, PlayState::Queued, PlayState::Queued]
    );
}

#[test]
fn skip_range_start_past_end_is_invalid() {
    let mut q = abc();
    assert_eq!(q.skip_range(3, 10).unwrap_err(), CoreError::InvalidRange);
    assert_eq!(titles(&q), vec!["A", "B", "C"]);
}

#[test]
fn skip_range_on_empty_queue_is_invalid() {
    let mut q = TrackQueue::new();
    assert_eq!(q.skip_range(0, 0).unwrap_err(), CoreError::InvalidRange);
    assert_eq!(q.len(), 0);
}

#[test]
fn skip_range_clamps_end_and_clears_all() {
    let mut q = abc();
    let out = q.skip_range(0, usize::MAX).unwrap();
    assert_eq!(q.len(), 0);
    assert_eq!(out.first, 0);
    assert_eq!(out.last, 2);
    assert_eq!(out.removed, vec![1, 2, 3]);
    assert_eq!(out.started, None);
}

#[test]
fn skip_range_removes_contiguous_batch() {
    let mut q = abc();
    q.enqueue(4, meta("D"));
    q.enqueue(5, meta("E"));
    let out = q.skip_range(1, 3).unwrap();
    assert_eq!(titles(&q), vec!["A", "E"]);
    assert_eq!(out.removed, vec![2, 3, 4]);
    assert_eq!(q.get(0).unwrap().state, PlayState::Playing);
}

#[test]
fn pause_twice_keeps_one_paused() {
    let mut q = abc();
    q.pause();
    q.pause();
    assert_eq!(
        states(&q),
        vec![PlayState::Paused, PlayState::Queued, PlayState::Queued]
    );
}

#[test]
fn resume_twice_keeps_one_playing() {
    let mut q = abc();
    q.pause();
    q.resume();
    q.resume();
    assert_eq!(
        states(&q),
        vec![PlayState::Playing, PlayState::Queued, PlayState::Queued]
    );
}

#[test]
fn pause_on_empty_queue_is_noop() {
    let mut q = TrackQueue::new();
    q.pause();
    q.resume();
    assert_eq!(q.len(), 0);
}

#[test]
fn list_empty_queue_fails() {
    let q = TrackQueue::new();
    assert_eq!(q.list_page(0).unwrap_err(), CoreError::EmptyQueue);
}

#[test]
fn list_pages_of_ten() {
    let mut q = TrackQueue::new();
    for i in 0..25u64 {
        q.enqueue(i, meta(&format!("t{}", i)));
    }
    let first_page = q.list_page(0).unwrap();
    assert_eq!(first_page.len(), 10);
    assert_eq!(first_page[0].position, 1);
    assert_eq!(first_page[0].title, "t0");
    assert_eq!(first_page[9].position, 10);
    let third_page = q.list_page(2).unwrap();
    assert_eq!(third_page.len(), 5);
    assert_eq!(third_page[0].position, 21);
    assert_eq!(third_page[4].title, "t24");
    assert!(q.list_page(3).unwrap().is_empty());
    assert!(q.list_page(usize::MAX).unwrap().is_empty());
}

#[test]
fn list_is_read_only() {
    let q = abc();
    let a = q.list_page(0).unwrap();
    let b = q.list_page(0).unwrap();
    assert_eq!(a.len(), 3);
    assert_eq!(b.len(), 3);
    assert_eq!(a[1].title, b[1].title);
    assert_eq!(titles(&q), vec!["A", "B", "C"]);
    assert_eq!(
        states(&q),
        vec![PlayState::Playing, PlayState::Queued, PlayState::Queued]
    );
}

#[test]
fn finish_current_advances() {
    let mut q = abc();
    assert_eq!(q.finish_current(9), None);
    assert_eq!(q.len(), 3);
    assert_eq!(q.finish_current(1), Some(2));
    assert_eq!(titles(&q), vec!["B", "C"]);
    assert_eq!(q.get(0).unwrap().state, PlayState::Playing);
    let mut empty = TrackQueue::new();
    assert_eq!(empty.finish_current(1), None);
}

#[test]
fn at_most_one_playing_after_mixed_operations() {
    let mut q = abc();
    q.enqueue(4, meta("D"));
    q.skip_range(1, 2).unwrap();
    q.pause();
    q.resume();
    q.finish_current(1);
    q.enqueue(5, meta("E"));
    let playing = states(&q)
        .into_iter()
        .filter(|s| *s == PlayState::Playing)
        .count();
    assert_eq!(playing, 1);
}
