use voice_queue::{
    choice_line, choice_prompt, join_lines, CoreError, PipedError, SearchResult, SearchResults,
    SelectionEvent, SelectionSession, SelectionStep,
};

fn results(n: usize) -> SearchResults {
    SearchResults {
        items: (0..n)
            .map(|i| SearchResult {
                url: format!("/watch?v={}", i),
                duration: 60 * (i as u64 + 1),
                title: format!("song {}", i),
            })
            .collect(),
    }
}

fn pick(id: &str, token: u64, at: u64) -> SelectionEvent {
    SelectionEvent::Selected {
        custom_id: id.to_string(),
        token,
        at,
    }
}

#[test]
fn failed_search_is_unavailable() {
    let r = SelectionSession::open(Err(PipedError::Request), 1, 0, 10);
    assert_eq!(r.unwrap_err(), CoreError::SearchUnavailable);
    let r = SelectionSession::open(Err(PipedError::Unknown), 1, 0, 10);
    assert_eq!(r.unwrap_err(), CoreError::SearchUnavailable);
}

#[test]
fn empty_search_has_no_results() {
    let r = SelectionSession::open(Ok(results(0)), 1, 0, 10);
    assert_eq!(r.unwrap_err(), CoreError::NoResults);
}

#[test]
fn candidates_truncated_to_five() {
    let s = SelectionSession::open(Ok(results(8)), 1, 100, 60).unwrap();
    assert_eq!(s.candidates().len(), 5);
    assert_eq!(s.candidates()[4].url, "/watch?v=4");
    assert_eq!(s.expires_at(), 160);
    let s = SelectionSession::open(Ok(results(2)), 1, u64::MAX - 1, 60).unwrap();
    assert_eq!(s.candidates().len(), 2);
    assert_eq!(s.expires_at(), u64::MAX);
}

#[test]
fn matching_selection_is_chosen_once() {
    let mut s = SelectionSession::open(Ok(results(5)), 7, 0, 60).unwrap();
    match s.on_event(pick("/watch?v=2", 7, 10)) {
        SelectionStep::Chosen { video_uri } => {
            assert_eq!(video_uri, "https://www.youtube.com//watch?v=2")
        }
        other => panic!("unexpected {:?}", other),
    }
    assert!(s.is_settled());
    assert!(matches!(
        s.on_event(pick("/watch?v=3", 7, 11)),
        SelectionStep::Closed
    ));
}

#[test]
fn stale_token_is_ignored() {
    let mut s = SelectionSession::open(Ok(results(5)), 7, 0, 60).unwrap();
    assert!(matches!(
        s.on_event(pick("/watch?v=1", 6, 10)),
        SelectionStep::Waiting
    ));
    assert!(!s.is_settled());
    assert!(matches!(
        s.on_event(SelectionEvent::Tick { at: 60 }),
        SelectionStep::Expired
    ));
}

#[test]
fn unknown_candidate_is_ignored() {
    let mut s = SelectionSession::open(Ok(results(5)), 7, 0, 60).unwrap();
    assert!(matches!(
        s.on_event(pick("/watch?v=9", 7, 10)),
        SelectionStep::Waiting
    ));
    assert!(!s.is_settled());
}

#[test]
fn timeout_expires_flow() {
    let mut s = SelectionSession::open(Ok(results(5)), 7, 0, 60).unwrap();
    assert!(matches!(
        s.on_event(SelectionEvent::Tick { at: 59 }),
        SelectionStep::Waiting
    ));
    assert!(matches!(
        s.on_event(SelectionEvent::Tick { at: 60 }),
        SelectionStep::Expired
    ));
    assert!(matches!(
        s.on_event(pick("/watch?v=1", 7, 61)),
        SelectionStep::Closed
    ));
}

#[test]
fn late_selection_expires() {
    let mut s = SelectionSession::open(Ok(results(5)), 7, 0, 60).unwrap();
    assert!(matches!(
        s.on_event(pick("/watch?v=1", 7, 75)),
        SelectionStep::Expired
    ));
}

#[test]
fn choice_line_format() {
    let line = choice_line(2, &"Song".to_string(), &"3m 25s".to_string());
    assert_eq!(line, "2. Song (3m 25s)");
}

#[test]
fn join_lines_with_breaks() {
    assert_eq!(join_lines(&vec![]), "");
    assert_eq!(join_lines(&vec!["a".to_string()]), "a");
    assert_eq!(
        join_lines(&vec!["a".to_string(), "b".to_string(), "c".to_string()]),
        "a\nb\nc"
    );
}

#[test]
fn prompt_lists_candidates_with_durations() {
    let items = vec![
        SearchResult {
            url: "/watch?v=a".to_string(),
            duration: 205,
            title: "First".to_string(),
        },
        SearchResult {
            url: "/watch?v=b".to_string(),
            duration: 0,
            title: "Second".to_string(),
        },
        SearchResult {
            url: "/watch?v=c".to_string(),
            duration: 3600,
            title: "Third".to_string(),
        },
    ];
    let p = choice_prompt(&items);
    assert_eq!(p.text, "1. First (3m 25s)\n2. Second (0s)\n3. Third (1h)");
    assert_eq!(p.buttons.len(), 3);
    assert_eq!(p.buttons[0].custom_id, "/watch?v=a");
    assert_eq!(p.buttons[0].label, "1");
    assert_eq!(p.buttons[2].label, "3");
}
