use voice_queue::{
    AuxMetadata, CoreError, PlayAction, PlayEvent, PlayFlow, SearchResult, SearchResults,
    SelectionEvent, SessionRegistry, SongMetadata,
};

fn session_with_one_track() -> SessionRegistry {
    let mut r = SessionRegistry::new();
    r.complete_join(1, 9, true).unwrap();
    r.enqueue(
        1,
        100,
        SongMetadata {
            title: "old".to_string(),
            duration: 1,
            user: "x".to_string(),
            thumbnail: None,
        },
    )
    .unwrap();
    r
}

fn five_results() -> SearchResults {
    SearchResults {
        items: (0..5)
            .map(|i| SearchResult {
                url: format!("/watch?v={}", i),
                duration: 10,
                title: format!("r{}", i),
            })
            .collect(),
    }
}

#[test]
fn search_without_answer_times_out_and_leaves_queue() {
    let mut reg = session_with_one_track();
    let before = reg.get(1).unwrap().queue.len();
    let (mut flow, action) = PlayFlow::start(
        &reg,
        1,
        Some(9),
        "lofi beats".to_string(),
        "ana".to_string(),
        42,
        60,
    );
    match action {
        PlayAction::Search { term } => assert_eq!(term, "lofi beats"),
        other => panic!("unexpected {:?}", other),
    }
    let action = flow.step(
        &mut reg,
        PlayEvent::SearchAnswered {
            results: Ok(five_results()),
            now: 1000,
        },
    );
    match action {
        PlayAction::Present { prompt } => {
            assert_eq!(prompt.buttons.len(), 5);
            assert_eq!(prompt.buttons[4].label, "5");
            assert_eq!(prompt.buttons[4].custom_id, "/watch?v=4");
            assert!(prompt.text.starts_with("1. r0 (10s)\n2. r1 (10s)"));
        }
        other => panic!("unexpected {:?}", other),
    }
    let action = flow.step(
        &mut reg,
        PlayEvent::Selection {
            event: SelectionEvent::Tick { at: 1060 },
        },
    );
    assert!(matches!(action, PlayAction::Dismiss));
    assert!(flow.is_finished());
    assert_eq!(reg.get(1).unwrap().queue.len(), before);
}

#[test]
fn search_selection_enqueues_choice() {
    let mut reg = session_with_one_track();
    let (mut flow, _) = PlayFlow::start(&reg, 1, None, "song".to_string(), "ana".to_string(), 42, 60);
    flow.step(
        &mut reg,
        PlayEvent::SearchAnswered {
            results: Ok(five_results()),
            now: 0,
        },
    );
    let stale = flow.step(
        &mut reg,
        PlayEvent::Selection {
            event: SelectionEvent::Selected {
                custom_id: "/watch?v=1".to_string(),
                token: 41,
                at: 5,
            },
        },
    );
    assert!(matches!(stale, PlayAction::Wait));
    let chosen = flow.step(
        &mut reg,
        PlayEvent::Selection {
            event: SelectionEvent::Selected {
                custom_id: "/watch?v=1".to_string(),
                token: 42,
                at: 6,
            },
        },
    );
    match chosen {
        PlayAction::DismissAndResolve { source } => {
            assert_eq!(source, "https://www.youtube.com//watch?v=1")
        }
        other => panic!("unexpected {:?}", other),
    }
    let done = flow.step(
        &mut reg,
        PlayEvent::Resolved {
            ok: true,
            id: 7,
            meta: Some(AuxMetadata {
                title: Some("Real title".to_string()),
                duration: Some(200),
                thumbnail: Some("t.png".to_string()),
            }),
        },
    );
    match done {
        PlayAction::Enqueued {
            position,
            metadata,
            notice,
        } => {
            assert_eq!(position, 2);
            assert_eq!(metadata.title, "Real title");
            assert_eq!(metadata.duration, 200);
            assert_eq!(notice.username, "ana");
            assert_eq!(notice.thumbnail.as_deref(), Some("t.png"));
        }
        other => panic!("unexpected {:?}", other),
    }
    assert_eq!(reg.get(1).unwrap().queue.len(), 2);
}

#[test]
fn direct_url_joins_then_enqueues_with_fallback_title() {
    let mut reg = SessionRegistry::new();
    let url = "https://youtu.be/abc".to_string();
    let (mut flow, action) = PlayFlow::start(&reg, 3, Some(30), url.clone(), "bo".to_string(), 1, 60);
    assert!(matches!(action, PlayAction::Connect { channel: 30 }));
    match flow.step(&mut reg, PlayEvent::Connected { ok: true }) {
        PlayAction::Resolve { source } => assert_eq!(source, url),
        other => panic!("unexpected {:?}", other),
    }
    match flow.step(
        &mut reg,
        PlayEvent::Resolved {
            ok: true,
            id: 1,
            meta: None,
        },
    ) {
        PlayAction::Enqueued {
            position, metadata, ..
        } => {
            assert_eq!(position, 1);
            assert_eq!(metadata.title, url);
            assert_eq!(metadata.duration, 0);
        }
        other => panic!("unexpected {:?}", other),
    }
    assert_eq!(reg.get(3).unwrap().channel_id, 30);
}

#[test]
fn play_without_voice_channel_fails() {
    let reg = SessionRegistry::new();
    let (flow, action) = PlayFlow::start(&reg, 3, None, "x".to_string(), "bo".to_string(), 1, 60);
    assert!(matches!(
        action,
        PlayAction::Fail {
            error: CoreError::NotInVoiceChannel
        }
    ));
    assert!(flow.is_finished());
}

#[test]
fn refused_connection_fails_flow() {
    let mut reg = SessionRegistry::new();
    let (mut flow, _) = PlayFlow::start(&reg, 3, Some(4), "x".to_string(), "bo".to_string(), 1, 60);
    let a = flow.step(&mut reg, PlayEvent::Connected { ok: false });
    assert!(matches!(
        a,
        PlayAction::Fail {
            error: CoreError::ConnectFailed
        }
    ));
    assert!(reg.get(3).is_none());
}

#[test]
fn empty_query_is_invalid() {
    let reg = session_with_one_track();
    let (_, action) = PlayFlow::start(&reg, 1, None, String::new(), "bo".to_string(), 1, 60);
    assert!(matches!(
        action,
        PlayAction::Fail {
            error: CoreError::InvalidQuery
        }
    ));
}

#[test]
fn failed_resolution_enqueues_nothing() {
    let mut reg = session_with_one_track();
    let (mut flow, _) = PlayFlow::start(&reg, 1, None, "www.site/x".to_string(), "bo".to_string(), 1, 60);
    let a = flow.step(
        &mut reg,
        PlayEvent::Resolved {
            ok: false,
            id: 2,
            meta: None,
        },
    );
    assert!(matches!(
        a,
        PlayAction::Fail {
            error: CoreError::ResolveFailed
        }
    ));
    assert_eq!(reg.get(1).unwrap().queue.len(), 1);
}

#[test]
fn out_of_stage_event_is_ignored() {
    let mut reg = session_with_one_track();
    let (mut flow, _) = PlayFlow::start(&reg, 1, None, "song".to_string(), "bo".to_string(), 1, 60);
    let a = flow.step(&mut reg, PlayEvent::Connected { ok: true });
    assert!(matches!(a, PlayAction::Ignore));
    assert!(!flow.is_finished());
}

#[test]
fn search_failures_end_flow() {
    let mut reg = session_with_one_track();
    let (mut flow, _) = PlayFlow::start(&reg, 1, None, "song".to_string(), "bo".to_string(), 1, 60);
    let a = flow.step(
        &mut reg,
        PlayEvent::SearchAnswered {
            results: Ok(SearchResults { items: vec![] }),
            now: 0,
        },
    );
    assert!(matches!(
        a,
        PlayAction::Fail {
            error: CoreError::NoResults
        }
    ));
    assert!(flow.is_finished());
}
