use unit_monitor::state::StreamKind;
use unit_monitor::unit::Unit;
use unit_monitor::watcher::{
    recognise, transition_line, SetupError, StreamEvent, UnitWatcher, WatchPhase,
};

fn unit(name: &str) -> Unit {
    Unit::new(name.to_string(), "/org/freedesktop/systemd1/unit/x_2eservice".to_string())
}

fn watching(name: &str) -> UnitWatcher {
    let mut watcher = UnitWatcher::new(unit(name));
    watcher.subscribed();
    watcher
}

fn changed(stream: StreamKind, value: &str) -> StreamEvent {
    StreamEvent::Changed { stream, value: value.to_string() }
}

#[test]
fn line_formats_are_literal() {
    assert_eq!(
        transition_line("ssh.service", StreamKind::ActiveState, "Active"),
        "Unit: ssh.service Active state: Active"
    );
    assert_eq!(
        transition_line("ssh.service", StreamKind::LoadState, "Masked"),
        "Unit: ssh.service Load state: Masked"
    );
    assert_eq!(transition_line("", StreamKind::LoadState, ""), "Unit:  Load state: ");
}

#[test]
fn recognise_goes_by_the_stream() {
    assert_eq!(recognise(StreamKind::ActiveState, "failed"), Some("Failed"));
    assert_eq!(recognise(StreamKind::LoadState, "failed"), None);
    assert_eq!(recognise(StreamKind::LoadState, "error"), Some("Error"));
    assert_eq!(recognise(StreamKind::ActiveState, "error"), None);
}

#[test]
fn new_watcher_waits_for_its_subscription() {
    let watcher = UnitWatcher::new(unit("a.service"));
    assert_eq!(watcher.phase(), WatchPhase::Subscribing);
    assert_eq!(
        watcher.subscription_path(),
        Some("/org/freedesktop/systemd1/unit/x_2eservice")
    );
    assert_eq!(watcher.unit().name(), "a.service");
    assert!(!watcher.is_over());
    assert_eq!(watcher.outcome(), None);
}

#[test]
fn object_paths_are_checked() {
    let good = ["/", "/a", "/a/b", "/org/freedesktop/systemd1/unit/ssh_2eservice", "/_/0/Z"];
    for path in good {
        let watcher = UnitWatcher::new(Unit::new("u".to_string(), path.to_string()));
        assert_eq!(watcher.phase(), WatchPhase::Subscribing, "{}", path);
        assert_eq!(watcher.subscription_path(), Some(path));
    }
    let bad = ["", "a", "a/b", "/a/", "//", "/a//b", "/a-b", "/a.b", "/a b", "/\u{e9}", "/a/\n"];
    for path in bad {
        let watcher = UnitWatcher::new(Unit::new("u".to_string(), path.to_string()));
        assert_eq!(watcher.phase(), WatchPhase::Failed(SetupError::InvalidPath), "{:?}", path);
        assert_eq!(watcher.subscription_path(), None);
        assert!(watcher.is_over());
        assert_eq!(watcher.outcome(), Some(Err(SetupError::InvalidPath)));
    }
}

#[test]
fn refusal_ends_the_watcher() {
    let mut watcher = UnitWatcher::new(unit("a.service"));
    watcher.refused();
    assert_eq!(watcher.phase(), WatchPhase::Failed(SetupError::Refused));
    assert!(watcher.is_over());
    assert_eq!(watcher.outcome(), Some(Err(SetupError::Refused)));
    assert_eq!(watcher.on_event(&changed(StreamKind::ActiveState, "active")), None);
    watcher.subscribed();
    assert_eq!(watcher.phase(), WatchPhase::Failed(SetupError::Refused));
}

#[test]
fn subscription_is_answered_once() {
    let mut watcher = watching("a.service");
    assert_eq!(watcher.phase(), WatchPhase::Watching);
    assert_eq!(watcher.subscription_path(), None);
    watcher.refused();
    assert_eq!(watcher.phase(), WatchPhase::Watching);
    watcher.subscribed();
    assert_eq!(watcher.phase(), WatchPhase::Watching);
}

#[test]
fn nothing_is_written_before_the_subscription() {
    let mut watcher = UnitWatcher::new(unit("a.service"));
    assert_eq!(watcher.on_event(&changed(StreamKind::ActiveState, "active")), None);
    assert_eq!(
        watcher.on_event(&StreamEvent::Ended { stream: StreamKind::ActiveState }),
        None
    );
    assert_eq!(watcher.phase(), WatchPhase::Subscribing);
}

#[test]
fn accepted_change_is_written() {
    let mut watcher = watching("nginx.service");
    assert_eq!(
        watcher.on_event(&changed(StreamKind::ActiveState, "activating")),
        Some("Unit: nginx.service Active state: Activating".to_string())
    );
    assert_eq!(
        watcher.on_event(&changed(StreamKind::LoadState, "loaded")),
        Some("Unit: nginx.service Load state: Loaded".to_string())
    );
    assert_eq!(watcher.phase(), WatchPhase::Watching);
}

#[test]
fn unknown_value_is_dropped_and_watching_goes_on() {
    let mut watcher = watching("a.service");
    assert_eq!(watcher.on_event(&changed(StreamKind::ActiveState, "maintenance")), None);
    assert_eq!(watcher.on_event(&changed(StreamKind::LoadState, "not-found")), None);
    assert_eq!(watcher.on_event(&changed(StreamKind::LoadState, "active")), None);
    assert_eq!(watcher.phase(), WatchPhase::Watching);
    assert!(!watcher.is_over());
    assert_eq!(
        watcher.on_event(&changed(StreamKind::ActiveState, "active")),
        Some("Unit: a.service Active state: Active".to_string())
    );
}

#[test]
fn fetch_failure_is_dropped_and_watching_goes_on() {
    let mut watcher = watching("a.service");
    assert_eq!(
        watcher.on_event(&StreamEvent::FetchFailed { stream: StreamKind::ActiveState }),
        None
    );
    assert_eq!(watcher.phase(), WatchPhase::Watching);
    assert!(!watcher.is_over());
    assert_eq!(
        watcher.on_event(&changed(StreamKind::ActiveState, "failed")),
        Some("Unit: a.service Active state: Failed".to_string())
    );
}

#[test]
fn repeated_values_are_written_each_time() {
    let mut watcher = watching("a.service");
    let events = vec![
        changed(StreamKind::ActiveState, "active"),
        changed(StreamKind::ActiveState, "active"),
    ];
    assert_eq!(
        watcher.on_events(&events),
        vec![
            "Unit: a.service Active state: Active".to_string(),
            "Unit: a.service Active state: Active".to_string(),
        ]
    );
}

#[test]
fn active_stream_order_is_kept_among_load_lines() {
    let mut watcher = watching("db.service");
    let events = vec![
        changed(StreamKind::ActiveState, "activating"),
        changed(StreamKind::LoadState, "loaded"),
        changed(StreamKind::ActiveState, "active"),
        changed(StreamKind::ActiveState, "deactivating"),
        changed(StreamKind::LoadState, "masked"),
        changed(StreamKind::ActiveState, "inactive"),
    ];
    let lines = watcher.on_events(&events);
    assert_eq!(
        lines,
        vec![
            "Unit: db.service Active state: Activating".to_string(),
            "Unit: db.service Load state: Loaded".to_string(),
            "Unit: db.service Active state: Active".to_string(),
            "Unit: db.service Active state: Deactivating".to_string(),
            "Unit: db.service Load state: Masked".to_string(),
            "Unit: db.service Active state: Inactive".to_string(),
        ]
    );
    let active: Vec<&String> = lines.iter().filter(|line| line.contains("Active state:")).collect();
    assert_eq!(
        active,
        vec![
            "Unit: db.service Active state: Activating",
            "Unit: db.service Active state: Active",
            "Unit: db.service Active state: Deactivating",
            "Unit: db.service Active state: Inactive",
        ]
    );
}

#[test]
fn one_stream_alone_writes_the_same_for_itself() {
    let events = vec![
        changed(StreamKind::LoadState, "loaded"),
        changed(StreamKind::ActiveState, "active"),
        StreamEvent::FetchFailed { stream: StreamKind::LoadState },
        StreamEvent::Ended { stream: StreamKind::LoadState },
        changed(StreamKind::LoadState, "masked"),
        changed(StreamKind::ActiveState, "bogus"),
        changed(StreamKind::ActiveState, "failed"),
        StreamEvent::Ended { stream: StreamKind::ActiveState },
        changed(StreamKind::ActiveState, "active"),
    ];
    let whole = watching("u").on_events(&events);
    let only_active: Vec<StreamEvent> = events
        .iter()
        .filter(|event| {
            matches!(
                event,
                StreamEvent::Changed { stream: StreamKind::ActiveState, .. }
                    | StreamEvent::FetchFailed { stream: StreamKind::ActiveState }
                    | StreamEvent::Ended { stream: StreamKind::ActiveState }
            )
        })
        .cloned()
        .collect();
    let alone = watching("u").on_events(&only_active);
    let whole_active: Vec<String> =
        whole.iter().filter(|line| line.contains(" Active state: ")).cloned().collect();
    assert_eq!(alone, whole_active);
    assert_eq!(
        alone,
        vec!["Unit: u Active state: Active".to_string(), "Unit: u Active state: Failed".to_string()]
    );
    assert_eq!(whole.len(), 3);
}

#[test]
fn watcher_is_finished_only_when_both_streams_ended() {
    let mut watcher = watching("a.service");
    assert_eq!(watcher.on_event(&StreamEvent::Ended { stream: StreamKind::ActiveState }), None);
    assert_eq!(watcher.phase(), WatchPhase::LoadOnly);
    assert!(!watcher.is_over());
    assert_eq!(watcher.outcome(), None);
    assert!(watcher.listens(StreamKind::LoadState));
    assert!(!watcher.listens(StreamKind::ActiveState));
    assert_eq!(
        watcher.on_event(&changed(StreamKind::LoadState, "error")),
        Some("Unit: a.service Load state: Error".to_string())
    );
    assert_eq!(watcher.on_event(&changed(StreamKind::ActiveState, "active")), None);
    assert_eq!(watcher.on_event(&StreamEvent::Ended { stream: StreamKind::ActiveState }), None);
    assert_eq!(watcher.phase(), WatchPhase::LoadOnly);
    assert_eq!(watcher.on_event(&StreamEvent::Ended { stream: StreamKind::LoadState }), None);
    assert_eq!(watcher.phase(), WatchPhase::Finished);
    assert!(watcher.is_over());
    assert_eq!(watcher.outcome(), Some(Ok(())));
}

#[test]
fn load_stream_may_end_first() {
    let mut watcher = watching("a.service");
    watcher.on_event(&StreamEvent::Ended { stream: StreamKind::LoadState });
    assert_eq!(watcher.phase(), WatchPhase::ActiveOnly);
    assert!(!watcher.is_over());
    assert!(watcher.listens(StreamKind::ActiveState));
    assert!(!watcher.listens(StreamKind::LoadState));
    watcher.on_event(&StreamEvent::Ended { stream: StreamKind::ActiveState });
    assert_eq!(watcher.phase(), WatchPhase::Finished);
}

#[test]
fn finished_watcher_writes_nothing() {
    let mut watcher = watching("a.service");
    let lines = watcher.on_events(&vec![
        StreamEvent::Ended { stream: StreamKind::LoadState },
        StreamEvent::Ended { stream: StreamKind::ActiveState },
        changed(StreamKind::ActiveState, "active"),
        changed(StreamKind::LoadState, "loaded"),
    ]);
    assert!(lines.is_empty());
    assert_eq!(watcher.phase(), WatchPhase::Finished);
}

#[test]
fn batch_equals_one_by_one() {
    let events = vec![
        changed(StreamKind::ActiveState, "reloading"),
        StreamEvent::FetchFailed { stream: StreamKind::LoadState },
        changed(StreamKind::LoadState, "Error"),
        StreamEvent::Ended { stream: StreamKind::ActiveState },
        changed(StreamKind::ActiveState, "active"),
        changed(StreamKind::LoadState, "masked"),
    ];
    let mut batch = watching("x");
    let lines = batch.on_events(&events);
    let mut single = watching("x");
    let mut expected = Vec::new();
    for event in &events {
        if let Some(line) = single.on_event(event) {
            expected.push(line);
        }
    }
    assert_eq!(lines, expected);
    assert_eq!(batch.phase(), single.phase());
    assert_eq!(
        lines,
        vec![
            "Unit: x Active state: Reloading".to_string(),
            "Unit: x Load state: Error".to_string(),
            "Unit: x Load state: Masked".to_string(),
        ]
    );
}

#[test]
fn empty_batch_changes_nothing() {
    let mut watcher = watching("x");
    assert!(watcher.on_events(&Vec::new()).is_empty());
    assert_eq!(watcher.phase(), WatchPhase::Watching);
}
