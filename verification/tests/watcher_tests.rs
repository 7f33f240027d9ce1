use beatforge_core::kind_label;
use beatforge_core::make_change_event;
use beatforge_core::process_raw_events;
use beatforge_core::ChangeKind;
use beatforge_core::RawEvent;
use beatforge_core::WatchSession;

fn raw(kind: ChangeKind, paths: &[&str]) -> RawEvent {
    RawEvent { kind, paths: paths.iter().map(|p| p.to_string()).collect() }
}

#[test]
fn kind_labels_name_the_operation() {
    assert_eq!(kind_label(ChangeKind::Create), "create");
    assert_eq!(kind_label(ChangeKind::Modify), "modify");
    assert_eq!(kind_label(ChangeKind::Remove), "remove");
    assert_eq!(kind_label(ChangeKind::Rename), "rename");
    assert_eq!(kind_label(ChangeKind::Other), "other");
}

#[test]
fn event_without_paths_is_not_delivered() {
    assert!(make_change_event(&raw(ChangeKind::Create, &[])).is_none());
}

#[test]
fn event_carries_kind_and_paths() {
    let ev = make_change_event(&raw(ChangeKind::Modify, &["/d/a.mp3"])).expect("one path suffices");
    assert_eq!(ev.kind, "modify");
    assert_eq!(ev.paths, vec!["/d/a.mp3".to_string()]);
}

#[test]
fn rename_event_keeps_both_paths() {
    let ev = make_change_event(&raw(ChangeKind::Rename, &["/d/old.mp3", "/d/new.mp3"]))
        .expect("rename names two paths");
    assert_eq!(ev.kind, "rename");
    assert_eq!(ev.paths, vec!["/d/old.mp3".to_string(), "/d/new.mp3".to_string()]);
}

#[test]
fn creation_is_delivered_before_a_later_operation() {
    let events = vec![
        raw(ChangeKind::Create, &["/d/new.mp3"]),
        raw(ChangeKind::Modify, &["/d/new.mp3"]),
    ];
    let delivered = process_raw_events(&events);
    assert_eq!(delivered.len(), 2);
    assert_eq!(delivered[0].kind, "create");
    assert_eq!(delivered[0].paths, vec!["/d/new.mp3".to_string()]);
    assert_eq!(delivered[1].kind, "modify");
}

#[test]
fn pathless_notifications_are_skipped_in_order() {
    let events = vec![
        raw(ChangeKind::Other, &[]),
        raw(ChangeKind::Remove, &["/d/gone.wav"]),
        raw(ChangeKind::Other, &[]),
    ];
    let delivered = process_raw_events(&events);
    assert_eq!(delivered.len(), 1);
    assert_eq!(delivered[0].kind, "remove");
}

#[test]
fn session_delivers_while_the_sink_accepts() {
    let mut session = WatchSession::new();
    assert!(session.is_active());
    let first = session.on_raw_event(&raw(ChangeKind::Create, &["/d/a.mp3"]));
    assert_eq!(first.expect("active session delivers").kind, "create");
    session.record_sink_result(true);
    assert!(session.is_active());
    let second = session.on_raw_event(&raw(ChangeKind::Modify, &["/d/a.mp3"]));
    assert_eq!(second.expect("still active").kind, "modify");
}

#[test]
fn session_stops_for_good_after_a_rejected_delivery() {
    let mut session = WatchSession::new();
    let ev = session.on_raw_event(&raw(ChangeKind::Create, &["/d/a.mp3"]));
    assert!(ev.is_some());
    session.record_sink_result(false);
    assert!(!session.is_active());
    assert!(session.on_raw_event(&raw(ChangeKind::Remove, &["/d/a.mp3"])).is_none());
    session.record_sink_result(true);
    assert!(!session.is_active());
    assert!(session.on_raw_event(&raw(ChangeKind::Create, &["/d/b.mp3"])).is_none());
}

#[test]
fn session_skips_pathless_notifications() {
    let mut session = WatchSession::new();
    assert!(session.on_raw_event(&raw(ChangeKind::Other, &[])).is_none());
    assert!(session.is_active());
}
