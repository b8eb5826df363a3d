use rdev::watch::{contains_name, ChangeEvent, ChangeKind, WatchHandle, WatchSession};

fn event(kind: ChangeKind, name: &str) -> ChangeEvent {
    ChangeEvent { kind, name: Some(name.to_owned()) }
}

fn batch() -> Vec<ChangeEvent> {
    vec![
        event(ChangeKind::ClosedAfterWrite, "artifact"),
        event(ChangeKind::Other, "scratch"),
        ChangeEvent { kind: ChangeKind::AttributeChanged, name: None },
        event(ChangeKind::MovedInto, "notes.txt"),
        event(ChangeKind::AttributeChanged, "artifact"),
        event(ChangeKind::AttributeChanged, "build.log"),
        event(ChangeKind::ClosedAfterWrite, "notes.txt"),
    ]
}

#[test]
fn a_new_session_is_disarmed() {
    let session = WatchSession::new("target".to_owned());
    assert!(!session.is_armed());
    assert_eq!(session.handle(), None);
    assert_eq!(session.directory(), "target");
}

#[test]
fn start_arms_and_keeps_the_first_watch() {
    let mut session = WatchSession::new("target".to_owned());
    session.start(WatchHandle { id: 1 });
    assert!(session.is_armed());
    assert_eq!(session.handle(), Some(WatchHandle { id: 1 }));
    session.start(WatchHandle { id: 2 });
    assert_eq!(session.handle(), Some(WatchHandle { id: 1 }));
    assert_eq!(session.directory(), "target");
}

#[test]
fn stop_hands_out_the_watch_once() {
    let mut session = WatchSession::new("target".to_owned());
    assert_eq!(session.stop(), None);
    session.start(WatchHandle { id: 7 });
    assert_eq!(session.stop(), Some(WatchHandle { id: 7 }));
    assert!(!session.is_armed());
    assert_eq!(session.stop(), None);
    session.start(WatchHandle { id: 8 });
    assert_eq!(session.handle(), Some(WatchHandle { id: 8 }));
}

#[test]
fn an_armed_session_reports_each_name_once() {
    let mut session = WatchSession::new("target".to_owned());
    session.start(WatchHandle { id: 1 });
    assert_eq!(session.changed_names(&batch()), vec!["artifact", "notes.txt", "build.log"]);
    assert_eq!(session.changed_names(&Vec::new()), Vec::<String>::new());
}

#[test]
fn a_stopped_session_reports_nothing_until_started() {
    let mut session = WatchSession::new("target".to_owned());
    assert_eq!(session.changed_names(&batch()), Vec::<String>::new());
    session.start(WatchHandle { id: 1 });
    assert_eq!(session.changed_names(&batch()).len(), 3);
    session.stop();
    assert_eq!(session.changed_names(&batch()), Vec::<String>::new());
    session.start(WatchHandle { id: 2 });
    assert_eq!(session.changed_names(&batch()).len(), 3);
}

#[test]
fn only_watched_kinds_count() {
    assert!(ChangeKind::ClosedAfterWrite.watched());
    assert!(ChangeKind::MovedInto.watched());
    assert!(ChangeKind::AttributeChanged.watched());
    assert!(!ChangeKind::Other.watched());
    let mut session = WatchSession::new(".".to_owned());
    session.start(WatchHandle { id: 1 });
    let names = session.changed_names(&vec![event(ChangeKind::Other, "artifact")]);
    assert_eq!(names, Vec::<String>::new());
}

#[test]
fn contains_name_looks_for_the_whole_name() {
    let names = vec!["artifact".to_owned(), "notes.txt".to_owned()];
    assert!(contains_name(&names, &"artifact".to_owned()));
    assert!(contains_name(&names, &"notes.txt".to_owned()));
    assert!(!contains_name(&names, &"art".to_owned()));
    assert!(!contains_name(&names, &"artifact2".to_owned()));
    assert!(!contains_name(&Vec::new(), &"artifact".to_owned()));
}
