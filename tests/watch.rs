use pomf_watch::error::Error;
use pomf_watch::reply::{interpret_reply, Envelope, FileEntry};
use pomf_watch::watch::{join_path, Action, Event, WatchLoop};

fn batch(names: &[&str]) -> Event {
    Event::Batch(names.iter().map(|n| n.to_string()).collect())
}

fn upload_path(a: &Action) -> String {
    match a {
        Action::Upload(p) => p.clone(),
        other => panic!("expected an upload, got {:?}", other),
    }
}

fn accepted(url: &str) -> Envelope {
    Envelope {
        success: true,
        files: vec![FileEntry {
            hash: "x".to_string(),
            name: "shot.png".to_string(),
            url: url.to_string(),
            size: 10,
        }],
    }
}

#[test]
fn join_inserts_one_separator() {
    assert_eq!(join_path("/tmp/drop", "shot.png"), "/tmp/drop/shot.png");
    assert_eq!(join_path("", "a"), "/a");
}

#[test]
fn new_loop_observes() {
    let l = WatchLoop::new("/tmp/drop".to_string());
    assert_eq!(l.dir(), "/tmp/drop");
    assert!(l.takes(&batch(&[])));
    assert!(!l.takes(&Event::Reported));
    assert!(!l.takes(&Event::Uploaded(Err(Error::ServerError))));
}

#[test]
fn empty_batch_reads_again() {
    let mut l = WatchLoop::new("/tmp/drop".to_string());
    assert!(matches!(l.step(batch(&[])), Action::ReadEvents));
    assert!(l.takes(&batch(&["a"])));
}

#[test]
fn one_event_one_upload() {
    let mut l = WatchLoop::new("/tmp/drop".to_string());
    let a = l.step(batch(&["f"]));
    assert_eq!(upload_path(&a), "/tmp/drop/f");
    assert!(!l.takes(&batch(&["g"])));
    assert!(!l.takes(&Event::Reported));
    let a = l.step(Event::Uploaded(Ok("https://host/f".to_string())));
    assert!(matches!(a, Action::Publish(ref u) if u == "https://host/f"));
    assert!(matches!(l.step(Event::Reported), Action::ReadEvents));
}

#[test]
fn scenario_upload_published() {
    let mut l = WatchLoop::new("/tmp/drop".to_string());
    let a = l.step(batch(&["shot.png"]));
    assert_eq!(upload_path(&a), "/tmp/drop/shot.png");
    let result = interpret_reply(Ok(accepted("https://host/x.png")));
    match l.step(Event::Uploaded(result)) {
        Action::Publish(u) => assert_eq!(u, "https://host/x.png"),
        other => panic!("unexpected {:?}", other),
    }
    assert!(matches!(l.step(Event::Reported), Action::ReadEvents));
}

#[test]
fn scenario_rejection_logged_and_loop_ready() {
    let mut l = WatchLoop::new("/tmp/drop".to_string());
    let a = l.step(batch(&["shot.png"]));
    assert_eq!(upload_path(&a), "/tmp/drop/shot.png");
    let result = interpret_reply(Ok(Envelope { success: false, files: vec![] }));
    assert!(matches!(l.step(Event::Uploaded(result)), Action::LogFailure(Error::ServerError)));
    assert!(matches!(l.step(Event::Reported), Action::ReadEvents));
    let a = l.step(batch(&["next.png"]));
    assert_eq!(upload_path(&a), "/tmp/drop/next.png");
}

#[test]
fn failure_does_not_stop_the_batch() {
    let mut l = WatchLoop::new("/d".to_string());
    assert_eq!(upload_path(&l.step(batch(&["a", "b"]))), "/d/a");
    let a = l.step(Event::Uploaded(Err(Error::Http("reset".to_string()))));
    assert!(matches!(a, Action::LogFailure(Error::Http(_))));
    assert_eq!(upload_path(&l.step(Event::Reported)), "/d/b");
}

#[test]
fn batch_uploaded_in_order_one_at_a_time() {
    let mut l = WatchLoop::new("/d".to_string());
    let mut order = Vec::new();
    let mut action = l.step(batch(&["one", "two", "three"]));
    loop {
        match action {
            Action::Upload(p) => {
                order.push(p);
                assert!(!l.takes(&batch(&["x"])));
                assert!(!l.takes(&Event::Reported));
                action = l.step(Event::Uploaded(Ok("https://host/u".to_string())));
                assert!(!matches!(action, Action::Upload(_)));
            }
            Action::Publish(_) | Action::LogFailure(_) => action = l.step(Event::Reported),
            Action::ReadEvents => break,
        }
    }
    assert_eq!(order, vec!["/d/one", "/d/two", "/d/three"]);
}
