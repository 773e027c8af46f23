use permstore::{
    reply_fits, Action, ClientError, DeleteArgs, Event, ListArgs, Operation, RemoteCall, Reply,
    Session, Subcommands, PERMISSION_STORE_SPEC_VER,
};

fn list_session() -> Session {
    Session::new(Subcommands::List(ListArgs { table: "devices".to_string() }))
}

fn feed(mut session: Session, events: Vec<Event>) -> (Session, Vec<Action>) {
    let mut actions = Vec::new();
    for ev in events {
        assert!(session.accepts(&ev));
        let (next, action) = session.step(ev);
        session = next;
        actions.push(action);
    }
    (session, actions)
}

#[test]
fn version_mismatch_issues_no_call() {
    let (session, actions) = feed(list_session(), vec![Event::Ready, Event::Ready, Event::Version(3)]);
    assert!(matches!(session, Session::Finished(false)));
    assert!(actions.iter().all(|a| !matches!(a, Action::Invoke(_))));
    match actions.last() {
        Some(Action::Report(e)) => {
            assert!(matches!(e, ClientError::VersionMismatch(3)));
            assert_eq!(e.message(), "Server version 3 does not match expected version 2");
        }
        _ => panic!("a mismatch must be reported"),
    }
    assert!(!session.accepts(&Event::Ready));
}

#[test]
fn matching_version_issues_the_dispatched_call() {
    let session = Session::new(Subcommands::Delete(DeleteArgs {
        table: "t".to_string(),
        id: "r".to_string(),
        app: Some("a".to_string()),
    }));
    let (session, actions) =
        feed(session, vec![Event::Ready, Event::Ready, Event::Version(PERMISSION_STORE_SPEC_VER)]);
    assert!(matches!(session, Session::Calling(Operation::Delete)));
    assert!(matches!(actions[0], Action::CreateProxy));
    assert!(matches!(actions[1], Action::ReadVersion));
    assert!(matches!(&actions[2], Action::Invoke(RemoteCall::DeletePermission { app, .. }) if app == "a"));
    let (session, actions) = feed(session, vec![Event::Replied(Reply::Deleted)]);
    assert!(matches!(session, Session::Finished(true)));
    assert!(matches!(actions[0], Action::Show(Reply::Deleted)));
}

#[test]
fn empty_list_is_shown_not_reported() {
    let (session, actions) = feed(
        list_session(),
        vec![Event::Ready, Event::Ready, Event::Version(2), Event::Replied(Reply::ResourceIds(Vec::new()))],
    );
    assert!(matches!(session, Session::Finished(true)));
    assert!(matches!(&actions[3], Action::Show(Reply::ResourceIds(ids)) if ids.is_empty()));
}

#[test]
fn failed_call_reports_and_shows_nothing() {
    let (session, actions) = feed(
        list_session(),
        vec![Event::Ready, Event::Ready, Event::Version(2), Event::Failed("No such table".to_string())],
    );
    assert!(matches!(session, Session::Finished(false)));
    assert!(actions.iter().all(|a| !matches!(a, Action::Show(_))));
    match &actions[3] {
        Action::Report(e) => assert_eq!(e.message(), "failed to list permissions: No such table"),
        _ => panic!("a failed call must be reported"),
    }
}

#[test]
fn early_failures_are_reported_with_their_stage() {
    let (_, actions) = feed(list_session(), vec![Event::Failed("no bus".to_string())]);
    assert!(matches!(&actions[0], Action::Report(e) if e.message() == "Failed to connect: no bus"));
    let (_, actions) = feed(list_session(), vec![Event::Ready, Event::Failed("bad".to_string())]);
    assert!(matches!(&actions[1], Action::Report(e) if e.message() == "Failed to create proxy: bad"));
    let (_, actions) =
        feed(list_session(), vec![Event::Ready, Event::Ready, Event::Failed("gone".to_string())]);
    assert!(matches!(&actions[2], Action::Report(e) if e.message() == "Failed to get server version: gone"));
}

#[test]
fn error_messages_name_the_operation() {
    let e = ClientError::Remote(Operation::SetPermissions, "denied".to_string());
    assert_eq!(e.message(), "failed to set permissions: denied");
    let e = ClientError::Remote(Operation::Lookup, "missing".to_string());
    assert_eq!(e.message(), "failed to lookup permissions: missing");
    let e = ClientError::Remote(Operation::Get, "x".to_string());
    assert_eq!(e.message(), "failed to get permissions: x");
    let e = ClientError::Remote(Operation::Delete, "y".to_string());
    assert_eq!(e.message(), "failed to delete permissions: y");
}

#[test]
fn reply_shapes_fit_their_operations() {
    assert!(reply_fits(Operation::List, &Reply::ResourceIds(Vec::new())));
    assert!(!reply_fits(Operation::List, &Reply::Permissions(Vec::new())));
    assert!(reply_fits(Operation::Delete, &Reply::Deleted));
    assert!(!reply_fits(Operation::SetPermissions, &Reply::Deleted));
    let calling = Session::Calling(Operation::Get);
    assert!(!calling.accepts(&Event::Replied(Reply::Updated)));
    assert!(calling.accepts(&Event::Replied(Reply::Permissions(Vec::new()))));
    assert!(!calling.accepts(&Event::Version(2)));
}
