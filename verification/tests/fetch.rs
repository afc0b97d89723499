use url::Url;
use uuid::Uuid;
use voxels_application::fetch::{
    assemble, Fetch, Method, Progress, Reply, RetrievalError, WatcherEvent, CALL_TIMEOUT_SECONDS,
    DBUS_STANDARD_VOXELS_APPLICATIONS_GET_PATH, DBUS_STANDARD_VOXELS_APPLICATIONS_SERVICE,
};
use voxels_application::rdn::ApplicationRDNErrors;

fn expect_call(progress: Progress, method: Method, id: &Uuid) -> Fetch {
    match progress {
        Progress::Call { state, method: m, argument } => {
            assert_eq!(m, method);
            assert_eq!(state.pending, method);
            assert_eq!(argument, id.to_string());
            state
        }
        Progress::Finish(outcome) => panic!("ended early: {:?}", outcome),
    }
}

fn returned(text: &str) -> Reply {
    Reply::Returned(text.to_string())
}

#[test]
fn service_constants() {
    assert_eq!(DBUS_STANDARD_VOXELS_APPLICATIONS_SERVICE, "voxels.applications");
    assert_eq!(DBUS_STANDARD_VOXELS_APPLICATIONS_GET_PATH, "get");
    assert_eq!(CALL_TIMEOUT_SECONDS, 2);
    assert_eq!(Method::Rdn.name(), "rdn");
    assert_eq!(Method::Description.name(), "description");
    assert_eq!(Method::Homepage.name(), "homepage");
    assert_eq!(Method::Type.name(), "type");
    assert_eq!(Method::Rdn.next(), Some(Method::Description));
    assert_eq!(Method::Description.next(), Some(Method::Homepage));
    assert_eq!(Method::Homepage.next(), Some(Method::Type));
    assert_eq!(Method::Type.next(), None);
}

#[test]
fn four_answers_make_an_application() {
    let id = Uuid::parse_str("67e55044-10b1-426f-9247-bb680e5fe0c8").unwrap();
    let state = expect_call(Fetch::start(id, true), Method::Rdn, &id);
    let state = expect_call(state.advance(returned("com.test")), Method::Description, &id);
    let state = expect_call(state.advance(returned("A test app")), Method::Homepage, &id);
    let state = expect_call(state.advance(returned("https://example.com")), Method::Type, &id);
    match state.advance(returned("Server")) {
        Progress::Finish(Ok(app)) => {
            assert_eq!(app.rdn().name(), "com.test");
            assert_eq!(app.id(), id);
            assert_eq!(app.description(), Some(&"A test app".to_string()));
            assert_eq!(app.homepage(), Some(&Url::parse("https://example.com").unwrap()));
            assert_eq!(app.app_type(), None);
        }
        other => panic!("no application: {:?}", other),
    }
}

#[test]
fn a_failed_call_ends_the_fetch() {
    let id = Uuid::from_u128(1);
    let state = expect_call(Fetch::start(id, true), Method::Rdn, &id);
    let state = expect_call(state.advance(returned("com.test")), Method::Description, &id);
    match state.advance(Reply::Failed) {
        Progress::Finish(Err(e)) => assert_eq!(e, RetrievalError::Call(Method::Description)),
        other => panic!("went on: {:?}", other),
    }
    let state = expect_call(Fetch::start(id, true), Method::Rdn, &id);
    match state.advance(Reply::Failed) {
        Progress::Finish(Err(e)) => assert_eq!(e, RetrievalError::Call(Method::Rdn)),
        other => panic!("went on: {:?}", other),
    }
}

#[test]
fn no_connection_no_call() {
    match Fetch::start(Uuid::from_u128(1), false) {
        Progress::Finish(Err(e)) => assert_eq!(e, RetrievalError::Connection),
        other => panic!("went on: {:?}", other),
    }
}

#[test]
fn bad_answers_are_errors() {
    let id = Uuid::from_u128(2);
    let state = expect_call(Fetch::start(id, true), Method::Rdn, &id);
    let state = expect_call(state.advance(returned("com..test")), Method::Description, &id);
    let state = expect_call(state.advance(returned("words")), Method::Homepage, &id);
    let state = expect_call(state.advance(returned("not a url")), Method::Type, &id);
    match state.advance(returned("Client")) {
        Progress::Finish(Err(e)) => {
            assert_eq!(e, RetrievalError::InvalidRDN(ApplicationRDNErrors::DoubleSeparator))
        }
        other => panic!("no error: {:?}", other),
    }
    let state = expect_call(Fetch::start(id, true), Method::Rdn, &id);
    let state = expect_call(state.advance(returned("com.test")), Method::Description, &id);
    let state = expect_call(state.advance(returned("words")), Method::Homepage, &id);
    let state = expect_call(state.advance(returned("not a url")), Method::Type, &id);
    match state.advance(returned("Client")) {
        Progress::Finish(Err(e)) => assert_eq!(
            e,
            RetrievalError::InvalidHomepage(url::ParseError::RelativeUrlWithoutBase)
        ),
        other => panic!("no error: {:?}", other),
    }
}

#[test]
fn assemble_checks_the_name_first() {
    let id = Uuid::from_u128(3);
    let bad_url = Url::parse("");
    assert!(bad_url.is_err());
    match assemble(id, "9.test", String::new(), bad_url) {
        Err(e) => assert_eq!(e, RetrievalError::InvalidRDN(ApplicationRDNErrors::StartsWithNumeric)),
        Ok(app) => panic!("assembled: {:?}", app),
    }
    let app = assemble(id, "com.test", String::new(), Url::parse("https://example.com")).unwrap();
    assert_eq!(app.description(), Some(&String::new()));
    assert_eq!(app.homepage().unwrap().as_str(), "https://example.com/");
    assert_eq!(app.app_type(), None);
}

#[test]
fn only_a_lost_connection_is_reported() {
    assert!(WatcherEvent::ConnectionLost.reports_loss());
    assert!(!WatcherEvent::Cancelled.reports_loss());
}
