use solbox_mqtt_exporter::decode::DecodeError;
use solbox_mqtt_exporter::json::reported_value;
use solbox_mqtt_exporter::session::{NotFound, SessionStore, StoreAction};
use solbox_mqtt_exporter::sorel::{
    body_excerpt, is_html_page, Cookie, FetchError, LoginError, LoginReply, LoginStep, Sorel,
    TransportFailure, ValueReply,
};

/// A transport double that answers every login request the same way and
/// counts the requests.
struct FakeTransport {
    posts: usize,
    status: u16,
    cookies: Vec<(String, String)>,
}

impl FakeTransport {
    fn post(&mut self, _url: &str) -> Result<LoginReply, TransportFailure> {
        self.posts += 1;
        let cookies = self
            .cookies
            .iter()
            .map(|(n, v)| Cookie { name: n.clone(), value: v.clone() })
            .collect();
        Ok(LoginReply { status: self.status, cookies })
    }
}

fn login(sorel: &mut Sorel, store: &mut SessionStore, http: &mut FakeTransport) -> Result<(), LoginError> {
    let mut step = sorel.begin_login();
    loop {
        match step {
            LoginStep::Done => return Ok(()),
            LoginStep::ReadStore => {
                let stored = store.read();
                step = sorel.adopt_stored(stored);
            }
            LoginStep::Post(url) => {
                let reply = http.post(&url);
                let (result, action) = sorel.finish_login(reply);
                store.apply(&action);
                return result;
            }
        }
    }
}

fn client(session: &str) -> Sorel {
    Sorel::new(
        String::from("me@example.com"),
        String::from("pw"),
        String::from("dev42"),
        String::from(session),
    )
}

#[test]
fn override_session_makes_no_request() {
    let mut sorel = client("override-token");
    let mut store = SessionStore::new();
    let mut http = FakeTransport { posts: 0, status: 200, cookies: vec![] };
    assert_eq!(login(&mut sorel, &mut store, &mut http), Ok(()));
    assert_eq!(http.posts, 0);
    assert_eq!(sorel.session_id(), "override-token");
    assert_eq!(store.read(), Err(NotFound));
}

#[test]
fn persisted_session_makes_no_request() {
    let mut sorel = client("");
    let mut store = SessionStore::new();
    store.write("persisted");
    let mut http = FakeTransport { posts: 0, status: 200, cookies: vec![] };
    assert_eq!(login(&mut sorel, &mut store, &mut http), Ok(()));
    assert_eq!(http.posts, 0);
    assert_eq!(sorel.session_id(), "persisted");
}

#[test]
fn bad_status_fails_and_invalidates() {
    let mut sorel = client("");
    let mut store = SessionStore::new();
    store.write("");
    let mut http = FakeTransport { posts: 0, status: 500, cookies: vec![] };
    assert_eq!(login(&mut sorel, &mut store, &mut http), Err(LoginError::BadStatus(500)));
    assert_eq!(http.posts, 1);
    assert_eq!(store.read(), Err(NotFound));
    let mut probe = SessionStore::new();
    probe.write("stale");
    let (_, action) = client("").finish_login(Ok(LoginReply { status: 500, cookies: vec![] }));
    probe.apply(&action);
    assert_eq!(probe.read(), Err(NotFound));
}

#[test]
fn login_adopts_and_persists_cookie() {
    let mut sorel = client("");
    let mut store = SessionStore::new();
    let mut http = FakeTransport {
        posts: 0,
        status: 200,
        cookies: vec![
            (String::from("other"), String::from("x")),
            (String::from("nabto-session"), String::from("tok-1")),
            (String::from("nabto-session"), String::from("tok-2")),
        ],
    };
    assert_eq!(login(&mut sorel, &mut store, &mut http), Ok(()));
    assert_eq!(http.posts, 1);
    assert_eq!(sorel.session_id(), "tok-1");
    assert_eq!(store.read(), Ok(String::from("tok-1")));
}

#[test]
fn login_without_cookie_fails() {
    let mut sorel = client("");
    let mut store = SessionStore::new();
    let mut http = FakeTransport {
        posts: 0,
        status: 200,
        cookies: vec![(String::from("other"), String::from("x"))],
    };
    assert_eq!(login(&mut sorel, &mut store, &mut http), Err(LoginError::NoSessionCookie));
    assert_eq!(sorel.session_id(), "");
    assert_eq!(store.read(), Err(NotFound));
}

#[test]
fn login_transport_failure() {
    let mut sorel = client("");
    let (result, action) = sorel.finish_login(Err(TransportFailure));
    assert_eq!(result, Err(LoginError::TransportError));
    assert!(matches!(action, StoreAction::Keep));
}

#[test]
fn login_url_is_device_scoped() {
    let mut sorel = client("");
    match sorel.adopt_stored(Err(NotFound)) {
        LoginStep::Post(url) => assert_eq!(
            url,
            "https://dev42.sorel-connect.net/nabto/hosted_plugin/login/execute?email=me@example.com&password=pw"
        ),
        other => panic!("unexpected step {:?}", other),
    }
    assert!(matches!(sorel.adopt_stored(Ok(String::new())), LoginStep::Post(_)));
    assert!(matches!(sorel.adopt_stored(Ok(String::from("t"))), LoginStep::Done));
    assert!(matches!(sorel.begin_login(), LoginStep::Done));
}

#[test]
fn value_request_carries_session() {
    let sorel = client("tok");
    let req = sorel.value_request("sensor1");
    assert_eq!(req.url, "https://dev42.sorel-connect.net/state.json?id=sensor1");
    assert_eq!(req.cookie, "nabto-session=tok");
}

fn reply(body: &str) -> Result<ValueReply, TransportFailure> {
    Ok(ValueReply::from_body(String::from(body)))
}

#[test]
fn html_body_invalidates_session() {
    let mut sorel = client("tok");
    let mut store = SessionStore::new();
    store.write("tok");
    let (result, action) = sorel.sensor_reading(reply("  <!DOCTYPE html><html><body>login</body></html>"));
    assert_eq!(result, Err(FetchError::Decode(DecodeError::MalformedBody)));
    assert!(matches!(action, StoreAction::Remove));
    store.apply(&action);
    assert_eq!(store.read(), Err(NotFound));
    assert!(sorel.needs_login());
}

#[test]
fn other_malformed_body_keeps_session() {
    let mut sorel = client("tok");
    let (result, action) = sorel.sensor_reading(reply("not json"));
    assert_eq!(result, Err(FetchError::Decode(DecodeError::MalformedBody)));
    assert!(matches!(action, StoreAction::Keep));
    assert_eq!(sorel.session_id(), "tok");
}

#[test]
fn transport_failure_invalidates_session() {
    let mut sorel = client("tok");
    let (result, action) = sorel.relay_reading(Err(TransportFailure));
    assert_eq!(result, Err(FetchError::Transport));
    assert!(matches!(action, StoreAction::Remove));
    assert!(sorel.needs_login());
}

#[test]
fn readings_decode_values() {
    let mut sorel = client("tok");
    let (t, a) = sorel.sensor_reading(reply("{\"request\":{},\"response\":{\"val\":\"21\u{b0}C\"}}"));
    assert_eq!(t, Ok(21));
    assert!(matches!(a, StoreAction::Keep));
    let (r, _) = sorel.relay_reading(reply("{\"request\":{},\"response\":{\"val\":\"relay1_OFF\"}}"));
    assert_eq!(r, Ok(0));
    let (bad, _) = sorel.relay_reading(reply("{\"request\":{},\"response\":{\"val\":\"relay1_X\"}}"));
    assert_eq!(bad, Err(FetchError::Decode(DecodeError::NotABoolean)));
    let (nan, _) = sorel.sensor_reading(reply("{\"request\":{},\"response\":{\"val\":\"hot\"}}"));
    assert_eq!(nan, Err(FetchError::Decode(DecodeError::NotANumber)));
    assert_eq!(sorel.session_id(), "tok");
}

#[test]
fn reported_value_reads_response_val() {
    assert_eq!(reported_value("{\"response\":{\"val\":\"x\"}}"), Some(String::from("x")));
    assert_eq!(reported_value("{\"response\":{\"val\":3}}"), None);
    assert_eq!(reported_value("{\"response\":{}}"), None);
    assert_eq!(reported_value("{"), None);
    assert_eq!(reported_value("<!doctype html><html></html>"), None);
    assert_eq!(reported_value("{\"request\":{},\"response\":{\"val\":\"relay1_ON\"}}"), Some(String::from("relay1_ON")));
}

#[test]
fn from_body_keeps_body_and_value() {
    let json = String::from("{\"response\":{\"val\":\"12\u{b0}C\"}}");
    let reply = ValueReply::from_body(json.clone());
    assert_eq!(reply.body, json);
    assert_eq!(reply.value, Some(String::from("12\u{b0}C")));
    let html = ValueReply::from_body(String::from("<!DOCTYPE html>"));
    assert_eq!(html.value, None);
}

#[test]
fn excerpt_is_lowercased_trimmed_and_bounded() {
    assert_eq!(body_excerpt("  <!DocType HTML>  "), "<!doctype html>");
    let long = "A".repeat(1500);
    let excerpt = body_excerpt(&long);
    assert_eq!(excerpt.chars().count(), 1003);
    assert!(excerpt.starts_with("aaa"));
    assert!(excerpt.ends_with("a..."));
}

#[test]
fn html_page_detection() {
    assert!(is_html_page("<!doctype html>"));
    assert!(!is_html_page("<html>"));
    assert!(!is_html_page("<!DOCTYPE html>"));
}
