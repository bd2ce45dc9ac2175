//! The client of the controller's web API, written as steps: the caller
//! performs each HTTP request and each operation on the session storage, and
//! hands the outcome back to the client, which decides what comes next.
use vstd::prelude::*;
use vstd::string::*;

use crate::decode::{celsius_spec, celsius_value_getter, relay_spec, relay_value_getter, DecodeError};
use crate::json::{json_str_at, reported_value, value_pointer};
use crate::session::{read_session, NotFound, StoreAction};
use crate::text::{
    has_prefix, lower_of, lowercase, shorten_string, shortened, starts_with, trim, trim_spec,
};

verus! {

/// Why logging in failed.
#[derive(Debug, Clone, Copy, PartialEq, Eq, Structural)]
pub enum LoginError {
    /// The login request was answered with a status other than 200.
    BadStatus(u16),
    /// The login reply carried no `nabto-session` cookie.
    NoSessionCookie,
    /// The login request did not complete.
    TransportError,
}

/// Why fetching a value failed.
#[derive(Debug, Clone, Copy, PartialEq, Eq, Structural)]
pub enum FetchError {
    /// The request did not complete.
    Transport,
    /// The reply could not be decoded.
    Decode(DecodeError),
}

/// A request that did not complete (no connection, a timeout).
#[derive(Debug, Clone, Copy, PartialEq, Eq, Structural)]
pub struct TransportFailure;

/// A cookie set by a reply.
pub struct Cookie {
    pub name: String,
    pub value: String,
}

/// The reply to a login request.
pub struct LoginReply {
    pub status: u16,
    pub cookies: Vec<Cookie>,
}

/// The reply to a value request: its body, and the string at `response.val`
/// where the body is JSON and holds one.
pub struct ValueReply {
    pub body: String,
    pub value: Option<String>,
}

impl ValueReply {
    /// Reads the reported value out of a reply body.
    pub fn from_body(body: String) -> (r: ValueReply)
        ensures
            r.body == body,
            r.value is None <==> json_str_at(body@, value_pointer()) is None,
            r.value matches Some(v) ==> json_str_at(body@, value_pointer()) == Some(v@),
    {
        let value = reported_value(body.as_str());
        ValueReply { body, value }
    }
}

/// What the caller does next while logging in.
#[derive(Debug)]
pub enum LoginStep {
    /// Logging in is over and succeeded.
    Done,
    /// Read the persisted session and hand it to `adopt_stored`.
    ReadStore,
    /// POST to this URL and hand the reply to `finish_login`.
    Post(String),
}

/// A value request: the URL to GET and the `Cookie` header to send.
pub struct ValueRequest {
    pub url: String,
    pub cookie: String,
}

/// A client of one controller: its credentials, which do not change, and the
/// current session token (empty when there is none).
pub struct Sorel {
    username: String,
    password: String,
    device_id: String,
    session_id: String,
}

/// The state of a client as contracts see it.
pub struct SorelView {
    pub username: Seq<char>,
    pub password: Seq<char>,
    pub device_id: Seq<char>,
    pub session: Seq<char>,
}

impl View for Sorel {
    type V = SorelView;

    closed spec fn view(&self) -> SorelView {
        SorelView {
            username: self.username@,
            password: self.password@,
            device_id: self.device_id@,
            session: self.session_id@,
        }
    }
}

pub open spec fn base_url_spec(device_id: Seq<char>) -> Seq<char> {
    "https://"@ + device_id + "."@ + "sorel-connect.net"@
}

pub open spec fn login_url_spec(c: SorelView) -> Seq<char> {
    base_url_spec(c.device_id) + "/nabto/hosted_plugin/login/execute?email="@ + c.username
        + "&password="@ + c.password
}

pub open spec fn value_url_spec(c: SorelView, sensor_id: Seq<char>) -> Seq<char> {
    base_url_spec(c.device_id) + "/state.json?id="@ + sensor_id
}

pub open spec fn cookie_header_spec(c: SorelView) -> Seq<char> {
    "nabto-session="@ + c.session
}

pub open spec fn with_session(c: SorelView, session: Seq<char>) -> SorelView {
    SorelView { session, ..c }
}

/// The value of the first cookie named `nabto-session`.
pub open spec fn session_cookie(cookies: Seq<Cookie>) -> Option<Seq<char>>
    decreases cookies.len(),
{
    if cookies.len() == 0 {
        None
    } else if cookies[0].name@ == "nabto-session"@ {
        Some(cookies[0].value@)
    } else {
        session_cookie(cookies.drop_first())
    }
}

pub open spec fn doctype() -> Seq<char> {
    "<!doctype"@
}

/// A body that reads as an HTML page once lower-cased and trimmed: the
/// controller's answer when the session has expired.
pub open spec fn html_body(body: Seq<char>) -> bool {
    starts_with(trim_spec(lower_of(body)), doctype())
}

/// Whether a reply shows that the session is no longer accepted.
pub open spec fn reply_invalidates(reply: Result<ValueReply, TransportFailure>) -> bool {
    match reply {
        Err(_) => true,
        Ok(r) => r.value is None && html_body(r.body@),
    }
}

/// The raw value that a reply carries.
pub open spec fn reply_raw(reply: Result<ValueReply, TransportFailure>) -> Result<
    Seq<char>,
    FetchError,
> {
    match reply {
        Err(_) => Err(FetchError::Transport),
        Ok(r) => match r.value {
            Some(v) => Ok(v@),
            None => Err(FetchError::Decode(DecodeError::MalformedBody)),
        },
    }
}

pub open spec fn lift(r: Result<i16, DecodeError>) -> Result<i16, FetchError> {
    match r {
        Ok(v) => Ok(v),
        Err(e) => Err(FetchError::Decode(e)),
    }
}

/// The temperature that a reply yields.
pub open spec fn sensor_result(reply: Result<ValueReply, TransportFailure>) -> Result<
    i16,
    FetchError,
> {
    match reply_raw(reply) {
        Ok(raw) => lift(celsius_spec(raw)),
        Err(e) => Err(e),
    }
}

/// The relay state that a reply yields.
pub open spec fn relay_result(reply: Result<ValueReply, TransportFailure>) -> Result<
    i16,
    FetchError,
> {
    match reply_raw(reply) {
        Ok(raw) => lift(relay_spec(raw)),
        Err(e) => Err(e),
    }
}

/// The client's state after a reply: the session is dropped where the reply
/// shows it is no longer accepted.
pub open spec fn after_reply(c: SorelView, reply: Result<ValueReply, TransportFailure>) -> SorelView {
    if reply_invalidates(reply) {
        with_session(c, Seq::empty())
    } else {
        c
    }
}

/// The token that a read of the persisted session found, if it is usable.
pub open spec fn stored_token(stored: Result<String, NotFound>) -> Option<Seq<char>> {
    match stored {
        Ok(t) => if t@.len() > 0 {
            Some(t@)
        } else {
            None
        },
        Err(_) => None,
    }
}

/// What a login reply yields: the session token, or why there is none.
pub open spec fn login_outcome(reply: Result<LoginReply, TransportFailure>) -> Result<
    Seq<char>,
    LoginError,
> {
    match reply {
        Err(_) => Err(LoginError::TransportError),
        Ok(rep) => if rep.status != 200 {
            Err(LoginError::BadStatus(rep.status))
        } else {
            match session_cookie(rep.cookies@) {
                Some(t) => Ok(t),
                None => Err(LoginError::NoSessionCookie),
            }
        },
    }
}

/// Whether `s` equals the literal `t`.
fn same_text(s: &String, t: &str) -> (r: bool)
    ensures
        r == (s@ == t@),
{
    let other = String::from_str(t);
    *s == other
}

/// Whether a lower-cased, trimmed body is an HTML page.
pub fn is_html_page(normalized: &str) -> (r: bool)
    ensures
        r == starts_with(normalized@, doctype()),
{
    has_prefix(normalized, "<!doctype")
}

/// A shortened, lower-cased and trimmed excerpt of a reply body, for
/// diagnostics.
pub fn body_excerpt(body: &str) -> (r: String)
    ensures
        r@ == shortened(trim_spec(lower_of(body@)), 1000),
{
    let lower = lowercase(body);
    shorten_string(trim(lower.as_str()), 1000)
}

impl Sorel {
    /// A client for `device_id`; a non-empty `session_id_override` is used as
    /// the session without logging in.
    pub fn new(username: String, password: String, device_id: String, session_id_override: String) -> (r: Sorel)
        ensures
            r@ == (SorelView {
                username: username@,
                password: password@,
                device_id: device_id@,
                session: session_id_override@,
            }),
    {
        Sorel { username, password, device_id, session_id: session_id_override }
    }

    /// The current session token (empty when there is none).
    pub fn session_id(&self) -> (r: &String)
        ensures
            r@ == self@.session,
    {
        &self.session_id
    }

    /// Whether the client holds no session and must log in.
    pub fn needs_login(&self) -> (r: bool)
        ensures
            r == (self@.session.len() == 0),
    {
        self.session_id.unicode_len() == 0
    }

    fn base_url(&self) -> (r: String)
        ensures
            r@ == base_url_spec(self@.device_id),
    {
        String::from_str("https://").concat(self.device_id.as_str()).concat(".").concat(
            "sorel-connect.net",
        )
    }

    fn login_url(&self) -> (r: String)
        ensures
            r@ == login_url_spec(self@),
    {
        self.base_url().concat("/nabto/hosted_plugin/login/execute?email=").concat(
            self.username.as_str(),
        ).concat("&password=").concat(self.password.as_str())
    }

    /// Starts logging in: done at once where a session is held, else the
    /// persisted session is to be read.
    pub fn begin_login(&self) -> (r: LoginStep)
        ensures
            self@.session.len() > 0 ==> r is Done,
            self@.session.len() == 0 ==> r is ReadStore,
    {
        if self.needs_login() {
            LoginStep::ReadStore
        } else {
            LoginStep::Done
        }
    }

    /// Adopts a persisted session where one was found; else the login
    /// request is to be sent.
    pub fn adopt_stored(&mut self, stored: Result<String, NotFound>) -> (r: LoginStep)
        ensures
            stored_token(stored) matches Some(t) ==> r is Done && final(self)@ == with_session(
                old(self)@,
                t,
            ),
            stored_token(stored) is None ==> final(self)@ == old(self)@ && (r matches LoginStep::Post(
                u,
            ) && u@ == login_url_spec(old(self)@)),
    {
        match stored {
            Ok(t) => {
                if t.unicode_len() > 0 {
                    self.session_id = t;
                    return LoginStep::Done;
                }
            },
            Err(_) => {},
        }
        LoginStep::Post(self.login_url())
    }

    /// Ends logging in with the reply to the login request. A token found in
    /// the `nabto-session` cookie is adopted and is to be persisted; a status
    /// other than 200 asks for the persisted session to be removed.
    pub fn finish_login(&mut self, reply: Result<LoginReply, TransportFailure>) -> (r: (
        Result<(), LoginError>,
        StoreAction,
    ))
        ensures
            login_outcome(reply) matches Ok(t) ==> r.0 is Ok && (r.1 matches StoreAction::Write(w)
                && w@ == t) && final(self)@ == with_session(old(self)@, t),
            login_outcome(reply) matches Err(e) ==> r.0 == Err::<(), LoginError>(e),
            login_outcome(reply) is Err ==> final(self)@ == old(self)@,
            login_outcome(reply) matches Err(e) && e is BadStatus ==> r.1 is Remove,
            login_outcome(reply) matches Err(e) && !(e is BadStatus) ==> r.1 is Keep,
    {
        let rep = match reply {
            Err(_) => return (Err(LoginError::TransportError), StoreAction::Keep),
            Ok(rep) => rep,
        };
        if rep.status != 200 {
            return (Err(LoginError::BadStatus(rep.status)), StoreAction::Remove);
        }
        let n = rep.cookies.len();
        let mut i: usize = 0;
        assert(rep.cookies@.subrange(0, n as int) =~= rep.cookies@);
        while i < n
            invariant
                self@ == old(self)@,
                reply == Ok::<LoginReply, TransportFailure>(rep),
                rep.status == 200,
                n == rep.cookies@.len(),
                i <= n,
                session_cookie(rep.cookies@) == session_cookie(rep.cookies@.subrange(i as int, n as int)),
            decreases n - i,
        {
            assert(rep.cookies@.subrange(i as int, n as int).drop_first() =~= rep.cookies@.subrange(
                i + 1,
                n as int,
            ));
            assert(rep.cookies@.subrange(i as int, n as int)[0] == rep.cookies@[i as int]);
            let c = &rep.cookies[i];
            if same_text(&c.name, "nabto-session") {
                let token = c.value.clone();
                assert(session_cookie(rep.cookies@.subrange(i as int, n as int)) == Some(c.value@));
                self.session_id = token.clone();
                return (Ok(()), StoreAction::Write(token));
            }
            i = i + 1;
        }
        assert(rep.cookies@.subrange(n as int, n as int) =~= Seq::<Cookie>::empty());
        (Err(LoginError::NoSessionCookie), StoreAction::Keep)
    }

    /// The request for the value of `sensor_id`, sent with the session.
    pub fn value_request(&self, sensor_id: &str) -> (r: ValueRequest)
        ensures
            r.url@ == value_url_spec(self@, sensor_id@),
            r.cookie@ == cookie_header_spec(self@),
    {
        let url = self.base_url().concat("/state.json?id=").concat(sensor_id);
        let cookie = String::from_str("nabto-session=").concat(self.session_id.as_str());
        ValueRequest { url, cookie }
    }

    /// The raw value that a reply carries. A failed request, or a body that
    /// reads as an HTML page, drops the session and asks for the persisted
    /// one to be removed.
    fn reply_value(&mut self, reply: Result<ValueReply, TransportFailure>) -> (r: (
        Result<String, FetchError>,
        StoreAction,
    ))
        ensures
            r.0 matches Ok(v) ==> reply_raw(reply) == Ok::<Seq<char>, FetchError>(v@),
            r.0 matches Err(e) ==> reply_raw(reply) == Err::<Seq<char>, FetchError>(e),
            reply_invalidates(reply) ==> r.1 is Remove,
            !reply_invalidates(reply) ==> r.1 is Keep,
            final(self)@ == after_reply(old(self)@, reply),
    {
        match reply {
            Err(_) => {
                self.session_id = String::new();
                (Err(FetchError::Transport), StoreAction::Remove)
            },
            Ok(rep) => match rep.value {
                Some(v) => (Ok(v), StoreAction::Keep),
                None => {
                    let lower = lowercase(rep.body.as_str());
                    let malformed = FetchError::Decode(DecodeError::MalformedBody);
                    if is_html_page(trim(lower.as_str())) {
                        self.session_id = String::new();
                        (Err(malformed), StoreAction::Remove)
                    } else {
                        (Err(malformed), StoreAction::Keep)
                    }
                },
            },
        }
    }

    /// Decodes the reply to a temperature request.
    pub fn sensor_reading(&mut self, reply: Result<ValueReply, TransportFailure>) -> (r: (
        Result<i16, FetchError>,
        StoreAction,
    ))
        ensures
            r.0 == sensor_result(reply),
            reply_invalidates(reply) ==> r.1 is Remove,
            !reply_invalidates(reply) ==> r.1 is Keep,
            final(self)@ == after_reply(old(self)@, reply),
    {
        let (raw, action) = self.reply_value(reply);
        match raw {
            Ok(v) => match celsius_value_getter(v.as_str()) {
                Ok(t) => (Ok(t), action),
                Err(e) => (Err(FetchError::Decode(e)), action),
            },
            Err(e) => (Err(e), action),
        }
    }

    /// Decodes the reply to a relay request.
    pub fn relay_reading(&mut self, reply: Result<ValueReply, TransportFailure>) -> (r: (
        Result<i16, FetchError>,
        StoreAction,
    ))
        ensures
            r.0 == relay_result(reply),
            reply_invalidates(reply) ==> r.1 is Remove,
            !reply_invalidates(reply) ==> r.1 is Keep,
            final(self)@ == after_reply(old(self)@, reply),
    {
        let (raw, action) = self.reply_value(reply);
        match raw {
            Ok(v) => match relay_value_getter(v.as_str()) {
                Ok(t) => (Ok(t), action),
                Err(e) => (Err(FetchError::Decode(e)), action),
            },
            Err(e) => (Err(e), action),
        }
    }
}

/// A login request answered with a status other than 200 fails with
/// `BadStatus`; `finish_login` then asks for the persisted session to be
/// removed.
pub proof fn lemma_bad_status_login(reply: LoginReply)
    requires
        reply.status != 200,
    ensures
        login_outcome(Ok(reply)) == Err::<Seq<char>, LoginError>(LoginError::BadStatus(reply.status)),
{
}

/// A value reply whose body is an HTML page rather than the expected JSON
/// fails and shows that the session is no longer accepted.
pub proof fn lemma_html_reply_invalidates(client: SorelView, reply: ValueReply)
    requires
        reply.value is None,
        html_body(reply.body@),
    ensures
        reply_invalidates(Ok(reply)),
        sensor_result(Ok(reply)) == Err::<i16, FetchError>(FetchError::Decode(DecodeError::MalformedBody)),
        relay_result(Ok(reply)) == Err::<i16, FetchError>(FetchError::Decode(DecodeError::MalformedBody)),
        after_reply(client, Ok(reply)).session.len() == 0,
{
}

} // verus!
