//! The login flow as a verified state machine.
//!
//! The flow is strictly linear: bootstrap the logon page, extract the session
//! tokens, post the credentials, check the login response for the rejection
//! marker, and fetch the class list. The library decides every transition
//! from response text alone; an unverified driver performs each emitted
//! `HttpRequest` and feeds the outcome back in as an `HttpEvent`. Every
//! failure aborts the remainder of the flow at once.

use vstd::prelude::*;
use vstd::string::StringExecFns;

use crate::errors::AspenError;
use crate::errors::ProjError;
use crate::extract::has_apache_token;
use crate::extract::has_session_id;
use crate::extract::is_apache_token_of;
use crate::extract::is_session_id_of;
use crate::extract::AspenInfo;
use crate::pattern::contains_seq;
use crate::pattern::contains_pat;
use crate::pattern::str_to_chars;

verus! {

/// The credentials the login request carries, supplied by the caller at the
/// process boundary (the flow itself never reads global state).
#[derive(Debug, PartialEq, Eq)]
pub struct Credentials {
    pub username: String,
    pub password: String,
}

/// The HTTP method of a request the flow asks its driver to perform.
#[derive(Debug, Clone, Copy, PartialEq, Eq, Structural)]
pub enum Method {
    Get,
    Post,
}

/// A fully determined request the flow asks its driver to perform.
#[derive(Debug, PartialEq, Eq)]
pub struct HttpRequest {
    pub method: Method,
    pub url: String,
    /// Value of the `Cookie` header, when one is to be sent.
    pub cookie: Option<String>,
    /// Value of the `User-Agent` header, when one is to be sent.
    pub user_agent: Option<String>,
    /// Query parameters, in order, as (name, value) pairs.
    pub query: Vec<(String, String)>,
}

/// What the driver reports back for one request: the response body, or the
/// transport's failure message.
#[derive(Debug, PartialEq, Eq)]
pub enum HttpEvent {
    Body(String),
    Failure(String),
}

/// Where the flow stands while a request is outstanding.
#[derive(Debug, PartialEq, Eq)]
pub enum FlowState {
    /// The logon page was requested; its body yields the session tokens.
    Bootstrapping { creds: Credentials },
    /// The login was posted; its body tells whether the credentials held.
    LoggingIn { info: AspenInfo },
    /// The class list was requested; its body is the flow's result.
    Fetching { info: AspenInfo },
}

/// One transition's outcome: another request to perform, the final body, or a
/// failure that ends the flow.
#[derive(Debug, PartialEq, Eq)]
pub enum FlowStep {
    Continue { state: FlowState, request: HttpRequest },
    Done { body: String },
    Failed { error: ProjError },
}

/// The logon endpoint, used by the bootstrap GET and the login POST.
pub open spec fn logon_url() -> Seq<char> {
    "https://aspen.cpsd.us/aspen/logon.do"@
}

/// The class-list endpoint of the final authenticated GET.
pub open spec fn class_list_url() -> Seq<char> {
    "https://aspen.cpsd.us/aspen/portalClassList.do?navkey=academics.classes.list"@
}

/// The fixed desktop-browser user agent the login POST impersonates.
pub open spec fn browser_user_agent() -> Seq<char> {
    "Mozilla/5.0 (Macintosh; Intel Mac OS X 10_15_7) AppleWebKit/537.36 (KHTML, like Gecko) Chrome/96.0.4664.45 Safari/537.36"@
}

/// The cookie of the login POST. The `.aspen-app2` suffix is required by the
/// portal on this request and must not be sent on the final fetch.
pub open spec fn login_cookie(sid: Seq<char>) -> Seq<char> {
    "JSESSIONID="@ + sid + ".aspen-app2"@
}

/// The cookie of the final fetch: the bare session identifier, no suffix.
pub open spec fn fetch_cookie(sid: Seq<char>) -> Seq<char> {
    "JSESSIONID="@ + sid
}

/// The query parameter name under which the anti-forgery token is sent back.
pub open spec fn token_field() -> Seq<char> {
    "org.apache.struts.taglib.html.TOKEN"@
}

/// The substring whose presence in the login response means the portal
/// rejected the credentials.
pub open spec fn invalid_login_marker() -> Seq<char> {
    "Invalid login."@
}

/// `r` is the unauthenticated bootstrap GET of the logon page.
pub open spec fn is_bootstrap_request(r: HttpRequest) -> bool {
    &&& r.method is Get
    &&& r.url@ == logon_url()
    &&& r.cookie is None
    &&& r.user_agent is None
    &&& r.query@.len() == 0
}

/// `r` is the login POST carrying the session cookie (with suffix), the
/// browser user agent, and the five query parameters in their fixed order.
pub open spec fn is_login_request(
    r: HttpRequest,
    sid: Seq<char>,
    tok: Seq<char>,
    user: Seq<char>,
    pass: Seq<char>,
) -> bool {
    &&& r.method is Post
    &&& r.url@ == logon_url()
    &&& (match r.cookie {
        Some(c) => c@ == login_cookie(sid),
        None => false,
    })
    &&& (match r.user_agent {
        Some(a) => a@ == browser_user_agent(),
        None => false,
    })
    &&& r.query@.len() == 5
    &&& r.query@[0].0@ == token_field() && r.query@[0].1@ == tok
    &&& r.query@[1].0@ == "userEvent"@ && r.query@[1].1@ == "930"@
    &&& r.query@[2].0@ == "deploymentId"@ && r.query@[2].1@ == "x2sis"@
    &&& r.query@[3].0@ == "username"@ && r.query@[3].1@ == user
    &&& r.query@[4].0@ == "password"@ && r.query@[4].1@ == pass
}

/// `r` is the final class-list GET, carrying the bare session cookie.
pub open spec fn is_class_list_request(r: HttpRequest, sid: Seq<char>) -> bool {
    &&& r.method is Get
    &&& r.url@ == class_list_url()
    &&& (match r.cookie {
        Some(c) => c@ == fetch_cookie(sid),
        None => false,
    })
    &&& r.user_agent is None
    &&& r.query@.len() == 0
}

impl Credentials {
    /// Build the flow's credentials from the two optional values read at the
    /// process boundary. Absence of either is the fatal configuration error,
    /// reported before any request is made.
    pub fn new(username: Option<String>, password: Option<String>) -> (r: Result<
        Credentials,
        ProjError,
    >)
        ensures
            r is Ok <==> username is Some && password is Some,
            (match (r, username, password) {
                (Ok(c), Some(u), Some(p)) => c.username@ == u@ && c.password@ == p@,
                (Ok(_), _, _) => false,
                (Err(e), _, _) => e == ProjError::MissingConfig,
            }),
    {
        match (username, password) {
            (Some(u), Some(p)) => Ok(Credentials { username: u, password: p }),
            _ => Err(ProjError::MissingConfig),
        }
    }
}

/// Build the bootstrap GET of the logon page.
pub fn bootstrap_request() -> (r: HttpRequest)
    ensures
        is_bootstrap_request(r),
{
    HttpRequest {
        method: Method::Get,
        url: "https://aspen.cpsd.us/aspen/logon.do".to_owned(),
        cookie: None,
        user_agent: None,
        query: Vec::new(),
    }
}

/// Build the login POST for a bootstrapped session and the given credentials.
pub fn login_request(info: &AspenInfo, creds: &Credentials) -> (r: HttpRequest)
    ensures
        is_login_request(
            r,
            info.session_id@,
            info.apache_token@,
            creds.username@,
            creds.password@,
        ),
{
    let mut cookie = String::from_str("JSESSIONID=");
    cookie.append(info.session_id.as_str());
    cookie.append(".aspen-app2");
    let mut query: Vec<(String, String)> = Vec::new();
    query.push(("org.apache.struts.taglib.html.TOKEN".to_owned(), info.apache_token.clone()));
    query.push(("userEvent".to_owned(), "930".to_owned()));
    query.push(("deploymentId".to_owned(), "x2sis".to_owned()));
    query.push(("username".to_owned(), creds.username.clone()));
    query.push(("password".to_owned(), creds.password.clone()));
    HttpRequest {
        method: Method::Post,
        url: "https://aspen.cpsd.us/aspen/logon.do".to_owned(),
        cookie: Some(cookie),
        user_agent: Some(
            "Mozilla/5.0 (Macintosh; Intel Mac OS X 10_15_7) AppleWebKit/537.36 (KHTML, like Gecko) Chrome/96.0.4664.45 Safari/537.36".to_owned(),
        ),
        query,
    }
}

/// Build the final authenticated GET of the class list.
pub fn class_list_request(info: &AspenInfo) -> (r: HttpRequest)
    ensures
        is_class_list_request(r, info.session_id@),
{
    let mut cookie = String::from_str("JSESSIONID=");
    cookie.append(info.session_id.as_str());
    HttpRequest {
        method: Method::Get,
        url: "https://aspen.cpsd.us/aspen/portalClassList.do?navkey=academics.classes.list".to_owned(),
        cookie: Some(cookie),
        user_agent: None,
        query: Vec::new(),
    }
}

/// Whether the login response body reports a credential rejection.
pub fn login_failed(body: &str) -> (r: bool)
    ensures
        r == contains_seq(body@, invalid_login_marker()),
{
    let chars = str_to_chars(body);
    let marker = str_to_chars("Invalid login.");
    contains_pat(&chars, &marker)
}

/// What `start` must return: the fatal configuration failure when a
/// credential is missing, else the bootstrap request with both credentials
/// held for the login step.
pub open spec fn start_post(username: Option<String>, password: Option<String>, r: FlowStep) -> bool {
    match (username, password) {
        (Some(u), Some(p)) => match r {
            FlowStep::Continue { state, request } => match state {
                FlowState::Bootstrapping { creds } => {
                    &&& creds.username@ == u@
                    &&& creds.password@ == p@
                    &&& is_bootstrap_request(request)
                },
                _ => false,
            },
            _ => false,
        },
        _ => r == (FlowStep::Failed { error: ProjError::MissingConfig }),
    }
}

/// Begin the flow. No request at all is emitted when a credential is absent.
pub fn start(username: Option<String>, password: Option<String>) -> (r: FlowStep)
    ensures
        start_post(username, password, r),
{
    match Credentials::new(username, password) {
        Ok(creds) => {
            let request = bootstrap_request();
            FlowStep::Continue { state: FlowState::Bootstrapping { creds }, request }
        },
        Err(error) => FlowStep::Failed { error },
    }
}

/// What `step` must return in every state, for every event.
pub open spec fn step_post(state: FlowState, event: HttpEvent, r: FlowStep) -> bool {
    match event {
        HttpEvent::Failure(m) => r == (FlowStep::Failed { error: ProjError::NetworkError(m) }),
        HttpEvent::Body(body) => match state {
            FlowState::Bootstrapping { creds } => {
                if has_session_id(body@) && has_apache_token(body@) {
                    match r {
                        FlowStep::Continue { state: next, request } => match next {
                            FlowState::LoggingIn { info } => {
                                &&& is_session_id_of(body@, info.session_id@)
                                &&& is_apache_token_of(body@, info.apache_token@)
                                &&& is_login_request(
                                    request,
                                    info.session_id@,
                                    info.apache_token@,
                                    creds.username@,
                                    creds.password@,
                                )
                            },
                            _ => false,
                        },
                        _ => false,
                    }
                } else {
                    r == (FlowStep::Failed { error: ProjError::Aspen(AspenError::NoSession) })
                }
            },
            FlowState::LoggingIn { info } => {
                if contains_seq(body@, invalid_login_marker()) {
                    r == (FlowStep::Failed { error: ProjError::Aspen(AspenError::InvalidLogin) })
                } else {
                    match r {
                        FlowStep::Continue { state: next, request } => match next {
                            FlowState::Fetching { info: held } => {
                                &&& held == info
                                &&& is_class_list_request(request, info.session_id@)
                            },
                            _ => false,
                        },
                        _ => false,
                    }
                }
            },
            FlowState::Fetching { info } => r == (FlowStep::Done { body }),
        },
    }
}

/// Advance the flow by one response. A transport failure, a page without the
/// session tokens, and a rejected login each end the flow at once, with no
/// further request; only a body in the `Fetching` state completes it, and that
/// body is returned unchanged.
pub fn step(state: FlowState, event: HttpEvent) -> (r: FlowStep)
    ensures
        step_post(state, event, r),
{
    match event {
        HttpEvent::Failure(m) => FlowStep::Failed { error: ProjError::NetworkError(m) },
        HttpEvent::Body(body) => match state {
            FlowState::Bootstrapping { creds } => match AspenInfo::new(body.as_str()) {
                Ok(info) => {
                    let request = login_request(&info, &creds);
                    FlowStep::Continue { state: FlowState::LoggingIn { info }, request }
                },
                Err(error) => FlowStep::Failed { error },
            },
            FlowState::LoggingIn { info } => {
                if login_failed(body.as_str()) {
                    FlowStep::Failed { error: ProjError::Aspen(AspenError::InvalidLogin) }
                } else {
                    let request = class_list_request(&info);
                    FlowStep::Continue { state: FlowState::Fetching { info }, request }
                }
            },
            FlowState::Fetching { info: _ } => FlowStep::Done { body },
        },
    }
}

/// `r` is an error wrapping the transport failure message `m`.
pub open spec fn is_network_failure(r: Result<String, ProjError>, m: Seq<char>) -> bool {
    match r {
        Err(ProjError::NetworkError(held)) => held@ == m,
        _ => false,
    }
}

/// What the whole flow returns, as a function of the credentials and of the
/// three responses alone. Later responses are only consulted when every
/// earlier stage succeeded.
pub open spec fn flow_post(
    username: Option<String>,
    password: Option<String>,
    bootstrap: HttpEvent,
    login: HttpEvent,
    fetch: HttpEvent,
    r: Result<String, ProjError>,
) -> bool {
    if username is None || password is None {
        r == Err::<String, ProjError>(ProjError::MissingConfig)
    } else {
        match bootstrap {
            HttpEvent::Failure(m) => is_network_failure(r, m@),
            HttpEvent::Body(html) => {
                if !(has_session_id(html@) && has_apache_token(html@)) {
                    r == Err::<String, ProjError>(ProjError::Aspen(AspenError::NoSession))
                } else {
                    match login {
                        HttpEvent::Failure(m) => is_network_failure(r, m@),
                        HttpEvent::Body(body) => {
                            if contains_seq(body@, invalid_login_marker()) {
                                r == Err::<String, ProjError>(
                                    ProjError::Aspen(AspenError::InvalidLogin),
                                )
                            } else {
                                match fetch {
                                    HttpEvent::Failure(m) => is_network_failure(r, m@),
                                    HttpEvent::Body(out) => match r {
                                        Ok(returned) => returned@ == out@,
                                        Err(_) => false,
                                    },
                                }
                            }
                        },
                    }
                }
            },
        }
    }
}

/// Run the whole flow against given response bodies: bootstrap, login, fetch,
/// in that order, stopping at the first failure. The three events stand for
/// the portal's three responses; the last body is returned unchanged.
pub fn get_aspen(
    username: Option<String>,
    password: Option<String>,
    bootstrap: HttpEvent,
    login: HttpEvent,
    fetch: HttpEvent,
) -> (r: Result<String, ProjError>)
    ensures
        flow_post(username, password, bootstrap, login, fetch, r),
{
    let creds = match Credentials::new(username, password) {
        Ok(c) => c,
        Err(e) => {
            return Err(e);
        },
    };
    let html = match bootstrap {
        HttpEvent::Failure(m) => {
            return Err(ProjError::NetworkError(m));
        },
        HttpEvent::Body(html) => html,
    };
    if let Err(e) = AspenInfo::new(html.as_str()) {
        return Err(e);
    }
    let login_body = match login {
        HttpEvent::Failure(m) => {
            return Err(ProjError::NetworkError(m));
        },
        HttpEvent::Body(body) => body,
    };
    if login_failed(login_body.as_str()) {
        return Err(ProjError::Aspen(AspenError::InvalidLogin));
    }
    match fetch {
        HttpEvent::Failure(m) => Err(ProjError::NetworkError(m)),
        HttpEvent::Body(out) => Ok(out),
    }
}

/// The two optional credentials hold the same text.
pub open spec fn same_option(a: Option<String>, b: Option<String>) -> bool {
    match (a, b) {
        (Some(x), Some(y)) => x@ == y@,
        (None, None) => true,
        _ => false,
    }
}

/// The two events report the same thing: the same kind, with the same text.
pub open spec fn same_event(a: HttpEvent, b: HttpEvent) -> bool {
    match (a, b) {
        (HttpEvent::Body(x), HttpEvent::Body(y)) => x@ == y@,
        (HttpEvent::Failure(x), HttpEvent::Failure(y)) => x@ == y@,
        _ => false,
    }
}

/// The two results classify identically: the same error kind (with the same
/// transport message), or success with the same body.
pub open spec fn same_outcome(r1: Result<String, ProjError>, r2: Result<String, ProjError>) -> bool {
    match (r1, r2) {
        (Ok(a), Ok(b)) => a@ == b@,
        (Err(ProjError::Aspen(a)), Err(ProjError::Aspen(b))) => a == b,
        (Err(ProjError::NetworkError(a)), Err(ProjError::NetworkError(b))) => a@ == b@,
        (Err(ProjError::MissingConfig), Err(ProjError::MissingConfig)) => true,
        _ => false,
    }
}

/// Running the full flow twice with the same credentials and the same three
/// responses produces the same classified error or the same successful body:
/// the flow holds no hidden state between invocations.
pub proof fn lemma_flow_deterministic(
    u1: Option<String>,
    p1: Option<String>,
    b1: HttpEvent,
    l1: HttpEvent,
    f1: HttpEvent,
    r1: Result<String, ProjError>,
    u2: Option<String>,
    p2: Option<String>,
    b2: HttpEvent,
    l2: HttpEvent,
    f2: HttpEvent,
    r2: Result<String, ProjError>,
)
    requires
        same_option(u1, u2),
        same_option(p1, p2),
        same_event(b1, b2),
        same_event(l1, l2),
        same_event(f1, f2),
        flow_post(u1, p1, b1, l1, f1, r1),
        flow_post(u2, p2, b2, l2, f2, r2),
    ensures
        same_outcome(r1, r2),
{
}

} // verus!
