//! The two-step portal flow: the exact contents of the login and reservation
//! requests, the success gate between them, and the run's state machine.
//!
//! The requests are modelled as plain values — a URL, header pairs and form
//! pairs — so that every field the portal receives is pinned down here; the
//! surrounding program only turns them into actual HTTP traffic.

use vstd::prelude::*;
use vstd::string::StringExecFns;

verus! {

/// The portal's fixed endpoints and fixed header values. Passed in explicitly
/// so that a test can substitute alternate endpoints.
pub struct PortalConfig {
    /// The login endpoint.
    pub login_url: String,
    /// The intermediate processing page, used as the reservation referer —
    /// an idiosyncrasy of the target system, kept as-is.
    pub process_url: String,
    /// The Adobe reservation endpoint.
    pub reserve_url: String,
    /// The `Origin` header value.
    pub origin: String,
    /// The `User-Agent` header value.
    pub user_agent: String,
}

/// The KMUTNB software portal's endpoints and header values.
pub fn kmutnb() -> (r: PortalConfig)
    ensures
        r.login_url@ == "https://software.kmutnb.ac.th/login/"@,
        r.process_url@ == "https://software.kmutnb.ac.th/adobe-reserve/processa.php"@,
        r.reserve_url@ == "https://software.kmutnb.ac.th:443/adobe-reserve/add2.php"@,
        r.origin@ == "https://software.kmutnb.ac.th"@,
        r.user_agent@ == "Mozilla/5.0 (X11; Linux x86_64; rv:146.0) Gecko/20100101 Firefox/146.0"@,
{
    PortalConfig {
        login_url: String::from_str("https://software.kmutnb.ac.th/login/"),
        process_url: String::from_str("https://software.kmutnb.ac.th/adobe-reserve/processa.php"),
        reserve_url: String::from_str("https://software.kmutnb.ac.th:443/adobe-reserve/add2.php"),
        origin: String::from_str("https://software.kmutnb.ac.th"),
        user_agent: String::from_str(
            "Mozilla/5.0 (X11; Linux x86_64; rv:146.0) Gecko/20100101 Firefox/146.0",
        ),
    }
}

/// A name/value pair with the given name and value.
pub open spec fn pair_is(p: (String, String), name: Seq<char>, value: Seq<char>) -> bool {
    p.0@ == name && p.1@ == value
}

/// The headers of the login request: form content type, the configured user
/// agent and origin, the login page as referer, and an HTML accept header.
pub open spec fn is_login_headers(h: Seq<(String, String)>, cfg: PortalConfig) -> bool {
    &&& h.len() == 5
    &&& pair_is(h[0], "Content-Type"@, "application/x-www-form-urlencoded"@)
    &&& pair_is(h[1], "User-Agent"@, cfg.user_agent@)
    &&& pair_is(h[2], "Origin"@, cfg.origin@)
    &&& pair_is(h[3], "Referer"@, cfg.login_url@)
    &&& pair_is(h[4], "Accept"@, "text/html,application/xhtml+xml,application/xml;q=0.9,*/*;q=0.8"@)
}

/// The headers of the reservation request: form content type, the configured
/// user agent and origin, and the processing page as referer.
pub open spec fn is_adobe_headers(h: Seq<(String, String)>, cfg: PortalConfig) -> bool {
    &&& h.len() == 4
    &&& pair_is(h[0], "Content-Type"@, "application/x-www-form-urlencoded"@)
    &&& pair_is(h[1], "User-Agent"@, cfg.user_agent@)
    &&& pair_is(h[2], "Origin"@, cfg.origin@)
    &&& pair_is(h[3], "Referer"@, cfg.process_url@)
}

/// The form body of the login request: the credentials and an empty `Submit`.
pub open spec fn is_login_form(f: Seq<(String, String)>, username: Seq<char>, password: Seq<char>) -> bool {
    &&& f.len() == 3
    &&& pair_is(f[0], "myusername"@, username)
    &&& pair_is(f[1], "mypassword"@, password)
    &&& pair_is(f[2], "Submit"@, ""@)
}

/// The form body of the reservation request: an empty `userId`, the computed
/// expiry date, a zero `status_number`, and an empty `Submit_get`.
pub open spec fn is_reservation_form(f: Seq<(String, String)>, date_expire: Seq<char>) -> bool {
    &&& f.len() == 4
    &&& pair_is(f[0], "userId"@, ""@)
    &&& pair_is(f[1], "date_expire"@, date_expire)
    &&& pair_is(f[2], "status_number"@, "0"@)
    &&& pair_is(f[3], "Submit_get"@, ""@)
}

/// Build the headers for the login POST request.
pub fn build_login_headers(cfg: &PortalConfig) -> (r: Vec<(String, String)>)
    ensures
        is_login_headers(r@, *cfg),
{
    let mut h: Vec<(String, String)> = Vec::new();
    h.push((
        String::from_str("Content-Type"),
        String::from_str("application/x-www-form-urlencoded"),
    ));
    h.push((String::from_str("User-Agent"), cfg.user_agent.clone()));
    h.push((String::from_str("Origin"), cfg.origin.clone()));
    h.push((String::from_str("Referer"), cfg.login_url.clone()));
    h.push((
        String::from_str("Accept"),
        String::from_str("text/html,application/xhtml+xml,application/xml;q=0.9,*/*;q=0.8"),
    ));
    h
}

/// Build the headers for the Adobe reservation POST request.
pub fn build_adobe_headers(cfg: &PortalConfig) -> (r: Vec<(String, String)>)
    ensures
        is_adobe_headers(r@, *cfg),
{
    let mut h: Vec<(String, String)> = Vec::new();
    h.push((
        String::from_str("Content-Type"),
        String::from_str("application/x-www-form-urlencoded"),
    ));
    h.push((String::from_str("User-Agent"), cfg.user_agent.clone()));
    h.push((String::from_str("Origin"), cfg.origin.clone()));
    h.push((String::from_str("Referer"), cfg.process_url.clone()));
    h
}

/// One outbound POST request: where it goes, what headers it carries, and
/// what form fields it submits.
#[derive(Debug)]
pub struct PortalRequest {
    /// The endpoint the request is sent to.
    pub url: String,
    /// Header name/value pairs.
    pub headers: Vec<(String, String)>,
    /// Form name/value pairs, sent URL-encoded.
    pub form: Vec<(String, String)>,
}

/// The complete login request for the given credentials.
pub open spec fn is_login_request(
    r: PortalRequest,
    cfg: PortalConfig,
    username: Seq<char>,
    password: Seq<char>,
) -> bool {
    &&& r.url@ == cfg.login_url@
    &&& is_login_headers(r.headers@, cfg)
    &&& is_login_form(r.form@, username, password)
}

/// The complete reservation request for the given expiry date.
pub open spec fn is_reservation_request(r: PortalRequest, cfg: PortalConfig, date_expire: Seq<char>) -> bool {
    &&& r.url@ == cfg.reserve_url@
    &&& is_adobe_headers(r.headers@, cfg)
    &&& is_reservation_form(r.form@, date_expire)
}

/// Build the login request: credentials as form fields, sent to the login
/// endpoint with the login headers.
pub fn build_login_request(cfg: &PortalConfig, username: &str, password: &str) -> (r: PortalRequest)
    ensures
        is_login_request(r, *cfg, username@, password@),
{
    let mut form: Vec<(String, String)> = Vec::new();
    form.push((String::from_str("myusername"), String::from_str(username)));
    form.push((String::from_str("mypassword"), String::from_str(password)));
    form.push((String::from_str("Submit"), String::from_str("")));
    PortalRequest { url: cfg.login_url.clone(), headers: build_login_headers(cfg), form }
}

/// Build the reservation request: the computed expiry date as `date_expire`,
/// sent to the reservation endpoint with the reservation headers.
pub fn build_reservation_request(cfg: &PortalConfig, date_expire: &str) -> (r: PortalRequest)
    ensures
        is_reservation_request(r, *cfg, date_expire@),
{
    let mut form: Vec<(String, String)> = Vec::new();
    form.push((String::from_str("userId"), String::from_str("")));
    form.push((String::from_str("date_expire"), String::from_str(date_expire)));
    form.push((String::from_str("status_number"), String::from_str("0")));
    form.push((String::from_str("Submit_get"), String::from_str("")));
    PortalRequest { url: cfg.reserve_url.clone(), headers: build_adobe_headers(cfg), form }
}

/// An HTTP status in the success range.
pub open spec fn spec_is_success(status: u16) -> bool {
    200 <= status < 300
}

/// Whether the login response's status gates the run open: true exactly for
/// a status in the HTTP success range.
pub fn login_succeeded(status: u16) -> (r: bool)
    ensures
        r == spec_is_success(status),
{
    200 <= status && status < 300
}

/// Why the run stopped before the reservation was issued.
#[derive(Clone, Copy, Debug, PartialEq, Eq, Structural)]
pub enum FlowError {
    /// The portal answered the login request with a non-success status:
    /// the server was reached and rejected the login.
    LoginFailed { status: u16 },
}

impl FlowError {
    /// A short description of the error, for the operator.
    pub fn message(&self) -> (r: &'static str)
        ensures
            *self is LoginFailed ==> r@ == "login failed with non-success status"@,
    {
        match self {
            FlowError::LoginFailed { .. } => "login failed with non-success status",
        }
    }
}

/// The one decision of the run, taken on the login response: a success
/// status yields the reservation request to issue on the same session; any
/// other status yields the login failure to report, and nothing further is
/// ever sent.
pub fn after_login(cfg: &PortalConfig, date_expire: &str, login_status: u16) -> (r: Result<
    PortalRequest,
    FlowError,
>)
    ensures
        spec_is_success(login_status) ==> (r matches Ok(req) && is_reservation_request(
            req,
            *cfg,
            date_expire@,
        )),
        !spec_is_success(login_status) ==> (r matches Err(e) && e == (FlowError::LoginFailed {
            status: login_status,
        })),
{
    if login_succeeded(login_status) {
        Ok(build_reservation_request(cfg, date_expire))
    } else {
        Err(FlowError::LoginFailed { status: login_status })
    }
}

/// Where the run stands: each phase is reachable only through the previous
/// one, and `LoggedIn` only through a successful login.
#[derive(Clone, Copy, Debug, PartialEq, Eq, Structural)]
pub enum Phase {
    /// Nothing sent yet.
    Start,
    /// The login succeeded; the session cookie is established.
    LoggedIn,
    /// The reservation request went out on the logged-in session.
    ReservationSubmitted,
    /// The reservation response was shown to the operator.
    Done,
}

/// What happened since the last phase.
#[derive(Clone, Copy, Debug, PartialEq, Eq, Structural)]
pub enum RunEvent {
    /// The login response arrived, with or without a success status.
    LoginResponse { success: bool },
    /// The reservation request was issued.
    ReservationIssued,
    /// The reservation response body was shown.
    ResponseShown,
}

/// One transition of the run's state machine. `None` means the run stops:
/// a failed login aborts from `Start`, `Done` is final, and no other
/// combination of phase and event is part of the run.
pub fn advance(phase: Phase, event: RunEvent) -> (r: Option<Phase>)
    ensures
        r == (match (phase, event) {
            (Phase::Start, RunEvent::LoginResponse { success: true }) => Some(Phase::LoggedIn),
            (Phase::LoggedIn, RunEvent::ReservationIssued) => Some(Phase::ReservationSubmitted),
            (Phase::ReservationSubmitted, RunEvent::ResponseShown) => Some(Phase::Done),
            _ => None::<Phase>,
        }),
{
    match (phase, event) {
        (Phase::Start, RunEvent::LoginResponse { success: true }) => Some(Phase::LoggedIn),
        (Phase::LoggedIn, RunEvent::ReservationIssued) => Some(Phase::ReservationSubmitted),
        (Phase::ReservationSubmitted, RunEvent::ResponseShown) => Some(Phase::Done),
        _ => None,
    }
}

} // verus!
