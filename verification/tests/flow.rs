use kmutnb_reserve::clock::date_expire_today;
use kmutnb_reserve::date_rule::try_make_date_expire;
use kmutnb_reserve::flow::{
    advance, after_login, build_login_request, build_reservation_request, kmutnb, login_succeeded,
    FlowError, Phase, RunEvent,
};

#[test]
fn kmutnb_config_holds_the_portal_endpoints() {
    let cfg = kmutnb();
    assert_eq!(cfg.login_url, "https://software.kmutnb.ac.th/login/");
    assert_eq!(cfg.process_url, "https://software.kmutnb.ac.th/adobe-reserve/processa.php");
    assert_eq!(cfg.reserve_url, "https://software.kmutnb.ac.th:443/adobe-reserve/add2.php");
    assert_eq!(cfg.origin, "https://software.kmutnb.ac.th");
    assert_eq!(
        cfg.user_agent,
        "Mozilla/5.0 (X11; Linux x86_64; rv:146.0) Gecko/20100101 Firefox/146.0"
    );
}

#[test]
fn login_succeeded_is_the_2xx_range() {
    assert!(login_succeeded(200));
    assert!(login_succeeded(204));
    assert!(login_succeeded(299));
    assert!(!login_succeeded(199));
    assert!(!login_succeeded(300));
    assert!(!login_succeeded(302));
    assert!(!login_succeeded(403));
    assert!(!login_succeeded(500));
}

#[test]
fn login_request_carries_credentials_and_headers() {
    let cfg = kmutnb();
    let req = build_login_request(&cfg, "alice", "wonderland");
    assert_eq!(req.url, cfg.login_url);
    let form: Vec<(&str, &str)> =
        req.form.iter().map(|(k, v)| (k.as_str(), v.as_str())).collect();
    assert_eq!(
        form,
        vec![("myusername", "alice"), ("mypassword", "wonderland"), ("Submit", "")]
    );
    let headers: Vec<(&str, &str)> =
        req.headers.iter().map(|(k, v)| (k.as_str(), v.as_str())).collect();
    assert_eq!(
        headers,
        vec![
            ("Content-Type", "application/x-www-form-urlencoded"),
            (
                "User-Agent",
                "Mozilla/5.0 (X11; Linux x86_64; rv:146.0) Gecko/20100101 Firefox/146.0"
            ),
            ("Origin", "https://software.kmutnb.ac.th"),
            ("Referer", "https://software.kmutnb.ac.th/login/"),
            ("Accept", "text/html,application/xhtml+xml,application/xml;q=0.9,*/*;q=0.8"),
        ]
    );
}

#[test]
fn reservation_request_carries_date_and_headers() {
    let cfg = kmutnb();
    let req = build_reservation_request(&cfg, "2024-07-01");
    assert_eq!(req.url, cfg.reserve_url);
    let form: Vec<(&str, &str)> =
        req.form.iter().map(|(k, v)| (k.as_str(), v.as_str())).collect();
    assert_eq!(
        form,
        vec![
            ("userId", ""),
            ("date_expire", "2024-07-01"),
            ("status_number", "0"),
            ("Submit_get", ""),
        ]
    );
    let headers: Vec<(&str, &str)> =
        req.headers.iter().map(|(k, v)| (k.as_str(), v.as_str())).collect();
    assert_eq!(
        headers,
        vec![
            ("Content-Type", "application/x-www-form-urlencoded"),
            (
                "User-Agent",
                "Mozilla/5.0 (X11; Linux x86_64; rv:146.0) Gecko/20100101 Firefox/146.0"
            ),
            ("Origin", "https://software.kmutnb.ac.th"),
            ("Referer", "https://software.kmutnb.ac.th/adobe-reserve/processa.php"),
        ]
    );
}

#[test]
fn successful_login_yields_the_reservation_request() {
    // Mocked transport: the portal answers the login with 200, so the flow
    // hands back the reservation request carrying the computed expiry date.
    let cfg = kmutnb();
    let date = try_make_date_expire(2024, 6).unwrap();
    let req = after_login(&cfg, &date, 200).unwrap();
    assert_eq!(req.url, cfg.reserve_url);
    assert!(req.form.iter().any(|(k, v)| k.as_str() == "date_expire" && v.as_str() == "2024-07-01"));
}

#[test]
fn failed_login_yields_no_reservation_request() {
    // Mocked transport: the portal answers the login with 403, so the flow
    // reports a login failure and no reservation request exists.
    let cfg = kmutnb();
    let date = try_make_date_expire(2024, 6).unwrap();
    let r = after_login(&cfg, &date, 403);
    assert_eq!(r.unwrap_err(), FlowError::LoginFailed { status: 403 });
}

#[test]
fn flow_error_message_names_the_login_failure() {
    let e = FlowError::LoginFailed { status: 403 };
    assert_eq!(e.message(), "login failed with non-success status");
}

#[test]
fn state_machine_walks_start_to_done() {
    let p = advance(Phase::Start, RunEvent::LoginResponse { success: true }).unwrap();
    assert_eq!(p, Phase::LoggedIn);
    let p = advance(p, RunEvent::ReservationIssued).unwrap();
    assert_eq!(p, Phase::ReservationSubmitted);
    let p = advance(p, RunEvent::ResponseShown).unwrap();
    assert_eq!(p, Phase::Done);
}

#[test]
fn state_machine_stops_on_failed_login_and_after_done() {
    assert_eq!(advance(Phase::Start, RunEvent::LoginResponse { success: false }), None);
    assert_eq!(advance(Phase::Done, RunEvent::ResponseShown), None);
    assert_eq!(advance(Phase::Start, RunEvent::ReservationIssued), None);
    assert_eq!(advance(Phase::LoggedIn, RunEvent::LoginResponse { success: true }), None);
}

#[test]
fn todays_expiry_date_matches_the_pattern() {
    // Today's local date always has a month in 1 ..= 12 and, for any present
    // year, a target year with four digits, so a date comes back and matches
    // the fixed pattern.
    let s = date_expire_today().unwrap();
    let b = s.as_bytes();
    assert_eq!(b.len(), 10);
    assert!(b[..4].iter().all(|c| c.is_ascii_digit()));
    assert_eq!(b[4], b'-');
    assert!(b[5].is_ascii_digit() && b[6].is_ascii_digit());
    assert_eq!(&b[7..], b"-01");
}
