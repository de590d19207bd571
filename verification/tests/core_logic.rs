use ghostclient::integrity::IntegrityTracker;
use ghostclient::model::{CookieItem, Profile};
use ghostclient::pacing::stealth_delay_ms;
use ghostclient::resolver::{build_scan_result, resolve};
use ghostclient::session::{cookie_header_lines, SessionState};
use ghostclient::errors::{NetError, SessionError};

fn cookie(name: &str, value: &str) -> CookieItem {
    CookieItem { name: name.to_string(), value: value.to_string(), domain: None }
}

fn profile(id: &str, username: &str) -> Profile {
    Profile {
        id: id.to_string(),
        username: username.to_string(),
        full_name: String::new(),
        profile_pic_url: String::new(),
        profile_pic_url_hd: None,
        is_verified: false,
        is_private: false,
        is_business_account: false,
        is_professional_account: false,
        category_name: None,
    }
}

#[test]
fn session_load_resolves_user_id_before_percent() {
    let mut s = SessionState::new();
    let records = vec![
        cookie("sessionid", "7411%3Aabcdef"),
        cookie("csrftoken", "tok123"),
        cookie("ds_user", "operator"),
    ];
    let r = s.apply_records(&records);
    assert_eq!(r.unwrap(), "Session loaded. User ID: 7411");
    assert!(s.cookies_loaded);
    assert_eq!(s.user_id.as_deref(), Some("7411"));
    assert_eq!(s.csrf_token.as_deref(), Some("tok123"));
    assert_eq!(s.username.as_deref(), Some("operator"));
}

#[test]
fn session_value_without_percent_is_whole_id() {
    let mut s = SessionState::new();
    let records = vec![cookie("sessionid", "9001"), cookie("csrftoken", "t")];
    assert!(s.apply_records(&records).is_ok());
    assert_eq!(s.user_id.as_deref(), Some("9001"));
}

#[test]
fn session_missing_csrf_fails_and_keeps_state() {
    let mut s = SessionState::new();
    let good = vec![cookie("sessionid", "42%x"), cookie("csrftoken", "t1")];
    s.apply_records(&good).unwrap();

    let bad = vec![cookie("sessionid", "777%y"), cookie("other", "z")];
    let r = s.apply_records(&bad);
    assert!(r.is_err());
    assert_eq!(s.user_id.as_deref(), Some("42"));
    assert_eq!(s.csrf_token.as_deref(), Some("t1"));
    assert!(s.cookies_loaded);
}

#[test]
fn session_missing_sessionid_fails() {
    let mut s = SessionState::new();
    let bad = vec![cookie("csrftoken", "t1"), cookie("ds_user", "u")];
    assert!(s.apply_records(&bad).is_err());
    assert!(!s.cookies_loaded);
    assert!(s.user_id.is_none());
}

#[test]
fn session_last_duplicate_cookie_wins() {
    let mut s = SessionState::new();
    let records = vec![
        cookie("sessionid", "1%a"),
        cookie("csrftoken", "first"),
        cookie("sessionid", "2%b"),
        cookie("csrftoken", "second"),
    ];
    s.apply_records(&records).unwrap();
    assert_eq!(s.user_id.as_deref(), Some("2"));
    assert_eq!(s.csrf_token.as_deref(), Some("second"));
}

#[test]
fn cookie_lines_render_and_filter() {
    let records = vec![cookie("a", "b"), cookie("bad", "x\ny"), cookie("c", "d")];
    let lines = cookie_header_lines(&records);
    assert_eq!(lines, vec!["a=b".to_string(), "c=d".to_string()]);
}

#[test]
fn integrity_baseline_is_full() {
    let t = IntegrityTracker::new();
    assert_eq!(t.get_stealth_integrity(1_000_000), 100);
}

#[test]
fn integrity_hundred_profiles_cost_five() {
    let mut t = IntegrityTracker::new();
    t.record_scan(100, 50_000);
    assert_eq!(t.get_stealth_integrity(50_000), 95);
}

#[test]
fn integrity_partial_hundred_costs_nothing() {
    let mut t = IntegrityTracker::new();
    t.record_scan(99, 50_000);
    assert_eq!(t.get_stealth_integrity(50_000), 100);
}

#[test]
fn integrity_idle_minutes_regenerate() {
    let mut t = IntegrityTracker::new();
    t.record_scan(400, 10_000);
    assert_eq!(t.get_stealth_integrity(10_000), 80);
    assert_eq!(t.get_stealth_integrity(10_000 + 600), 90);
    assert_eq!(t.get_stealth_integrity(10_000 + 100_000), 100);
}

#[test]
fn integrity_score_stays_in_range() {
    let mut t = IntegrityTracker::new();
    t.record_scan(4_000_000, 77);
    assert_eq!(t.get_stealth_integrity(77), 0);
    let mut now = 77u32;
    for _ in 0..50 {
        now += 3_600;
        let sc = t.get_stealth_integrity(now);
        assert!(sc <= 100);
    }
}

#[test]
fn resolver_returns_non_followers_in_order() {
    let followers = vec![profile("1", "ana"), profile("2", "bo")];
    let following = vec![
        profile("3", "cy"),
        profile("1", "ana"),
        profile("4", "dee"),
        profile("2", "bo"),
    ];
    let traitors = resolve(&followers, &following);
    let ids: Vec<&str> = traitors.iter().map(|p| p.id.as_str()).collect();
    assert_eq!(ids, vec!["3", "4"]);
}

#[test]
fn resolver_is_idempotent_on_same_inputs() {
    let followers = vec![profile("1", "ana")];
    let following = vec![profile("1", "ana"), profile("2", "bo")];
    let a = resolve(&followers, &following);
    let b = resolve(&followers, &following);
    let ids_a: Vec<&str> = a.iter().map(|p| p.id.as_str()).collect();
    let ids_b: Vec<&str> = b.iter().map(|p| p.id.as_str()).collect();
    assert_eq!(ids_a, ids_b);
}

#[test]
fn resolver_empty_followers_keeps_everything() {
    let followers: Vec<Profile> = Vec::new();
    let following = vec![profile("9", "x"), profile("8", "y")];
    let traitors = resolve(&followers, &following);
    assert_eq!(traitors.len(), 2);
    assert_eq!(traitors[0].id, "9");
    assert_eq!(traitors[1].id, "8");
}

#[test]
fn scan_result_carries_counts() {
    let followers = vec![profile("1", "ana")];
    let following = vec![profile("1", "ana"), profile("2", "bo")];
    let r = build_scan_result(&followers, &following, 1234);
    assert_eq!(r.total_followers, 1);
    assert_eq!(r.total_following, 2);
    assert_eq!(r.scan_time_ms, 1234);
    assert_eq!(r.traitors.len(), 1);
    assert_eq!(r.traitors[0].id, "2");
}

#[test]
fn stealth_delay_stays_in_band() {
    assert_eq!(stealth_delay_ms(0), 1000);
    assert_eq!(stealth_delay_ms(1499), 2499);
    assert_eq!(stealth_delay_ms(1500), 1000);
    for e in [7u64, 999, 123_456_789, u64::MAX] {
        let d = stealth_delay_ms(e);
        assert!((1000..2500).contains(&d));
    }
}

#[test]
fn error_messages_render_flat() {
    assert_eq!(SessionError::NoSavedSession.message(), "No saved session found");
    assert_eq!(
        SessionError::IncompleteCredentials.message(),
        "Invalid cookies file: missing sessionid or csrftoken"
    );
    assert_eq!(SessionError::Malformed.message(), "Invalid cookies file: could not decode records");
    assert_eq!(NetError::SessionRequired.message(), "Session not loaded");
    assert_eq!(NetError::Transport("offline".to_string()).message(), "Transport failure: offline");
    assert_eq!(NetError::Decode.message(), "Response body was not valid JSON");
    assert_eq!(NetError::NotFound.message(), "Expected field absent from response");
    assert_eq!(NetError::HttpStatus(500).message(), "Request failed with an error status");
}
