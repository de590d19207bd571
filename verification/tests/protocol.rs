use ghostclient::client::GhostClient;
use ghostclient::codec::image_data_url;
use ghostclient::errors::{NetError, SessionError};
use ghostclient::headers::{check_header_value, fingerprint_headers};
use ghostclient::integrity::IntegrityTracker;
use ghostclient::json::{JsonEntry, JsonValue};
use ghostclient::pagination::{parse_page, PageWalk};

fn obj(entries: Vec<(&str, JsonValue)>) -> JsonValue {
    JsonValue::Obj(
        entries
            .into_iter()
            .map(|(k, v)| JsonEntry { key: k.to_string(), value: v })
            .collect(),
    )
}

fn jstr(s: &str) -> JsonValue {
    JsonValue::Str(s.to_string())
}

fn node(id: u32) -> JsonValue {
    obj(vec![(
        "node",
        obj(vec![
            ("id", jstr(&id.to_string())),
            ("username", jstr(&format!("user{}", id))),
            ("is_verified", JsonValue::Bool(true)),
        ]),
    )])
}

fn page(edge_name: &str, nodes: Vec<JsonValue>, count: u64, has_next: bool, cursor: Option<&str>) -> JsonValue {
    let mut page_info = vec![("has_next_page", JsonValue::Bool(has_next))];
    if let Some(c) = cursor {
        page_info.push(("end_cursor", jstr(c)));
    }
    obj(vec![(
        "data",
        obj(vec![(
            "user",
            obj(vec![(
                edge_name,
                obj(vec![
                    ("count", JsonValue::Num(count)),
                    ("edges", JsonValue::Arr(nodes)),
                    ("page_info", obj(page_info)),
                ]),
            )]),
        )]),
    )])
}

#[test]
fn tolerant_node_mapping_defaults_missing_fields() {
    let n = obj(vec![
        ("id", jstr("77")),
        ("full_name", JsonValue::Num(5)),
        ("is_private", jstr("yes")),
        ("category_name", jstr("Artist")),
    ]);
    let wrapped = page("edge_follow", vec![obj(vec![("node", n)])], 1, false, None);
    let parsed = parse_page(&wrapped, "edge_follow");
    assert_eq!(parsed.profiles.len(), 1);
    let p = &parsed.profiles[0];
    assert_eq!(p.id, "77");
    assert_eq!(p.username, "");
    assert_eq!(p.full_name, "");
    assert!(!p.is_private);
    assert!(!p.is_verified);
    assert_eq!(p.category_name.as_deref(), Some("Artist"));
    assert_eq!(p.profile_pic_url_hd, None);
}

#[test]
fn parse_page_degrades_wholly_missing_pieces() {
    let empty = obj(vec![("data", obj(vec![]))]);
    let parsed = parse_page(&empty, "edge_follow");
    assert_eq!(parsed.profiles.len(), 0);
    assert_eq!(parsed.count, 0);
    assert!(!parsed.has_next);
    assert!(parsed.end_cursor.is_none());
}

#[test]
fn edge_without_node_yields_default_profile() {
    let p = page("edge_followed_by", vec![obj(vec![("other", jstr("x"))])], 3, false, None);
    let parsed = parse_page(&p, "edge_followed_by");
    assert_eq!(parsed.profiles.len(), 1);
    assert_eq!(parsed.profiles[0].id, "");
    assert_eq!(parsed.profiles[0].username, "");
}

#[test]
fn two_page_walk_accumulates_sixty_profiles() {
    let first = page("edge_followed_by", (0..50).map(node).collect(), 60, true, Some("abc"));
    let second = page("edge_followed_by", (50..60).map(node).collect(), 60, false, None);

    let mut tracker = IntegrityTracker::new();
    let mut walk = PageWalk::new("followers");
    let mut events = Vec::new();

    let ev1 = walk.step(&first, "edge_followed_by", &mut tracker, 1_000);
    events.push(ev1);
    assert!(!walk.done);
    assert_eq!(walk.cursor.as_deref(), Some("abc"));

    let ev2 = walk.step(&second, "edge_followed_by", &mut tracker, 1_010);
    events.push(ev2);
    assert!(walk.done);

    assert_eq!(events.len(), 2);
    assert_eq!(events[0].stage, "followers");
    assert_eq!(events[0].current, 50);
    assert_eq!(events[0].total, 60);
    assert_eq!(events[1].current, 60);
    assert_eq!(events[1].total, 60);

    assert_eq!(walk.profiles.len(), 60);
    assert_eq!(walk.profiles[0].id, "0");
    assert_eq!(walk.profiles[59].id, "59");
    assert_eq!(tracker.scanned, 100);
    assert_eq!(tracker.last_scan, 1_010);
}

#[test]
fn walk_stops_when_cursor_missing_despite_next_flag() {
    let only = page("edge_follow", vec![node(1)], 10, true, None);
    let mut tracker = IntegrityTracker::new();
    let mut walk = PageWalk::new("following");
    walk.step(&only, "edge_follow", &mut tracker, 5);
    assert!(walk.done);
    assert!(walk.cursor.is_none());
    assert_eq!(walk.profiles.len(), 1);
}

#[test]
fn walk_captures_total_on_first_page_only() {
    let first = page("edge_follow", vec![node(1)], 0, true, Some("c1"));
    let second = page("edge_follow", vec![node(2)], 99, false, None);
    let mut tracker = IntegrityTracker::new();
    let mut walk = PageWalk::new("following");
    walk.step(&first, "edge_follow", &mut tracker, 5);
    let ev = walk.step(&second, "edge_follow", &mut tracker, 6);
    assert_eq!(walk.total, 0);
    assert_eq!(ev.total, 0);
}

#[test]
fn fingerprint_headers_shape() {
    let hs = fingerprint_headers(&None);
    assert_eq!(hs.len(), 11);
    assert_eq!(hs[0].name, "User-Agent");
    assert!(hs[0].value.contains("Chrome/133.0.0.0"));
    assert_eq!(hs[3].name, "X-IG-App-ID");
    assert_eq!(hs[3].value, "936619743392459");
    assert_eq!(hs[6].name, "Origin");
    assert_eq!(hs[6].value, "https://www.instagram.com");
    assert_eq!(hs[10].name, "Sec-Fetch-Site");
    assert_eq!(hs[10].value, "same-origin");
    assert!(!hs.iter().any(|h| h.name == "X-CSRFToken"));
}

#[test]
fn csrf_header_attached_when_token_valid() {
    let hs = fingerprint_headers(&Some("tok-123".to_string()));
    assert_eq!(hs.len(), 12);
    assert_eq!(hs[11].name, "X-CSRFToken");
    assert_eq!(hs[11].value, "tok-123");
}

#[test]
fn invalid_csrf_token_is_silently_omitted() {
    let hs = fingerprint_headers(&Some("bad\ntoken".to_string()));
    assert_eq!(hs.len(), 11);
    assert!(!hs.iter().any(|h| h.name == "X-CSRFToken"));
}

#[test]
fn header_value_validity_rules() {
    assert!(check_header_value("plain value"));
    assert!(check_header_value("tab\tinside"));
    assert!(check_header_value(""));
    assert!(!check_header_value("line\nbreak"));
    assert!(!check_header_value("ctl\u{1}char"));
    assert!(!check_header_value("del\u{7f}char"));
}

#[test]
fn load_session_from_real_json_bytes() {
    let mut c = GhostClient::new();
    let bytes: Vec<u8> = String::from(
        "[{\"name\":\"sessionid\",\"value\":\"314%3Azzz\",\"domain\":\".example.net\"},\
          {\"name\":\"csrftoken\",\"value\":\"ct9\"},\
          {\"name\":\"ds_user\",\"value\":\"op\",\"domain\":null}]",
    )
    .into_bytes();
    let msg = c.load_session(&bytes).unwrap();
    assert_eq!(msg, "Session loaded. User ID: 314");
    assert_eq!(c.session.user_id.as_deref(), Some("314"));
    assert_eq!(c.session.username.as_deref(), Some("op"));
    assert!(c.session.cookies_loaded);
}

#[test]
fn load_session_rejects_undecodable_bytes() {
    let mut c = GhostClient::new();
    let r = c.load_session(&b"not json at all".to_vec());
    assert_eq!(r.unwrap_err(), SessionError::Malformed);
    assert!(!c.session.cookies_loaded);
}

#[test]
fn load_session_rejects_wrongly_typed_records() {
    let mut c = GhostClient::new();
    let r = c.load_session(&b"[{\"name\":\"sessionid\",\"value\":7}]".to_vec());
    assert_eq!(r.unwrap_err(), SessionError::Malformed);
    let r2 = c.load_session(&b"{\"name\":\"a\",\"value\":\"b\"}".to_vec());
    assert_eq!(r2.unwrap_err(), SessionError::Malformed);
    let r3 = c.load_session(&b"[{\"name\":\"a\",\"value\":\"b\",\"domain\":5}]".to_vec());
    assert_eq!(r3.unwrap_err(), SessionError::Malformed);
}

#[test]
fn load_session_incomplete_credentials_from_bytes() {
    let mut c = GhostClient::new();
    let r = c.load_session(&b"[{\"name\":\"csrftoken\",\"value\":\"x\"}]".to_vec());
    assert_eq!(r.unwrap_err(), SessionError::IncompleteCredentials);
}

#[test]
fn unfollow_without_session_is_refused_before_any_request() {
    let c = GhostClient::new();
    let r = c.unfollow_request("12345");
    assert!(matches!(r, Err(NetError::SessionRequired)));
}

#[test]
fn unfollow_request_describes_the_destroy_call() {
    let mut c = GhostClient::new();
    c.load_session(
        &b"[{\"name\":\"sessionid\",\"value\":\"1%a\"},{\"name\":\"csrftoken\",\"value\":\"ct\"}]"
            .to_vec(),
    )
    .unwrap();
    let req = c.unfollow_request("999").unwrap();
    assert_eq!(req.url, "https://www.instagram.com/api/v1/friendships/destroy/999/");
    assert_eq!(req.form_user_id, "999");
    assert_eq!(req.headers.len(), 12);
    assert_eq!(req.headers[11].name, "X-CSRFToken");
    assert_eq!(req.headers[11].value, "ct");
}

#[test]
fn unfollow_outcome_follows_status_class() {
    assert_eq!(GhostClient::unfollow_outcome(200), Ok(true));
    assert_eq!(GhostClient::unfollow_outcome(204), Ok(true));
    assert_eq!(GhostClient::unfollow_outcome(299), Ok(true));
    assert_eq!(GhostClient::unfollow_outcome(302), Err(NetError::HttpStatus(302)));
    assert_eq!(GhostClient::unfollow_outcome(404), Err(NetError::HttpStatus(404)));
    assert_eq!(GhostClient::unfollow_outcome(199), Err(NetError::HttpStatus(199)));
}

#[test]
fn extract_user_id_reads_nested_field() {
    let v = obj(vec![("data", obj(vec![("user", obj(vec![("id", jstr("424242"))]))]))]);
    assert_eq!(GhostClient::extract_user_id(&v).unwrap(), "424242");
    let missing = obj(vec![("data", obj(vec![("user", obj(vec![]))]))]);
    assert!(matches!(GhostClient::extract_user_id(&missing), Err(NetError::NotFound)));
}

#[test]
fn extract_settings_username_reads_form_data() {
    let v = obj(vec![("form_data", obj(vec![("username", jstr("me"))]))]);
    assert_eq!(GhostClient::extract_settings_username(&v).unwrap(), "me");
    let missing = obj(vec![("form_data", obj(vec![]))]);
    assert!(matches!(
        GhostClient::extract_settings_username(&missing),
        Err(NetError::NotFound)
    ));
}

#[test]
fn profile_from_user_response_tolerates_absent_node() {
    let v = obj(vec![("data", obj(vec![]))]);
    let p = GhostClient::profile_from_user_response(&v);
    assert_eq!(p.id, "");
    assert_eq!(p.username, "");
    let full = obj(vec![(
        "data",
        obj(vec![(
            "user",
            obj(vec![
                ("id", jstr("5")),
                ("username", jstr("me")),
                ("profile_pic_url_hd", jstr("https://cdn.example/hd.jpg")),
            ]),
        )]),
    )]);
    let p2 = GhostClient::profile_from_user_response(&full);
    assert_eq!(p2.id, "5");
    assert_eq!(p2.profile_pic_url_hd.as_deref(), Some("https://cdn.example/hd.jpg"));
}

#[test]
fn data_url_wraps_jpeg_content() {
    let body = vec![b'M', b'a', b'n'];
    let url = image_data_url(&Some("image/jpeg".to_string()), &body);
    assert!(url.starts_with("data:image/jpeg;base64,"));
    assert_eq!(url, "data:image/jpeg;base64,TWFu");
}

#[test]
fn data_url_defaults_content_type() {
    let url = image_data_url(&None, &vec![0xFF]);
    assert!(url.starts_with("data:image/jpeg;base64,"));
    assert_eq!(url, "data:image/jpeg;base64,/w==");
}

#[test]
fn data_url_keeps_other_content_types() {
    let url = image_data_url(&Some("image/png".to_string()), &Vec::new());
    assert_eq!(url, "data:image/png;base64,");
}

#[test]
fn json_lookup_last_duplicate_wins() {
    let v = obj(vec![("k", jstr("first")), ("k", jstr("second"))]);
    match v.get("k") {
        Some(JsonValue::Str(s)) => assert_eq!(s, "second"),
        other => panic!("unexpected lookup result: {:?}", other),
    }
}
