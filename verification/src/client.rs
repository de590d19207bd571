//! The client facade: session state, integrity tracking, and the
//! decision and extraction logic of every operation.
//!
//! The transport that actually sends requests lives outside the
//! library; it hands response bytes and statuses in as plain values
//! and takes fully-built request descriptions back out. At most one
//! stateful operation runs at a time, which the owner enforces by
//! holding this value behind one lock.

use vstd::prelude::*;
use crate::codec::{decode_records, json_parse, parse_json_bytes, spec_records_of};
use crate::errors::{NetError, SessionError};
use crate::headers::{fingerprint_headers, header_views, spec_fingerprint_headers, HeaderPair};
use crate::integrity::IntegrityTracker;
use crate::json::{json_lookup, spec_path2, spec_str_field, JsonValue};
use crate::model::Profile;
use crate::pagination::{default_profile, profile_from_node, spec_profile_of};
use crate::session::{session_load_post, SessionState};

verus! {

/// The unfollow endpoint for a target account id.
pub open spec fn spec_destroy_url(target: Seq<char>) -> Seq<char> {
    "https://www.instagram.com/api/v1/friendships/destroy/"@ + target + "/"@
}

/// One fully-described mutating unfollow request, ready for a
/// transport to send.
pub struct UnfollowRequest {
    pub url: String,
    pub form_user_id: String,
    pub headers: Vec<HeaderPair>,
}

/// The node the profile endpoints describe a user under, degrading to
/// `Null` when the response lacks it.
pub open spec fn spec_user_node(v: JsonValue) -> JsonValue {
    spec_path2(v, "data"@, "user"@)
}

/// The username the account-settings form response declares, if any.
pub open spec fn spec_settings_username(v: JsonValue) -> Option<Seq<char>> {
    spec_str_field(
        match json_lookup(v, "form_data"@) {
            Some(x) => x,
            None => JsonValue::Null,
        },
        "username"@,
    )
}

/// Client state: the loaded session credentials and the integrity
/// counters. The transport handle itself lives with the owner.
pub struct GhostClient {
    pub session: SessionState,
    pub tracker: IntegrityTracker,
}

impl GhostClient {
    /// A fresh client: empty session, untouched integrity counters.
    pub fn new() -> (c: GhostClient)
        ensures
            c.session.user_id is None,
            c.session.username is None,
            c.session.csrf_token is None,
            !c.session.cookies_loaded,
            c.tracker.scanned == 0,
            c.tracker.last_scan == 0,
    {
        GhostClient { session: SessionState::new(), tracker: IntegrityTracker::new() }
    }

    /// Import a session from exported cookie bytes.
    ///
    /// The bytes must decode as an array of cookie records; the
    /// records must include the session-identifier and CSRF cookies.
    /// Undecodable input is malformed; an incomplete record set fails
    /// and leaves the previous state untouched.
    pub fn load_session(&mut self, bytes: &Vec<u8>) -> (r: Result<String, SessionError>)
        ensures
            final(self).tracker == old(self).tracker,
            (match json_parse(bytes@) {
                None => r == Err::<String, SessionError>(SessionError::Malformed) && final(self).session == old(self).session,
                Some(v) => match spec_records_of(v) {
                    None => r == Err::<String, SessionError>(SessionError::Malformed) && final(self).session == old(self).session,
                    Some(rs) => session_load_post(old(self).session, final(self).session, r, rs),
                },
            }),
    {
        match parse_json_bytes(bytes) {
            None => Err(SessionError::Malformed),
            Some(v) => match decode_records(&v) {
                None => Err(SessionError::Malformed),
                Some(records) => self.session.apply_records(&records),
            },
        }
    }

    /// The fingerprint header set for the current session state.
    pub fn get_headers(&self) -> (r: Vec<HeaderPair>)
        ensures
            header_views(r@) == spec_fingerprint_headers(
                match self.session.csrf_token {
                    Some(t) => Some(t@),
                    None => None,
                },
            ),
    {
        fingerprint_headers(&self.session.csrf_token)
    }

    /// The cached logged-in user id, if a session has resolved one.
    pub fn get_logged_user_id(&self) -> (r: Option<String>)
        ensures
            (match self.session.user_id {
                Some(u) => r matches Some(x) && x@ == u@,
                None => r is None,
            }),
    {
        match &self.session.user_id {
            Some(u) => Some(u.clone()),
            None => None,
        }
    }

    /// Read the user id out of a profile-lookup response: the string
    /// under `data.user.id`, or `NotFound` when the response, though
    /// well-formed, does not carry it.
    pub fn extract_user_id(v: &JsonValue) -> (r: Result<String, NetError>)
        ensures
            (match spec_str_field(spec_user_node(*v), "id"@) {
                Some(s) => r matches Ok(u) && u@ == s,
                None => r == Err::<String, NetError>(NetError::NotFound),
            }),
    {
        match v.path2("data", "user") {
            Some(user) => match user.str_field("id") {
                Some(id) => Ok(id),
                None => Err(NetError::NotFound),
            },
            None => Err(NetError::NotFound),
        }
    }

    /// Read the logged-in username out of an account-settings form
    /// response, or `NotFound` when it is absent.
    pub fn extract_settings_username(v: &JsonValue) -> (r: Result<String, NetError>)
        ensures
            (match spec_settings_username(*v) {
                Some(s) => r matches Ok(u) && u@ == s,
                None => r == Err::<String, NetError>(NetError::NotFound),
            }),
    {
        match v.get("form_data") {
            Some(form) => match form.str_field("username") {
                Some(u) => Ok(u),
                None => Err(NetError::NotFound),
            },
            None => Err(NetError::NotFound),
        }
    }

    /// Map a profile-lookup response into a profile, tolerantly: an
    /// absent user node yields the all-default profile, as every
    /// missing field degrades rather than fails.
    pub fn profile_from_user_response(v: &JsonValue) -> (p: Profile)
        ensures
            p@ == spec_profile_of(spec_user_node(*v)),
    {
        match v.path2("data", "user") {
            Some(node) => profile_from_node(node),
            None => default_profile(),
        }
    }

    /// Build the mutating unfollow request for a target account.
    ///
    /// Fails with `SessionRequired`, before anything is sent, unless a
    /// session with both required cookies has been loaded; otherwise
    /// describes the exact request: the destroy endpoint for the
    /// target, the target id as the form body, and the full
    /// fingerprint header set.
    pub fn unfollow_request(&self, target_user_id: &str) -> (r: Result<UnfollowRequest, NetError>)
        ensures
            !self.session.cookies_loaded ==> r == Err::<UnfollowRequest, NetError>(
                NetError::SessionRequired,
            ),
            self.session.cookies_loaded ==> (r matches Ok(req) && {
                &&& req.url@ == spec_destroy_url(target_user_id@)
                &&& req.form_user_id@ == target_user_id@
                &&& header_views(req.headers@) == spec_fingerprint_headers(
                    match self.session.csrf_token {
                        Some(t) => Some(t@),
                        None => None,
                    },
                )
            }),
    {
        if !self.session.cookies_loaded {
            return Err(NetError::SessionRequired);
        }
        let mut url: String = "https://www.instagram.com/api/v1/friendships/destroy/".to_owned();
        url.append(target_user_id);
        url.append("/");
        Ok(
            UnfollowRequest {
                url,
                form_user_id: target_user_id.to_owned(),
                headers: fingerprint_headers(&self.session.csrf_token),
            },
        )
    }

    /// Judge an unfollow response: success exactly on a success-range
    /// HTTP status, otherwise the status is surfaced as the error.
    pub fn unfollow_outcome(status: u16) -> (r: Result<bool, NetError>)
        ensures
            200 <= status < 300 ==> r == Ok::<bool, NetError>(true),
            !(200 <= status < 300) ==> r == Err::<bool, NetError>(NetError::HttpStatus(status)),
    {
        if 200 <= status && status < 300 {
            Ok(true)
        } else {
            Err(NetError::HttpStatus(status))
        }
    }
}

} // verus!
