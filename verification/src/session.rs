//! Cookie-derived session credentials.
//!
//! A session is imported from an ordered sequence of browser cookie
//! records. Three names matter: the platform's session-identifier
//! cookie carries the numeric user id before the first `%` of its
//! value (the platform embeds the id before a URL-encoded separator);
//! the CSRF cookie carries the token attached to every request; a
//! third cookie names the account. When a name occurs more than once
//! the last record wins, as one forward scan leaves it. A load either
//! commits all credential fields at once or leaves the state exactly
//! as it was.

use vstd::prelude::*;
use crate::errors::SessionError;
use crate::headers::{check_header_value, valid_header_value};
use crate::model::{CookieItem, CookieItemV, cookie_views};

verus! {

/// Cookie name that carries the session identifier.
pub open spec fn sessionid_name() -> Seq<char> {
    "sessionid"@
}

/// Cookie name that carries the CSRF token.
pub open spec fn csrftoken_name() -> Seq<char> {
    "csrftoken"@
}

/// Cookie name that carries the account's username.
pub open spec fn ds_user_name() -> Seq<char> {
    "ds_user"@
}

/// Value of the last record with the given name, if any.
pub open spec fn last_cookie_value(records: Seq<CookieItemV>, name: Seq<char>) -> Option<Seq<char>>
    decreases records.len(),
{
    if records.len() == 0 {
        None
    } else if records.last().name == name {
        Some(records.last().value)
    } else {
        last_cookie_value(records.drop_last(), name)
    }
}

/// Number of characters before the first `%`, or the whole length when
/// none occurs.
pub open spec fn pct_prefix_len(s: Seq<char>) -> int
    decreases s.len(),
{
    if s.len() == 0 {
        0
    } else if s.first() == '%' {
        0
    } else {
        1 + pct_prefix_len(s.drop_first())
    }
}

/// The substring before the first `%`: the embedded user id of the
/// session-identifier cookie's value.
pub open spec fn prefix_before_pct(s: Seq<char>) -> Seq<char> {
    s.take(pct_prefix_len(s))
}

/// A scan that saw no `%` among the first `i` characters and, unless
/// it ran off the end, a `%` at position `i`, has found the prefix.
pub proof fn lemma_pct_prefix_len_is(s: Seq<char>, i: int)
    requires
        0 <= i <= s.len(),
        forall|j: int| 0 <= j < i ==> s[j] != '%',
        i < s.len() ==> s[i] == '%',
    ensures
        pct_prefix_len(s) == i,
    decreases s.len(),
{
    if i == 0 {
        if s.len() > 0 {
            assert(s[0] == '%');
        }
    } else {
        assert(s.first() == s[0]);
        assert(s.first() != '%');
        let t = s.drop_first();
        assert forall|j: int| 0 <= j < i - 1 implies t[j] != '%' by {
            assert(t[j] == s[j + 1]);
        }
        if i - 1 < t.len() {
            assert(t[i - 1] == s[i]);
        }
        lemma_pct_prefix_len_is(t, i - 1);
    }
}

/// Extract the substring of `value` before its first `%` — the user id
/// embedded in the session-identifier cookie's value.
pub fn user_id_of_session_value(value: &str) -> (r: String)
    ensures
        r@ == prefix_before_pct(value@),
{
    let len = value.unicode_len();
    let mut i: usize = 0;
    while i < len && value.get_char(i) != '%'
        invariant
            len == value@.len(),
            i <= len,
            forall|j: int| 0 <= j < i ==> value@[j] != '%',
        decreases len - i,
    {
        i += 1;
    }
    proof {
        lemma_pct_prefix_len_is(value@, i as int);
    }
    value.substring_char(0, i).to_owned()
}

/// The credential fields a loaded session holds, plus whether a load
/// has completed. `cookies_loaded` is true only after a record set
/// held both the session-identifier and the CSRF cookie.
pub struct SessionState {
    pub user_id: Option<String>,
    pub username: Option<String>,
    pub csrf_token: Option<String>,
    pub cookies_loaded: bool,
}

/// What a record set must yield for a load to succeed, and what it
/// then commits: both required cookies present.
pub open spec fn records_complete(records: Seq<CookieItemV>) -> bool {
    last_cookie_value(records, sessionid_name()) is Some
        && last_cookie_value(records, csrftoken_name()) is Some
}

/// What loading the record set `rs` into state `pre` yields: on a
/// complete set, state `post` committed with the user id cut before
/// the first `%` of the session cookie's value and result `r` the
/// success message; on an incomplete set, the error and `pre` kept
/// untouched.
pub open spec fn session_load_post(
    pre: SessionState,
    post: SessionState,
    r: Result<String, SessionError>,
    rs: Seq<CookieItemV>,
) -> bool {
    &&& (records_complete(rs) ==> {
        let sid = last_cookie_value(rs, sessionid_name()).unwrap();
        &&& (r matches Ok(m) && m@ == "Session loaded. User ID: "@ + prefix_before_pct(sid))
        &&& (post.user_id matches Some(u) && u@ == prefix_before_pct(sid))
        &&& (post.csrf_token matches Some(c) && c@ == last_cookie_value(
            rs,
            csrftoken_name(),
        ).unwrap())
        &&& (match last_cookie_value(rs, ds_user_name()) {
            Some(un) => post.username matches Some(x) && x@ == un,
            None => post.username == pre.username,
        })
        &&& post.cookies_loaded
    })
    &&& (!records_complete(rs) ==> r == Err::<String, SessionError>(
        SessionError::IncompleteCredentials,
    ) && post == pre)
}

/// The `name=value` jar lines of a record set, in record order,
/// keeping only lines that are well-formed header values.
pub open spec fn spec_cookie_lines(rs: Seq<CookieItemV>) -> Seq<Seq<char>>
    decreases rs.len(),
{
    if rs.len() == 0 {
        Seq::empty()
    } else {
        let rest = spec_cookie_lines(rs.drop_last());
        let line = rs.last().name + "="@ + rs.last().value;
        if valid_header_value(line) {
            rest.push(line)
        } else {
            rest
        }
    }
}

/// Render every record as a `name=value` jar line, dropping the ones
/// that cannot stand as a header value.
pub fn cookie_header_lines(records: &Vec<CookieItem>) -> (r: Vec<String>)
    ensures
        r@.map_values(|s: String| s@) == spec_cookie_lines(cookie_views(records@)),
{
    let ghost rv = cookie_views(records@);
    let n = records.len();
    let mut r: Vec<String> = Vec::new();
    let mut i: usize = 0;
    while i < n
        invariant
            n == records.len(),
            i <= n,
            rv == cookie_views(records@),
            rv.len() == n,
            r@.map_values(|s: String| s@) == spec_cookie_lines(rv.take(i as int)),
        decreases n - i,
    {
        proof {
            assert(rv.take(i as int + 1).drop_last() =~= rv.take(i as int));
            assert(rv.take(i as int + 1).last() == rv[i as int]);
            assert(rv[i as int] == records@[i as int]@);
        }
        let mut line: String = records[i].name.clone();
        line.append("=");
        line.append(records[i].value.as_str());
        if check_header_value(line.as_str()) {
            let ghost prev = r@;
            r.push(line);
            proof {
                assert(r@.map_values(|s: String| s@) =~= prev.map_values(|s: String| s@).push(
                    r@.last()@,
                ));
            }
        }
        i += 1;
    }
    proof {
        assert(rv.take(n as int) =~= rv);
    }
    r
}

impl SessionState {
    /// An empty session: nothing resolved, nothing loaded.
    pub fn new() -> (s: SessionState)
        ensures
            s.user_id is None,
            s.username is None,
            s.csrf_token is None,
            !s.cookies_loaded,
    {
        SessionState { user_id: None, username: None, csrf_token: None, cookies_loaded: false }
    }

    /// Scan a decoded record set and commit the credentials it holds.
    ///
    /// Succeeds exactly when both the session-identifier and the CSRF
    /// cookie occur; the user id is the session cookie value's prefix
    /// before its first `%`. On failure nothing changes.
    pub fn apply_records(&mut self, records: &Vec<CookieItem>) -> (r: Result<String, SessionError>)
        ensures
            session_load_post(*old(self), *final(self), r, cookie_views(records@)),
    {
        let ghost rv = cookie_views(records@);
        let sessionid_key: String = "sessionid".to_owned();
        let csrftoken_key: String = "csrftoken".to_owned();
        let ds_user_key: String = "ds_user".to_owned();
        let n = records.len();
        let mut sid: Option<String> = None;
        let mut csrf: Option<String> = None;
        let mut user: Option<String> = None;
        let mut i: usize = 0;
        while i < n
            invariant
                n == records.len(),
                i <= n,
                rv == cookie_views(records@),
                rv.len() == n,
                sessionid_key@ == sessionid_name(),
                csrftoken_key@ == csrftoken_name(),
                ds_user_key@ == ds_user_name(),
                (match last_cookie_value(rv.take(i as int), sessionid_name()) {
                    Some(v) => sid matches Some(s) && s@ == v,
                    None => sid is None,
                }),
                (match last_cookie_value(rv.take(i as int), csrftoken_name()) {
                    Some(v) => csrf matches Some(s) && s@ == v,
                    None => csrf is None,
                }),
                (match last_cookie_value(rv.take(i as int), ds_user_name()) {
                    Some(v) => user matches Some(s) && s@ == v,
                    None => user is None,
                }),
            decreases n - i,
        {
            proof {
                assert(rv.take(i as int + 1).drop_last() =~= rv.take(i as int));
                assert(rv.take(i as int + 1).last() == rv[i as int]);
                assert(rv[i as int] == records@[i as int]@);
            }
            if records[i].name == sessionid_key {
                sid = Some(records[i].value.clone());
            }
            if records[i].name == csrftoken_key {
                csrf = Some(records[i].value.clone());
            }
            if records[i].name == ds_user_key {
                user = Some(records[i].value.clone());
            }
            i += 1;
        }
        proof {
            assert(rv.take(n as int) =~= rv);
        }
        match (sid, csrf) {
            (Some(sid_value), Some(csrf_value)) => {
                let uid = user_id_of_session_value(sid_value.as_str());
                self.user_id = Some(uid.clone());
                self.csrf_token = Some(csrf_value);
                if let Some(username) = user {
                    self.username = Some(username);
                }
                self.cookies_loaded = true;
                Ok("Session loaded. User ID: ".to_owned().concat(uid.as_str()))
            },
            _ => Err(SessionError::IncompleteCredentials),
        }
    }
}

} // verus!
