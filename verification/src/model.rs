//! Value types exchanged with callers.
//!
//! A `Profile` is a snapshot of a remote account, built tolerantly from
//! a server response: missing fields degrade to empty strings, `false`
//! or `None` rather than failing, because the upstream schema is not
//! guaranteed. `CookieItem` is one imported browser cookie record;
//! `ScanResult` is the outcome of one full traitor scan.

use vstd::prelude::*;

verus! {

/// Ghost-level image of a [`Profile`]: every string as a `Seq<char>`.
pub struct ProfileV {
    pub id: Seq<char>,
    pub username: Seq<char>,
    pub full_name: Seq<char>,
    pub profile_pic_url: Seq<char>,
    pub profile_pic_url_hd: Option<Seq<char>>,
    pub is_verified: bool,
    pub is_private: bool,
    pub is_business_account: bool,
    pub is_professional_account: bool,
    pub category_name: Option<Seq<char>>,
}

/// A remote account snapshot. `id` is the stable identifier and the
/// equality key of the resolver; every other field is descriptive.
#[derive(Debug)]
pub struct Profile {
    pub id: String,
    pub username: String,
    pub full_name: String,
    pub profile_pic_url: String,
    pub profile_pic_url_hd: Option<String>,
    pub is_verified: bool,
    pub is_private: bool,
    pub is_business_account: bool,
    pub is_professional_account: bool,
    pub category_name: Option<String>,
}

impl View for Profile {
    type V = ProfileV;

    open spec fn view(&self) -> ProfileV {
        ProfileV {
            id: self.id@,
            username: self.username@,
            full_name: self.full_name@,
            profile_pic_url: self.profile_pic_url@,
            profile_pic_url_hd: match self.profile_pic_url_hd {
                Some(s) => Some(s@),
                None => None,
            },
            is_verified: self.is_verified,
            is_private: self.is_private,
            is_business_account: self.is_business_account,
            is_professional_account: self.is_professional_account,
            category_name: match self.category_name {
                Some(s) => Some(s@),
                None => None,
            },
        }
    }
}

impl Clone for Profile {
    /// A clone carries the exact same field values.
    fn clone(&self) -> (res: Self)
        ensures
            res == *self,
    {
        Profile {
            id: self.id.clone(),
            username: self.username.clone(),
            full_name: self.full_name.clone(),
            profile_pic_url: self.profile_pic_url.clone(),
            profile_pic_url_hd: match &self.profile_pic_url_hd {
                Some(s) => Some(s.clone()),
                None => None,
            },
            is_verified: self.is_verified,
            is_private: self.is_private,
            is_business_account: self.is_business_account,
            is_professional_account: self.is_professional_account,
            category_name: match &self.category_name {
                Some(s) => Some(s.clone()),
                None => None,
            },
        }
    }
}

/// Ghost-level image of a [`CookieItem`].
pub struct CookieItemV {
    pub name: Seq<char>,
    pub value: Seq<char>,
    pub domain: Option<Seq<char>>,
}

/// One imported browser cookie record; lives only while importing or
/// exporting session state.
#[derive(Debug)]
pub struct CookieItem {
    pub name: String,
    pub value: String,
    pub domain: Option<String>,
}

impl View for CookieItem {
    type V = CookieItemV;

    open spec fn view(&self) -> CookieItemV {
        CookieItemV {
            name: self.name@,
            value: self.value@,
            domain: match self.domain {
                Some(s) => Some(s@),
                None => None,
            },
        }
    }
}

/// Views of a whole record sequence.
pub open spec fn cookie_views(records: Seq<CookieItem>) -> Seq<CookieItemV> {
    records.map_values(|c: CookieItem| c@)
}

impl Clone for CookieItem {
    /// A clone carries the exact same field values.
    fn clone(&self) -> (res: Self)
        ensures
            res == *self,
    {
        CookieItem {
            name: self.name.clone(),
            value: self.value.clone(),
            domain: match &self.domain {
                Some(s) => Some(s.clone()),
                None => None,
            },
        }
    }
}

/// Outcome of one full traitor scan: the accounts followed that do not
/// follow back, with the two list sizes and the wall time spent.
#[derive(Debug)]
pub struct ScanResult {
    pub traitors: Vec<Profile>,
    pub total_followers: u32,
    pub total_following: u32,
    pub scan_time_ms: u64,
}

/// A progress notification emitted after each fetched page.
#[derive(Debug)]
pub struct ProgressEvent {
    /// Which listing is being walked, `"followers"` or `"following"`.
    pub stage: String,
    /// Number of profiles accumulated so far.
    pub current: u64,
    /// Total the server declared on the first page; 0 while unknown.
    pub total: u64,
}

} // verus!
