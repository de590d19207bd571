//! Cursor pagination over a listing endpoint.
//!
//! Each page of a listing response carries an edge collection under
//! `data.user.<edge name>`, a declared total count, and page-info with
//! a continuation flag and an opaque cursor. [`parse_page`] maps one
//! page tolerantly into profiles — absent or wrongly-typed fields
//! degrade to defaults rather than aborting the page — and
//! [`PageWalk::step`] folds one parsed page into the walk's state,
//! yielding the progress event to emit. The walk continues only while
//! the server both signals a next page and supplies a cursor; a
//! missing cursor under a raised flag ends the walk without error.

use vstd::prelude::*;
use crate::integrity::IntegrityTracker;
use crate::json::{
    spec_arr_field, spec_bool_field, spec_str_field, spec_str_field_or_empty, spec_u64_field,
    spec_path2, json_lookup, JsonValue,
};
use crate::model::{Profile, ProfileV, ProgressEvent};

verus! {

/// The edge collection's container: `data.user.<edge>` of a response,
/// degrading to `Null`.
pub open spec fn spec_edge_data(v: JsonValue, edge: Seq<char>) -> JsonValue {
    match json_lookup(spec_path2(v, "data"@, "user"@), edge) {
        Some(x) => x,
        None => JsonValue::Null,
    }
}

/// The declared total count of the listing; 0 when absent.
pub open spec fn spec_page_count(v: JsonValue, edge: Seq<char>) -> u64 {
    spec_u64_field(spec_edge_data(v, edge), "count"@)
}

/// The node of each edge, `Null` where an edge has none.
pub open spec fn spec_edge_nodes(v: JsonValue, edge: Seq<char>) -> Seq<JsonValue> {
    let edges = spec_arr_field(spec_edge_data(v, edge), "edges"@);
    Seq::new(
        edges.len(),
        |i: int|
            match json_lookup(edges[i], "node"@) {
                Some(n) => n,
                None => JsonValue::Null,
            },
    )
}

/// The page-info object of the page, degrading to `Null`.
pub open spec fn spec_page_info(v: JsonValue, edge: Seq<char>) -> JsonValue {
    match json_lookup(spec_edge_data(v, edge), "page_info"@) {
        Some(x) => x,
        None => JsonValue::Null,
    }
}

/// Whether the server signals a further page; `false` when absent.
pub open spec fn spec_has_next(v: JsonValue, edge: Seq<char>) -> bool {
    spec_bool_field(spec_page_info(v, edge), "has_next_page"@)
}

/// The continuation cursor, when present as a string.
pub open spec fn spec_end_cursor(v: JsonValue, edge: Seq<char>) -> Option<Seq<char>> {
    spec_str_field(spec_page_info(v, edge), "end_cursor"@)
}

/// The tolerant mapping of one node into a profile: every string
/// field degrades to empty, every flag to `false`, the two optional
/// fields to `None`.
pub open spec fn spec_profile_of(node: JsonValue) -> ProfileV {
    ProfileV {
        id: spec_str_field_or_empty(node, "id"@),
        username: spec_str_field_or_empty(node, "username"@),
        full_name: spec_str_field_or_empty(node, "full_name"@),
        profile_pic_url: spec_str_field_or_empty(node, "profile_pic_url"@),
        profile_pic_url_hd: spec_str_field(node, "profile_pic_url_hd"@),
        is_verified: spec_bool_field(node, "is_verified"@),
        is_private: spec_bool_field(node, "is_private"@),
        is_business_account: spec_bool_field(node, "is_business_account"@),
        is_professional_account: spec_bool_field(node, "is_professional_account"@),
        category_name: spec_str_field(node, "category_name"@),
    }
}

/// Map one node into a profile, tolerantly.
pub fn profile_from_node(node: &JsonValue) -> (p: Profile)
    ensures
        p@ == spec_profile_of(*node),
{
    Profile {
        id: node.str_field_or_empty("id"),
        username: node.str_field_or_empty("username"),
        full_name: node.str_field_or_empty("full_name"),
        profile_pic_url: node.str_field_or_empty("profile_pic_url"),
        profile_pic_url_hd: node.str_field("profile_pic_url_hd"),
        is_verified: node.bool_field("is_verified"),
        is_private: node.bool_field("is_private"),
        is_business_account: node.bool_field("is_business_account"),
        is_professional_account: node.bool_field("is_professional_account"),
        category_name: node.str_field("category_name"),
    }
}

/// A profile with every field at its degraded default, as a wholly
/// absent node yields.
pub fn default_profile() -> (p: Profile)
    ensures
        p@ == spec_profile_of(JsonValue::Null),
{
    Profile {
        id: String::new(),
        username: String::new(),
        full_name: String::new(),
        profile_pic_url: String::new(),
        profile_pic_url_hd: None,
        is_verified: false,
        is_private: false,
        is_business_account: false,
        is_professional_account: false,
        category_name: None,
    }
}

/// One parsed page: the mapped profiles, the declared total, and the
/// continuation state.
pub struct PageData {
    pub profiles: Vec<Profile>,
    pub count: u64,
    pub has_next: bool,
    pub end_cursor: Option<String>,
}

/// Parse one page of a listing response.
pub fn parse_page(v: &JsonValue, edge_name: &str) -> (r: PageData)
    ensures
        r.count == spec_page_count(*v, edge_name@),
        r.has_next == spec_has_next(*v, edge_name@),
        (match spec_end_cursor(*v, edge_name@) {
            Some(s) => r.end_cursor matches Some(x) && x@ == s,
            None => r.end_cursor is None,
        }),
        r.profiles@.len() == spec_edge_nodes(*v, edge_name@).len(),
        forall|j: int|
            0 <= j < r.profiles@.len() ==> r.profiles@[j]@ == spec_profile_of(
                #[trigger] spec_edge_nodes(*v, edge_name@)[j],
            ),
{
    let ghost nodes = spec_edge_nodes(*v, edge_name@);
    let edge_data_opt: Option<&JsonValue> = match v.path2("data", "user") {
        Some(u) => u.get(edge_name),
        None => None,
    };
    match edge_data_opt {
        Some(ed) => {
            proof {
                assert(*ed == spec_edge_data(*v, edge_name@));
            }
            let count = ed.u64_field("count");
            let (has_next, end_cursor): (bool, Option<String>) = match ed.get("page_info") {
                Some(pi) => (pi.bool_field("has_next_page"), pi.str_field("end_cursor")),
                None => (false, None),
            };
            let mut profiles: Vec<Profile> = Vec::new();
            match ed.arr_field("edges") {
                Some(edges) => {
                    let n = edges.len();
                    let mut i: usize = 0;
                    while i < n
                        invariant
                            n == edges.len(),
                            i <= n,
                            edges@ == spec_arr_field(spec_edge_data(*v, edge_name@), "edges"@),
                            nodes == spec_edge_nodes(*v, edge_name@),
                            nodes.len() == n,
                            profiles@.len() == i,
                            forall|j: int|
                                0 <= j < i ==> profiles@[j]@ == spec_profile_of(
                                    #[trigger] nodes[j],
                                ),
                        decreases n - i,
                    {
                        match edges[i].get("node") {
                            Some(node) => {
                                profiles.push(profile_from_node(node));
                            },
                            None => {
                                profiles.push(default_profile());
                            },
                        }
                        i += 1;
                    }
                },
                None => {
                },
            }
            PageData { profiles, count, has_next, end_cursor }
        },
        None => {
            proof {
                assert(spec_edge_data(*v, edge_name@) == JsonValue::Null);
            }
            PageData { profiles: Vec::new(), count: 0, has_next: false, end_cursor: None }
        },
    }
}

/// The state of one cursor walk over a listing.
pub struct PageWalk {
    /// Which listing this walk reads, `"followers"` or `"following"`.
    pub stage: String,
    /// Profiles accumulated so far, in server order.
    pub profiles: Vec<Profile>,
    /// Total the server declared on the first page; 0 while unknown.
    pub total: u64,
    /// Cursor to send with the next fetch; `None` on the first page.
    pub cursor: Option<String>,
    /// Pages folded in so far.
    pub pages_fetched: u64,
    /// Whether the walk has ended.
    pub done: bool,
}

impl PageWalk {
    /// Start a walk for the given stage.
    pub fn new(stage: &str) -> (w: PageWalk)
        ensures
            w.stage@ == stage@,
            w.profiles@.len() == 0,
            w.total == 0,
            w.cursor is None,
            w.pages_fetched == 0,
            !w.done,
    {
        PageWalk {
            stage: stage.to_owned(),
            profiles: Vec::new(),
            total: 0,
            cursor: None,
            pages_fetched: 0,
            done: false,
        }
    }

    /// Fold one fetched page into the walk.
    ///
    /// Appends every mapped node, captures the declared total on the
    /// first page only, records a page's worth of scanning on the
    /// integrity tracker, and ends the walk unless the server both
    /// signals a further page and supplies a cursor. Returns the
    /// progress event to emit for this page.
    pub fn step(&mut self, page: &JsonValue, edge_name: &str, tracker: &mut IntegrityTracker, now: u32) -> (ev: ProgressEvent)
        requires
            !old(self).done,
            old(self).pages_fetched < u64::MAX,
            old(self).profiles@.len() + spec_edge_nodes(*page, edge_name@).len() <= u64::MAX,
        ensures
            final(self).stage == old(self).stage,
            final(self).profiles@.len() == old(self).profiles@.len() + spec_edge_nodes(
                *page,
                edge_name@,
            ).len(),
            forall|j: int|
                0 <= j < old(self).profiles@.len() ==> final(self).profiles@[j] == old(self).profiles@[j],
            forall|j: int|
                old(self).profiles@.len() <= j < final(self).profiles@.len() ==> final(self).profiles@[j]@ == spec_profile_of(
                    #[trigger] spec_edge_nodes(*page, edge_name@)[j - old(self).profiles@.len()],
                ),
            final(self).total == if old(self).pages_fetched == 0 {
                spec_page_count(*page, edge_name@)
            } else {
                old(self).total
            },
            final(self).pages_fetched == old(self).pages_fetched + 1,
            final(self).done == !(spec_has_next(*page, edge_name@) && spec_end_cursor(
                *page,
                edge_name@,
            ) is Some),
            (match spec_end_cursor(*page, edge_name@) {
                Some(s) => final(self).cursor matches Some(x) && x@ == s,
                None => final(self).cursor is None,
            }),
            final(tracker).scanned == (old(tracker).scanned + 50) % 0x1_0000_0000,
            final(tracker).last_scan == now,
            ev.stage == final(self).stage,
            ev.current == final(self).profiles@.len(),
            ev.total == final(self).total,
    {
        let mut data = parse_page(page, edge_name);
        if self.pages_fetched == 0 {
            self.total = data.count;
        }
        self.profiles.append(&mut data.profiles);
        self.done = !(data.has_next && data.end_cursor.is_some());
        self.cursor = data.end_cursor;
        self.pages_fetched = self.pages_fetched + 1;
        tracker.record_scan(50, now);
        ProgressEvent {
            stage: self.stage.clone(),
            current: self.profiles.len() as u64,
            total: self.total,
        }
    }
}

} // verus!
