//! The traitor resolver: pure computation over two completed listings.
//!
//! An account is a "traitor" when the operator follows it but it does
//! not follow back: its id occurs in the following list and is absent
//! from the id set of the followers list. The resolver keeps the
//! following list's original order and performs no de-duplication.

use vstd::prelude::*;
use crate::model::{Profile, ScanResult};

verus! {

/// Whether some follower carries the given id.
pub open spec fn followers_contain_id(followers: Seq<Profile>, id: Seq<char>) -> bool {
    exists|k: int| 0 <= k < followers.len() && followers[k].id@ == id
}

/// The traitors: every entry of `following` whose id is not among the
/// followers' ids, in `following`'s original order.
pub open spec fn spec_traitors(followers: Seq<Profile>, following: Seq<Profile>) -> Seq<Profile>
    decreases following.len(),
{
    if following.len() == 0 {
        Seq::empty()
    } else {
        let rest = spec_traitors(followers, following.drop_last());
        if followers_contain_id(followers, following.last().id@) {
            rest
        } else {
            rest.push(following.last())
        }
    }
}

/// The resolver's result is the filter of `following` by absence from
/// the followers' id set: membership in both directions, order kept by
/// construction.
pub proof fn lemma_traitors_exact(followers: Seq<Profile>, following: Seq<Profile>)
    ensures
        spec_traitors(followers, following) == following.filter(
            |p: Profile| !followers_contain_id(followers, p.id@),
        ),
    decreases following.len(),
{
    reveal(Seq::filter);
    if following.len() > 0 {
        lemma_traitors_exact(followers, following.drop_last());
    }
}

/// Re-invocation on the same inputs yields the same traitors: any two
/// results that meet the resolver's contract are equal, because the
/// contract pins the result to a function of the inputs alone.
pub proof fn lemma_resolve_deterministic(
    followers: Seq<Profile>,
    following: Seq<Profile>,
    r1: Seq<Profile>,
    r2: Seq<Profile>,
)
    requires
        r1 == spec_traitors(followers, following),
        r2 == spec_traitors(followers, following),
    ensures
        r1 == r2,
{
}

/// Whether any profile of `haystack` carries the id of `needle`.
fn contains_id(haystack: &Vec<Profile>, id: &String) -> (r: bool)
    ensures
        r == followers_contain_id(haystack@, id@),
{
    let n = haystack.len();
    let mut i: usize = 0;
    while i < n
        invariant
            n == haystack.len(),
            i <= n,
            forall|k: int| 0 <= k < i ==> haystack@[k].id@ != id@,
        decreases n - i,
    {
        if haystack[i].id == *id {
            return true;
        }
        i += 1;
    }
    false
}

/// Resolve the asymmetric set: the elements of `following` whose id is
/// absent from the id set of `followers`, in `following`'s order. Two
/// invocations on equal inputs give equal results, since the contract
/// pins the result to a function of the inputs.
pub fn resolve(followers: &Vec<Profile>, following: &Vec<Profile>) -> (r: Vec<Profile>)
    ensures
        r@ == spec_traitors(followers@, following@),
{
    let n = following.len();
    let mut r: Vec<Profile> = Vec::new();
    let mut i: usize = 0;
    while i < n
        invariant
            n == following.len(),
            i <= n,
            r@ == spec_traitors(followers@, following@.take(i as int)),
        decreases n - i,
    {
        proof {
            assert(following@.take(i as int + 1).drop_last() =~= following@.take(i as int));
            assert(following@.take(i as int + 1).last() == following@[i as int]);
        }
        if !contains_id(followers, &following[i].id) {
            r.push(following[i].clone());
        }
        i += 1;
    }
    proof {
        assert(following@.take(n as int) =~= following@);
    }
    r
}

/// Assemble a scan's outcome from the two fetched listings and the
/// elapsed wall time.
pub fn build_scan_result(followers: &Vec<Profile>, following: &Vec<Profile>, scan_time_ms: u64) -> (r: ScanResult)
    requires
        followers@.len() <= u32::MAX,
        following@.len() <= u32::MAX,
    ensures
        r.traitors@ == spec_traitors(followers@, following@),
        r.total_followers == followers@.len(),
        r.total_following == following@.len(),
        r.scan_time_ms == scan_time_ms,
{
    let traitors = resolve(followers, following);
    ScanResult {
        traitors,
        total_followers: followers.len() as u32,
        total_following: following.len() as u32,
        scan_time_ms,
    }
}

} // verus!
