//! Detection-risk ("integrity") scoring.
//!
//! Two counters feed an advisory score in `[0, 100]`: the cumulative
//! number of profiles scanned, and the unix-seconds timestamp of the
//! last scan activity. Scanning costs 5 points per 100 profiles; each
//! idle minute since the last scan regenerates one point, capped at
//! 100; the result is clamped to `[0, 100]`. The score never gates an
//! operation — it is surfaced to the operator only.

use vstd::prelude::*;

verus! {

/// Owned, injectable scan-volume tracker.
///
/// `scanned` is the cumulative number of profiles scanned and
/// `last_scan` the unix-seconds timestamp of the most recent scan
/// (0 meaning "never"). Both only change through [`record_scan`].
#[derive(Clone, Copy, PartialEq, Eq, Structural, Debug)]
pub struct IntegrityTracker {
    pub scanned: u32,
    pub last_scan: u32,
}

impl IntegrityTracker {
    /// 5 points of penalty per full 100 profiles scanned.
    pub open spec fn spec_penalty(self) -> int {
        (self.scanned as int / 100) * 5
    }

    /// Whole idle minutes since the last scan; 0 if nothing was ever
    /// recorded or the clock reads earlier than the last scan.
    pub open spec fn spec_idle_minutes(self, now: u32) -> int {
        if self.last_scan > 0 && now >= self.last_scan {
            (now as int - self.last_scan as int) / 60
        } else {
            0
        }
    }

    /// Idle regeneration, one point per idle minute, capped at 100.
    pub open spec fn spec_regen(self, now: u32) -> int {
        if self.spec_idle_minutes(now) > 100 {
            100
        } else {
            self.spec_idle_minutes(now)
        }
    }

    /// The advisory score: `100 - penalty + regen`, clamped to `[0, 100]`.
    pub open spec fn spec_score(self, now: u32) -> int {
        let raw = 100 - self.spec_penalty() + self.spec_regen(now);
        if raw < 0 {
            0
        } else if raw > 100 {
            100
        } else {
            raw
        }
    }

    /// A fresh tracker: nothing scanned, no activity recorded.
    pub fn new() -> (t: IntegrityTracker)
        ensures
            t.scanned == 0,
            t.last_scan == 0,
    {
        IntegrityTracker { scanned: 0, last_scan: 0 }
    }

    /// Record `count` freshly scanned profiles at time `now`
    /// (unix seconds). The cumulative counter wraps as a 32-bit adder
    /// would; the activity timestamp is overwritten.
    pub fn record_scan(&mut self, count: u32, now: u32)
        ensures
            final(self).scanned == (old(self).scanned + count) % 0x1_0000_0000,
            final(self).last_scan == now,
    {
        let sum: u64 = (self.scanned as u64) + (count as u64);
        self.scanned = (sum % 0x1_0000_0000u64) as u32;
        self.last_scan = now;
    }

    /// The current integrity score, given the present unix time.
    pub fn get_stealth_integrity(&self, now: u32) -> (score: u8)
        ensures
            score as int == self.spec_score(now),
            score <= 100,
    {
        let penalty: u32 = (self.scanned / 100) * 5;
        let idle_minutes: u32 = if self.last_scan > 0 && now >= self.last_scan {
            (now - self.last_scan) / 60
        } else {
            0
        };
        let regen: u32 = if idle_minutes > 100 { 100 } else { idle_minutes };
        let raw: i64 = 100i64 - (penalty as i64) + (regen as i64);
        if raw < 0 {
            0
        } else if raw > 100 {
            100
        } else {
            raw as u8
        }
    }
}

/// The score is always within `[0, 100]`, whatever was recorded and
/// whatever the clock reads.
pub proof fn lemma_score_bounded(t: IntegrityTracker, now: u32)
    ensures
        0 <= t.spec_score(now) <= 100,
{
}

/// A tracker with no recorded activity scores the full baseline of 100.
pub proof fn lemma_fresh_score_full(t: IntegrityTracker, now: u32)
    requires
        t.scanned == 0,
        t.last_scan == 0,
    ensures
        t.spec_score(now) == 100,
{
}

/// Recording 100 scanned profiles with no idle time drops the score by
/// exactly 5 below the baseline of 100.
pub proof fn lemma_hundred_profiles_cost_five(t: IntegrityTracker, now: u32)
    requires
        t.scanned == 100,
        t.last_scan == now,
    ensures
        t.spec_score(now) == 95,
{
}

} // verus!
