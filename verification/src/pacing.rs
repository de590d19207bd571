//! Stealth pacing between requests.
//!
//! Fixed-interval request timing is a common automation signal, so a
//! randomized pause is taken between successive pages of a walk and
//! before any mutating action — never before the first request of an
//! operation or after its last page. The caller supplies the entropy;
//! this module fixes the policy: a delay drawn uniformly from
//! [1000 ms, 2500 ms).

use vstd::prelude::*;

verus! {

/// The inclusive lower bound of a stealth delay, in milliseconds.
pub open spec fn delay_floor_ms() -> int {
    1000
}

/// The exclusive upper bound of a stealth delay, in milliseconds.
pub open spec fn delay_ceiling_ms() -> int {
    2500
}

/// Map raw entropy onto the stealth delay range. A uniform `entropy`
/// yields a delay uniform over [1000 ms, 2500 ms) up to the negligible
/// modulo bias of the 64-bit draw.
pub fn stealth_delay_ms(entropy: u64) -> (d: u64)
    ensures
        delay_floor_ms() <= d < delay_ceiling_ms(),
        d == delay_floor_ms() + entropy % 1500,
{
    1000 + entropy % 1500
}

} // verus!
