//! Fence tokens: the identifiers by which competing openers are ordered.
use vstd::prelude::*;

verus! {

/// The token an opener presents: its boot timestamp in milliseconds and its
/// deployment generation. Tokens are ordered by boot timestamp first and by
/// generation second; an absent generation is older than any present one.
#[derive(Clone, Copy, Debug, PartialEq, Eq, Structural)]
pub struct FenceToken {
    pub boot_ts: u64,
    pub deploy_generation: Option<u64>,
}

/// Whether generation `a` is strictly newer than generation `b`.
pub open spec fn generation_newer(a: Option<u64>, b: Option<u64>) -> bool {
    match (a, b) {
        (Some(x), Some(y)) => x > y,
        (Some(_), None) => true,
        (None, _) => false,
    }
}

impl FenceToken {
    /// Whether `self` is strictly newer than `other`.
    pub open spec fn newer_than(self, other: FenceToken) -> bool {
        self.boot_ts > other.boot_ts || (self.boot_ts == other.boot_ts && generation_newer(
            self.deploy_generation,
            other.deploy_generation,
        ))
    }

    /// Builds a token.
    pub fn new(boot_ts: u64, deploy_generation: Option<u64>) -> (t: FenceToken)
        ensures
            t.boot_ts == boot_ts,
            t.deploy_generation == deploy_generation,
    {
        FenceToken { boot_ts, deploy_generation }
    }

    /// Compares two tokens: true exactly when `self` is strictly newer.
    pub fn is_newer_than(&self, other: &FenceToken) -> (r: bool)
        ensures
            r == self.newer_than(*other),
    {
        if self.boot_ts != other.boot_ts {
            self.boot_ts > other.boot_ts
        } else {
            match (self.deploy_generation, other.deploy_generation) {
                (Some(x), Some(y)) => x > y,
                (Some(_), None) => true,
                (None, _) => false,
            }
        }
    }
}

/// "Newer than" is a strict total order on tokens: nothing is newer than
/// itself, it is transitive, and of two different tokens one is newer.
pub proof fn newer_than_is_strict_total_order(a: FenceToken, b: FenceToken, c: FenceToken)
    ensures
        !a.newer_than(a),
        a.newer_than(b) && b.newer_than(c) ==> a.newer_than(c),
        a.newer_than(b) ==> !b.newer_than(a),
        a != b ==> a.newer_than(b) || b.newer_than(a),
{
}

} // verus!
