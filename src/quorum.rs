//! Adaptive quorum curves: the required approval as a function of a risk
//! signal.
//!
//! The depth curve maps a cumulative depth to a fixed-point quorum between a
//! floor and a ceiling by harmonic decay. The performance curve maps a 0..=100
//! score to a whole percentage by a linear penalty; it is left unclamped, so a
//! score of 0 asks for 101%, which no approval can reach.
use vstd::prelude::*;
use vstd::arithmetic::div_mod::{lemma_div_is_ordered, lemma_div_is_ordered_by_denominator};
use vstd::arithmetic::mul::lemma_mul_inequality;
use crate::fixed_point::{SCALE, mul_div_saturating};

verus! {

/// Default lowest quorum: 15%.
pub const QUORUM_FLOOR: u128 = 150_000_000_000_000_000;

/// Default highest quorum: 45%.
pub const QUORUM_CEILING: u128 = 450_000_000_000_000_000;

/// Default depth at which the normalized depth reaches 1.0.
pub const DEPTH_THRESHOLD_K: u128 = 100_000_000;

/// The approval that a perfect performance score requires, in percent.
pub const PERFORMANCE_BASE_QUORUM: u8 = 51;

/// Configuration of the depth curve; all three values are fixed-point.
#[derive(Debug, Clone, Copy, PartialEq, Eq, Structural)]
pub struct QuorumCurve {
    pub floor: u128,
    pub ceiling: u128,
    pub threshold: u128,
}

impl QuorumCurve {
    /// Floor and ceiling are percentages in `[0, SCALE]` with floor at most
    /// ceiling, and the threshold is positive.
    pub open spec fn wf(self) -> bool {
        self.floor <= self.ceiling && self.ceiling <= SCALE && self.threshold > 0
    }

    /// The curve with the default floor, ceiling and threshold.
    pub open spec fn standard_spec() -> QuorumCurve {
        QuorumCurve { floor: QUORUM_FLOOR, ceiling: QUORUM_CEILING, threshold: DEPTH_THRESHOLD_K }
    }

    /// The curve with the default floor, ceiling and threshold.
    pub fn standard() -> (r: QuorumCurve)
        ensures
            r == Self::standard_spec(),
            r.wf(),
    {
        QuorumCurve { floor: QUORUM_FLOOR, ceiling: QUORUM_CEILING, threshold: DEPTH_THRESHOLD_K }
    }

    /// Depth as a fixed-point multiple of the threshold.
    pub open spec fn normalized(self, depth: int) -> int {
        depth * SCALE / (self.threshold as int)
    }

    /// The weight of the span `ceiling - floor`: `SCALE` at `x == 0`,
    /// shrinking towards 0 as `x` grows.
    pub open spec fn decay(x: int) -> int {
        SCALE * SCALE / (SCALE + x)
    }

    /// The share of the span that the decay keeps.
    pub open spec fn weighted(self, decay: int) -> int {
        decay * (self.ceiling - self.floor) / (SCALE as int)
    }

    /// The required quorum at `depth`: `min(floor + weighted, ceiling)`.
    pub open spec fn quorum_at(self, depth: int) -> int {
        let q = self.floor + self.weighted(Self::decay(self.normalized(depth)));
        if q < self.ceiling {
            q
        } else {
            self.ceiling as int
        }
    }

    /// The required quorum at `depth`. Every step runs through the
    /// saturating primitive; with a `u64` depth none of them can saturate,
    /// and the fallbacks, which could only follow an overflow, give the
    /// ceiling, the most cautious answer.
    pub fn required_quorum(&self, depth: u64) -> (r: u128)
        requires
            self.wf(),
        ensures
            r as int == self.quorum_at(depth as int),
    {
        let ghost d = depth as int;
        let ghost k = self.threshold as int;
        let ghost span = self.ceiling - self.floor;
        proof {
            assert(0 <= d * SCALE <= u64::MAX as int * SCALE) by (nonlinear_arith)
                requires 0 <= d <= u64::MAX;
            assert(d * SCALE / k <= d * SCALE) by (nonlinear_arith)
                requires d * SCALE >= 0, k >= 1;
            assert(0 <= d * SCALE / k) by (nonlinear_arith)
                requires d * SCALE >= 0, k >= 1;
        }
        let x = match mul_div_saturating(depth as u128, SCALE, self.threshold) {
            Ok(v) => v,
            Err(_) => {
                return self.ceiling;
            },
        };
        let den = match SCALE.checked_add(x) {
            Some(v) => v,
            None => {
                return self.ceiling;
            },
        };
        proof {
            lemma_div_is_ordered_by_denominator(SCALE * SCALE, SCALE as int, den as int);
            assert(SCALE * SCALE / (SCALE as int) == SCALE);
        }
        let decay = match mul_div_saturating(SCALE, SCALE, den) {
            Ok(v) => v,
            Err(_) => {
                return self.ceiling;
            },
        };
        proof {
            assert(0 <= decay * span <= SCALE * SCALE) by (nonlinear_arith)
                requires 0 <= decay <= SCALE, 0 <= span <= SCALE;
            assert(decay * span / (SCALE as int) <= SCALE) by (nonlinear_arith)
                requires 0 <= decay * span <= SCALE * SCALE;
        }
        let weighted = match mul_div_saturating(decay, self.ceiling - self.floor, SCALE) {
            Ok(v) => v,
            Err(_) => {
                return self.ceiling;
            },
        };
        let q = self.floor + weighted;
        if q < self.ceiling {
            q
        } else {
            self.ceiling
        }
    }
}

/// The required quorum of the default curve at the protocol's total depth.
pub fn calculate_adaptive_quorum(total_protocol_depth: u64) -> (r: u128)
    ensures
        r as int == QuorumCurve::standard_spec().quorum_at(total_protocol_depth as int),
        QUORUM_FLOOR <= r <= QUORUM_CEILING,
        total_protocol_depth == 0 ==> r == QUORUM_CEILING,
{
    let c = QuorumCurve::standard();
    proof {
        lemma_quorum_within_bounds(c, total_protocol_depth as int);
        lemma_quorum_at_zero_is_ceiling(c);
    }
    c.required_quorum(total_protocol_depth)
}

/// The depth curve stays within `[floor, ceiling]` at every depth.
pub proof fn lemma_quorum_within_bounds(c: QuorumCurve, depth: int)
    requires
        c.wf(),
        depth >= 0,
    ensures
        c.floor <= c.quorum_at(depth) <= c.ceiling,
{
    let x = c.normalized(depth);
    let k = QuorumCurve::decay(x);
    assert(x >= 0) by (nonlinear_arith)
        requires x == depth * SCALE / (c.threshold as int), depth >= 0, c.threshold >= 1;
    assert(k >= 0) by (nonlinear_arith)
        requires k == SCALE * SCALE / (SCALE + x), x >= 0;
    assert(c.weighted(k) >= 0) by (nonlinear_arith)
        requires k >= 0, c.ceiling >= c.floor,
            c.weighted(k) == k * (c.ceiling - c.floor) / (SCALE as int);
}

/// At zero depth the depth curve asks for its ceiling.
pub proof fn lemma_quorum_at_zero_is_ceiling(c: QuorumCurve)
    requires
        c.wf(),
    ensures
        c.quorum_at(0) == c.ceiling,
{
    assert(c.normalized(0) == 0);
    assert(QuorumCurve::decay(0) == SCALE) by (nonlinear_arith);
    let span = c.ceiling - c.floor;
    assert(SCALE * span / (SCALE as int) == span) by (nonlinear_arith);
}

/// The depth curve never rises as depth grows.
pub proof fn lemma_quorum_non_increasing(c: QuorumCurve, d1: int, d2: int)
    requires
        c.wf(),
        0 <= d1 <= d2,
    ensures
        c.quorum_at(d2) <= c.quorum_at(d1),
{
    lemma_mul_inequality(d1, d2, SCALE as int);
    assert(0 <= d1 * SCALE) by (nonlinear_arith) requires d1 >= 0;
    lemma_div_is_ordered(d1 * SCALE, d2 * SCALE, c.threshold as int);
    let x1 = c.normalized(d1);
    let x2 = c.normalized(d2);
    assert(0 <= x1) by (nonlinear_arith)
        requires x1 == d1 * SCALE / (c.threshold as int), d1 * SCALE >= 0, c.threshold > 0;
    lemma_div_is_ordered_by_denominator(SCALE * SCALE, SCALE + x1, SCALE + x2);
    let k1 = QuorumCurve::decay(x1);
    let k2 = QuorumCurve::decay(x2);
    assert(k2 >= 0) by (nonlinear_arith)
        requires k2 == SCALE * SCALE / (SCALE + x2), x2 >= 0;
    let span = c.ceiling - c.floor;
    lemma_mul_inequality(k2, k1, span as int);
    lemma_div_is_ordered(k2 * span, k1 * span, SCALE as int);
}

/// The performance curve: `51 + (100 - min(score, 100)) / 2`.
pub open spec fn performance_quorum_spec(score: int) -> int {
    let s = if score > 100 { 100 } else { score };
    PERFORMANCE_BASE_QUORUM + (100 - s) / 2
}

/// The approval, in percent, that a project with this performance score
/// must reach; 101 at score 0, above any approval.
pub fn performance_quorum(score: u8) -> (r: u8)
    ensures
        r as int == performance_quorum_spec(score as int),
{
    let s: u8 = if score > 100 { 100 } else { score };
    let penalty: u8 = (100 - s) / 2;
    PERFORMANCE_BASE_QUORUM.saturating_add(penalty)
}

/// The performance curve never rises as the score grows, and stays within
/// `[51, 101]`.
pub proof fn lemma_performance_quorum_non_increasing(s1: int, s2: int)
    requires
        0 <= s1 <= s2,
    ensures
        performance_quorum_spec(s2) <= performance_quorum_spec(s1),
        51 <= performance_quorum_spec(s1) <= 101,
{
}

} // verus!
