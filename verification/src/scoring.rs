//! The formulas of the learning engine, each as a function of plain numbers.

use crate::fixed::{
    all_at_most, isqrt, lemma_mean_bounds, max_int, mean, mean_of, min_int, sample_variance,
    sample_variance_of, sqrt, variance, variance_of, MAX_MAGNITUDE, SCALE, SCALE_SQ,
};
use vstd::prelude::*;

verus! {

/// The improvement above which a strategy has done well, in millionths.
pub const GOOD_IMPROVEMENT: u64 = 1_200_000;

/// The improvement above which a strategy has done very well, in millionths.
pub const STRONG_IMPROVEMENT: u64 = 1_500_000;

/// The fewest samples on either side from which significance is estimated.
pub const MIN_SIGNIFICANCE_SAMPLES: usize = 5;

/// The number of scored hours from which the temporal coverage is complete.
pub const FULL_COVERAGE_HOURS: usize = 12;

/// The credit for a temporal coverage that is not complete, in millionths.
pub const PARTIAL_COVERAGE_CREDIT: u64 = 400_000;

/// `optimized` over `baseline`, in millionths; one whole where the baseline is nothing.
pub open spec fn spec_improvement(optimized: int, baseline: int) -> int {
    if baseline > 0 {
        optimized * SCALE / baseline
    } else {
        SCALE as int
    }
}

/// One whole for a good improvement, else what the improvement adds to one whole.
pub open spec fn spec_success_rate(improvement: int) -> int {
    if improvement > GOOD_IMPROVEMENT {
        SCALE as int
    } else {
        max_int(improvement - SCALE, 0)
    }
}

/// `recent` against `older`, less one whole, in millionths and rounded
/// towards zero; nothing where `older` is nothing.
pub open spec fn spec_trend(recent: int, older: int) -> int {
    if older <= 0 {
        0
    } else if recent >= older {
        (recent - older) * SCALE / older
    } else {
        -((older - recent) * SCALE / older)
    }
}

/// Six tenths for the volume of samples, which is complete at a hundred,
/// and four tenths for the size of the improvement.
pub open spec fn spec_effectiveness_confidence(
    optimized_samples: int,
    baseline_samples: int,
    improvement: int,
) -> int {
    let volume = min_int((optimized_samples + baseline_samples) * 10_000, SCALE as int);
    let size: int = if improvement > STRONG_IMPROVEMENT {
        SCALE as int
    } else if improvement > GOOD_IMPROVEMENT {
        800_000
    } else {
        500_000
    };
    (6 * volume + 4 * size) / 10
}

/// A mean score weighted for consistency: the mean over one whole plus the variance.
pub open spec fn spec_weight(mean_score: int, variance_sq: int) -> int {
    mean_score * SCALE_SQ / (SCALE_SQ + variance_sq)
}

/// The weight of a bucket of scores.
pub open spec fn spec_bucket_weight(scores: Seq<u64>) -> int {
    spec_weight(mean(scores), variance(scores))
}

/// How far the means of two groups of speeds lie apart, measured in
/// standard errors of the pooled sample variance: a third of the
/// t-statistic, capped at one whole. Nothing where either group has fewer
/// than five items or the speeds do not vary.
pub open spec fn spec_significance(baseline: Seq<u64>, optimized: Seq<u64>) -> int {
    if baseline.len() < MIN_SIGNIFICANCE_SAMPLES || optimized.len() < MIN_SIGNIFICANCE_SAMPLES {
        0
    } else {
        let pooled = (sample_variance(baseline) + sample_variance(optimized)) / 2;
        let error_sq = pooled * SCALE / (baseline.len() as int) + pooled * SCALE / (
        optimized.len() as int);
        let error = sqrt(error_sq);
        if pooled == 0 || error == 0 {
            0
        } else {
            let apart = if mean(optimized) >= mean(baseline) {
                mean(optimized) - mean(baseline)
            } else {
                mean(baseline) - mean(optimized)
            };
            min_int(apart * 1_000 * SCALE / error / 3, SCALE as int)
        }
    }
}

/// Three tenths for the volume of training samples, which is complete at a
/// thousand; four tenths for the mean confidence of the strategies; three
/// tenths for the temporal coverage, which is complete at twelve scored hours.
pub open spec fn spec_model_confidence(
    training_samples: int,
    strategy_confidences: Seq<u64>,
    scored_hours: int,
) -> int {
    let volume = min_int(training_samples * 1_000, SCALE as int);
    let coverage: int = if scored_hours >= FULL_COVERAGE_HOURS {
        SCALE as int
    } else {
        PARTIAL_COVERAGE_CREDIT as int
    };
    min_int((3 * volume + 4 * mean(strategy_confidences) + 3 * coverage) / 10, SCALE as int)
}

/// Seven tenths of the hour's weight and three tenths of the day's.
pub open spec fn spec_time_confidence(hourly: int, weekly: int) -> int {
    min_int((7 * hourly + 3 * weekly) / 10, SCALE as int)
}

/// Four tenths for the volume of samples, which is complete at five hundred;
/// four tenths for the confidence in the effectiveness; two tenths for the model's.
pub open spec fn spec_analysis_confidence(samples: int, effectiveness: int, model: int) -> int {
    (4 * min_int(samples * 2_000, SCALE as int) + 4 * effectiveness + 2 * model) / 10
}

/// `optimized` over `baseline`, in millionths.
pub fn improvement(optimized: u64, baseline: u64) -> (r: u64)
    requires
        optimized <= MAX_MAGNITUDE,
    ensures
        r == spec_improvement(optimized as int, baseline as int),
        r <= MAX_MAGNITUDE * SCALE,
{
    if baseline > 0 {
        proof {
            assert(optimized * SCALE <= MAX_MAGNITUDE * SCALE) by (nonlinear_arith)
                requires
                    optimized <= MAX_MAGNITUDE,
                    SCALE == 1_000_000,
            ;
            assert(optimized * SCALE / (baseline as int) <= optimized * SCALE) by (nonlinear_arith)
                requires
                    baseline >= 1,
                    optimized * SCALE >= 0,
            ;
        }
        optimized * SCALE / baseline
    } else {
        SCALE
    }
}

/// The share of successes that an improvement stands for.
pub fn success_rate(improvement: u64) -> (r: u64)
    ensures
        r == spec_success_rate(improvement as int),
        r <= SCALE,
{
    if improvement > GOOD_IMPROVEMENT {
        SCALE
    } else if improvement > SCALE {
        improvement - SCALE
    } else {
        0
    }
}

/// `recent` against `older`, less one whole.
pub fn trend(recent: u64, older: u64) -> (r: i64)
    requires
        recent <= MAX_MAGNITUDE,
        older <= MAX_MAGNITUDE,
    ensures
        r == spec_trend(recent as int, older as int),
{
    if older == 0 {
        0
    } else if recent >= older {
        let gap = recent - older;
        proof {
            assert(gap * SCALE <= MAX_MAGNITUDE * SCALE) by (nonlinear_arith)
                requires
                    gap <= MAX_MAGNITUDE,
                    SCALE == 1_000_000,
            ;
            assert(0 <= gap * SCALE / (older as int) <= gap * SCALE) by (nonlinear_arith)
                requires
                    older >= 1,
                    gap * SCALE >= 0,
            ;
        }
        (gap * SCALE / older) as i64
    } else {
        let gap = older - recent;
        proof {
            assert(gap * SCALE <= MAX_MAGNITUDE * SCALE) by (nonlinear_arith)
                requires
                    gap <= MAX_MAGNITUDE,
                    SCALE == 1_000_000,
            ;
            assert(0 <= gap * SCALE / (older as int) <= gap * SCALE) by (nonlinear_arith)
                requires
                    older >= 1,
                    gap * SCALE >= 0,
            ;
        }
        -((gap * SCALE / older) as i64)
    }
}

/// The confidence in a measured effectiveness.
pub fn effectiveness_confidence(optimized_samples: usize, baseline_samples: usize, improvement: u64) -> (r:
    u64)
    ensures
        r == spec_effectiveness_confidence(
            optimized_samples as int,
            baseline_samples as int,
            improvement as int,
        ),
        r <= SCALE,
{
    let total: u128 = optimized_samples as u128 + baseline_samples as u128;
    let volume: u64 = if total >= 100 {
        SCALE
    } else {
        (total * 10_000) as u64
    };
    let size: u64 = if improvement > STRONG_IMPROVEMENT {
        SCALE
    } else if improvement > GOOD_IMPROVEMENT {
        800_000
    } else {
        500_000
    };
    (6 * volume + 4 * size) / 10
}

/// A mean score weighted for consistency.
pub fn weight(mean_score: u64, variance_sq: u64) -> (r: u64)
    requires
        mean_score <= SCALE,
        variance_sq <= SCALE_SQ,
    ensures
        r == spec_weight(mean_score as int, variance_sq as int),
        r <= mean_score,
{
    proof {
        assert(mean_score * SCALE_SQ <= SCALE * SCALE_SQ) by (nonlinear_arith)
            requires
                mean_score <= SCALE,
                SCALE_SQ == 1_000_000_000_000,
        ;
        assert(mean_score * SCALE_SQ / (SCALE_SQ + variance_sq) <= mean_score) by (nonlinear_arith)
            requires
                0 <= mean_score,
                0 <= variance_sq,
                SCALE_SQ == 1_000_000_000_000,
        ;
    }
    mean_score * SCALE_SQ / (SCALE_SQ + variance_sq)
}

/// The weight of a bucket of scores, none of which is above one whole.
pub fn bucket_weight(scores: &Vec<u64>) -> (r: u64)
    requires
        all_at_most(scores@, SCALE as int),
    ensures
        r == spec_bucket_weight(scores@),
        r <= SCALE,
{
    proof {
        lemma_mean_bounds(scores@, SCALE as int);
        crate::fixed::lemma_variance_bounds(scores@, SCALE as int);
    }
    let m = mean_of(scores);
    let v = variance_of(scores);
    weight(m, v)
}

/// How far the means of two groups of speeds lie apart.
pub fn significance(baseline: &Vec<u64>, optimized: &Vec<u64>) -> (r: u64)
    requires
        all_at_most(baseline@, MAX_MAGNITUDE as int),
        all_at_most(optimized@, MAX_MAGNITUDE as int),
    ensures
        r == spec_significance(baseline@, optimized@),
        r <= SCALE,
{
    if baseline.len() < MIN_SIGNIFICANCE_SAMPLES || optimized.len() < MIN_SIGNIFICANCE_SAMPLES {
        return 0;
    }
    proof {
        lemma_mean_bounds(baseline@, MAX_MAGNITUDE as int);
        lemma_mean_bounds(optimized@, MAX_MAGNITUDE as int);
    }
    let pooled: u64 = (sample_variance_of(baseline) + sample_variance_of(optimized)) / 2;
    proof {
        assert(pooled * SCALE <= u64::MAX * SCALE) by (nonlinear_arith)
            requires
                pooled <= u64::MAX,
                SCALE == 1_000_000,
        ;
    }
    let scaled: u128 = pooled as u128 * SCALE as u128;
    let error_sq: u128 = scaled / baseline.len() as u128 + scaled / optimized.len() as u128;
    let error = isqrt(error_sq);
    if pooled == 0 || error == 0 {
        return 0;
    }
    let base_mean = mean_of(baseline);
    let opt_mean = mean_of(optimized);
    let apart: u64 = if opt_mean >= base_mean {
        opt_mean - base_mean
    } else {
        base_mean - opt_mean
    };
    proof {
        assert(apart * 1_000 * SCALE <= MAX_MAGNITUDE * 1_000 * SCALE) by (nonlinear_arith)
            requires
                apart <= MAX_MAGNITUDE,
                SCALE == 1_000_000,
        ;
    }
    let third: u64 = apart * 1_000 * SCALE / error / 3;
    if third >= SCALE {
        SCALE
    } else {
        third
    }
}

/// The model's confidence in itself.
pub fn model_confidence(training_samples: u32, strategy_confidences: &Vec<u64>, scored_hours: usize) -> (r:
    u64)
    requires
        all_at_most(strategy_confidences@, SCALE as int),
    ensures
        r == spec_model_confidence(
            training_samples as int,
            strategy_confidences@,
            scored_hours as int,
        ),
        r <= SCALE,
{
    let volume: u64 = if training_samples >= 1_000 {
        SCALE
    } else {
        training_samples as u64 * 1_000
    };
    proof {
        lemma_mean_bounds(strategy_confidences@, SCALE as int);
    }
    let strategies = mean_of(strategy_confidences);
    let coverage: u64 = if scored_hours >= FULL_COVERAGE_HOURS {
        SCALE
    } else {
        PARTIAL_COVERAGE_CREDIT
    };
    let blend = (3 * volume + 4 * strategies + 3 * coverage) / 10;
    if blend >= SCALE {
        SCALE
    } else {
        blend
    }
}

/// The confidence in one hour of one day of the week.
pub fn time_confidence(hourly: u64, weekly: u64) -> (r: u64)
    requires
        hourly <= SCALE,
        weekly <= SCALE,
    ensures
        r == spec_time_confidence(hourly as int, weekly as int),
        r <= SCALE,
{
    let blend = (7 * hourly + 3 * weekly) / 10;
    if blend >= SCALE {
        SCALE
    } else {
        blend
    }
}

/// The confidence in an analysis of effectiveness.
pub fn analysis_confidence(samples: usize, effectiveness: u64, model: u64) -> (r: u64)
    requires
        effectiveness <= SCALE,
        model <= SCALE,
    ensures
        r == spec_analysis_confidence(samples as int, effectiveness as int, model as int),
        r <= SCALE,
{
    let volume: u64 = if samples >= 500 {
        SCALE
    } else {
        samples as u64 * 2_000
    };
    (4 * volume + 4 * effectiveness + 2 * model) / 10
}

/// The more a bucket's scores vary around the same mean, the less the
/// bucket weighs: consistency is rewarded.
pub proof fn lemma_weight_rewards_consistency(mean_score: int, steady: int, erratic: int)
    requires
        0 <= mean_score,
        0 <= steady <= erratic,
    ensures
        spec_weight(mean_score, steady) >= spec_weight(mean_score, erratic),
        spec_weight(mean_score, 0) == mean_score,
{
    let top = mean_score * SCALE_SQ;
    let a = SCALE_SQ + steady;
    let b = SCALE_SQ + erratic;
    assert(top / a >= top / b) by (nonlinear_arith)
        requires
            0 <= top,
            0 < a <= b,
    ;
    assert(mean_score * SCALE_SQ / (SCALE_SQ as int) == mean_score) by (nonlinear_arith)
        requires
            SCALE_SQ == 1_000_000_000_000,
    ;
}

/// A weight is the mean over one whole plus the variance, rounded down to
/// a millionth.
pub proof fn lemma_weight_is_mean_over_spread(mean_score: int, variance_sq: int)
    requires
        0 <= mean_score,
        0 <= variance_sq,
    ensures
        spec_weight(mean_score, variance_sq) * (SCALE_SQ + variance_sq) <= mean_score * SCALE_SQ
            < (spec_weight(mean_score, variance_sq) + 1) * (SCALE_SQ + variance_sq),
        0 <= spec_weight(mean_score, variance_sq) <= mean_score,
{
    let top = mean_score * SCALE_SQ;
    let d = SCALE_SQ + variance_sq;
    assert(0 <= top) by (nonlinear_arith)
        requires
            0 <= mean_score,
            top == mean_score * SCALE_SQ,
            SCALE_SQ == 1_000_000_000_000,
    ;
    vstd::arithmetic::div_mod::lemma_fundamental_div_mod(top, d);
    vstd::arithmetic::div_mod::lemma_mod_bound(top, d);
    assert((top / d) * d == d * (top / d)) by (nonlinear_arith);
    assert((top / d + 1) * d == d * (top / d) + d) by (nonlinear_arith);
    lemma_weight_rewards_consistency(mean_score, 0, variance_sq);
    assert(0 <= top / d) by (nonlinear_arith)
        requires
            0 <= top,
            0 < d,
    ;
}

/// At the same mean, the steadier bucket weighs strictly more wherever
/// the two quotients lie a millionth apart or more before they are rounded.
pub proof fn lemma_weight_strictly_rewards_consistency(mean_score: int, steady: int, erratic: int)
    requires
        0 <= mean_score,
        0 <= steady <= erratic,
        mean_score * SCALE_SQ * (erratic - steady) >= (SCALE_SQ + steady) * (SCALE_SQ + erratic),
    ensures
        spec_weight(mean_score, steady) > spec_weight(mean_score, erratic),
{
    let top = mean_score * SCALE_SQ;
    let a = SCALE_SQ + steady;
    let b = SCALE_SQ + erratic;
    let low = top / b;
    lemma_weight_is_mean_over_spread(mean_score, erratic);
    assert(low * b <= top);
    assert(top * (b - a) >= a * b);
    assert((low + 1) * a <= top) by (nonlinear_arith)
        requires
            low * b <= top,
            top * (b - a) >= a * b,
            0 < a <= b,
            0 <= low,
    ;
    assert(top / a >= low + 1) by (nonlinear_arith)
        requires
            (low + 1) * a <= top,
            0 < a,
    ;
}

/// Between buckets of equal consistency, the better mean weighs more.
pub proof fn lemma_weight_follows_mean(low: int, high: int, variance_sq: int)
    requires
        0 <= low <= high,
        0 <= variance_sq,
    ensures
        spec_weight(low, variance_sq) <= spec_weight(high, variance_sq),
{
    let d = SCALE_SQ + variance_sq;
    assert(low * SCALE_SQ / d <= high * SCALE_SQ / d) by (nonlinear_arith)
        requires
            0 <= low <= high,
            d > 0,
            SCALE_SQ == 1_000_000_000_000,
    ;
}

} // verus!
