//! The learning engine's working parts: how buckets of samples turn into
//! weights, and how the weights are read.

use crate::clock::Weekday;
use crate::fixed::{
    all_at_most, lemma_mean_bounds, lemma_variance_bounds, mean, mean_of, variance, SCALE, SCALE_SQ,
};
use crate::models::SpeedMeasurement;
use crate::samples::{all_well_formed, select, select_values, Metric, SampleFilter};
use crate::scoring::{bucket_weight, spec_bucket_weight};
use crate::tables::WeightTable;
use vstd::prelude::*;

verus! {

/// The slots whose weight lies below `threshold`, in rising order.
pub open spec fn slots_below(slots: Seq<Option<u64>>, threshold: u64) -> Seq<u8>
    decreases slots.len(),
{
    if slots.len() == 0 {
        Seq::empty()
    } else {
        let rest = slots_below(slots.drop_last(), threshold);
        if slots.last() matches Some(w) && w < threshold {
            rest.push((slots.len() - 1) as u8)
        } else {
            rest
        }
    }
}

/// The slots below a threshold are exactly the scored slots whose weight
/// lies below it.
pub proof fn lemma_slots_below(slots: Seq<Option<u64>>, threshold: u64)
    requires
        slots.len() <= 256,
    ensures
        slots_below(slots, threshold).len() <= slots.len(),
        forall|i: int|
            0 <= i < slots_below(slots, threshold).len() ==> {
                let k = #[trigger] slots_below(slots, threshold)[i];
                k < slots.len() && slots[k as int] is Some && slots[k as int]->0 < threshold
            },
        forall|k: int|
            0 <= k < slots.len() && slots[k] is Some && slots[k]->0 < threshold ==> slots_below(
                slots,
                threshold,
            ).contains(k as u8),
        (forall|k: int| 0 <= k < slots.len() ==> slots[k] is None) ==> slots_below(
            slots,
            threshold,
        ).len() == 0,
    decreases slots.len(),
{
    if slots.len() > 0 {
        let front = slots.drop_last();
        lemma_slots_below(front, threshold);
        let rest = slots_below(front, threshold);
        let all = slots_below(slots, threshold);
        assert forall|i: int| 0 <= i < all.len() implies {
            let k = #[trigger] all[i];
            k < slots.len() && slots[k as int] is Some && slots[k as int]->0 < threshold
        } by {
            if i < rest.len() {
                assert(all[i] == rest[i]);
                assert(front[rest[i] as int] == slots[rest[i] as int]);
            }
        }
        assert forall|k: int|
            0 <= k < slots.len() && slots[k] is Some && slots[k]->0 < threshold implies all.contains(
            k as u8,
        ) by {
            if k < slots.len() - 1 {
                assert(front[k] == slots[k]);
                assert(rest.contains(k as u8));
                let i = choose|i: int| 0 <= i < rest.len() && rest[i] == k as u8;
                assert(all[i] == k as u8);
            } else {
                assert(all[all.len() - 1] == k as u8);
            }
        }
        if forall|k: int| 0 <= k < slots.len() ==> slots[k] is None {
            assert forall|k: int| 0 <= k < front.len() implies front[k] is None by {
                assert(front[k] == slots[k]);
            }
        }
    }
}

/// The slots of a table whose weight lies below `threshold`, in rising order.
pub fn table_slots_below(table: &WeightTable, threshold: u64) -> (r: Vec<u8>)
    requires
        table@.len() <= 256,
    ensures
        r@ == slots_below(table@, threshold),
{
    let mut out: Vec<u8> = Vec::new();
    let mut k: usize = 0;
    while k < table.size()
        invariant
            k <= table@.len() <= 256,
            out@ == slots_below(table@.take(k as int), threshold),
        decreases table@.len() - k,
    {
        assert(table@.take(k + 1).drop_last() =~= table@.take(k as int));
        match table.get(k) {
            Some(w) => {
                if w < threshold {
                    out.push(k as u8);
                }
            },
            None => {},
        }
        k = k + 1;
    }
    assert(table@.take(table@.len() as int) =~= table@);
    out
}

/// The filter `base` narrowed to one hour of the day.
pub open spec fn in_hour(base: SampleFilter, hour: int) -> SampleFilter {
    SampleFilter { hour: Some(hour as u8), ..base }
}

/// The filter `base` narrowed to one day of the week.
pub open spec fn on_day(base: SampleFilter, day: Weekday) -> SampleFilter {
    SampleFilter { weekday: Some(day), ..base }
}

/// How a bucket of scores becomes a weight.
#[derive(Debug, Clone, Copy, PartialEq, Eq, Structural)]
pub enum Weighting {
    /// The mean of the scores; three scores are enough.
    Plain,
    /// The mean lowered for inconsistency; five scores are enough.
    Consistent,
}

impl Weighting {
    /// The fewest scores that make a bucket count.
    pub open spec fn spec_min_scores(self) -> int {
        match self {
            Weighting::Plain => 3,
            Weighting::Consistent => 5,
        }
    }

    /// The weight of a bucket; none where the bucket is too small.
    pub open spec fn spec_weigh(self, scores: Seq<u64>) -> Option<u64> {
        if scores.len() < self.spec_min_scores() {
            None
        } else {
            match self {
                Weighting::Plain => Some(mean(scores) as u64),
                Weighting::Consistent => Some(spec_bucket_weight(scores) as u64),
            }
        }
    }

    /// The weight of a bucket; none where the bucket is too small.
    pub fn weigh(self, scores: &Vec<u64>) -> (r: Option<u64>)
        requires
            all_at_most(scores@, SCALE as int),
        ensures
            r == self.spec_weigh(scores@),
            r matches Some(w) ==> w <= SCALE,
    {
        match self {
            Weighting::Plain => {
                if scores.len() < 3 {
                    None
                } else {
                    proof {
                        lemma_mean_bounds(scores@, SCALE as int);
                    }
                    Some(mean_of(scores))
                }
            },
            Weighting::Consistent => {
                if scores.len() < 5 {
                    None
                } else {
                    Some(bucket_weight(scores))
                }
            },
        }
    }
}

/// Of two buckets of five scores or more with the same mean, the one whose
/// scores vary less never weighs less, and it weighs strictly more wherever
/// the two weights lie a millionth apart or more before they are rounded down.
pub proof fn lemma_steadier_bucket_weighs_more(steady: Seq<u64>, erratic: Seq<u64>)
    requires
        steady.len() >= 5,
        erratic.len() >= 5,
        all_at_most(steady, SCALE as int),
        all_at_most(erratic, SCALE as int),
        mean(steady) == mean(erratic),
        variance(steady) <= variance(erratic),
    ensures
        Weighting::Consistent.spec_weigh(steady) == Some(spec_bucket_weight(steady) as u64),
        Weighting::Consistent.spec_weigh(erratic) == Some(spec_bucket_weight(erratic) as u64),
        SCALE >= spec_bucket_weight(steady) >= spec_bucket_weight(erratic) >= 0,
        mean(steady) * SCALE_SQ * (variance(erratic) - variance(steady)) >= (SCALE_SQ + variance(
            steady,
        )) * (SCALE_SQ + variance(erratic)) ==> spec_bucket_weight(steady) > spec_bucket_weight(
            erratic,
        ),
{
    lemma_mean_bounds(steady, SCALE as int);
    lemma_variance_bounds(steady, SCALE as int);
    lemma_variance_bounds(erratic, SCALE as int);
    let m = mean(steady);
    crate::scoring::lemma_weight_rewards_consistency(m, variance(steady), variance(erratic));
    crate::scoring::lemma_weight_is_mean_over_spread(m, variance(steady));
    crate::scoring::lemma_weight_is_mean_over_spread(m, variance(erratic));
    if m * SCALE_SQ * (variance(erratic) - variance(steady)) >= (SCALE_SQ + variance(steady)) * (
    SCALE_SQ + variance(erratic)) {
        crate::scoring::lemma_weight_strictly_rewards_consistency(
            m,
            variance(steady),
            variance(erratic),
        );
    }
}

/// The day of the week at a distance of `index` days from Monday.
pub fn weekday_from_index(index: usize) -> (r: Weekday)
    requires
        index < 7,
    ensures
        r == crate::clock::weekday_at(index as int),
{
    match index {
        0 => Weekday::Mon,
        1 => Weekday::Tue,
        2 => Weekday::Wed,
        3 => Weekday::Thu,
        4 => Weekday::Fri,
        5 => Weekday::Sat,
        _ => Weekday::Sun,
    }
}

/// The weight of hour `hour` after learning from the samples that `base`
/// accepts: the bucket's weight, or what was there where the bucket is too small.
pub open spec fn learned_hour(
    samples: Seq<SpeedMeasurement>,
    base: SampleFilter,
    weighting: Weighting,
    hour: int,
    before: Option<u64>,
) -> Option<u64> {
    match weighting.spec_weigh(select(samples, in_hour(base, hour), Metric::Performance)) {
        Some(w) => Some(w),
        None => before,
    }
}

/// The weight of the day at `index` days from Monday after learning.
pub open spec fn learned_day(
    samples: Seq<SpeedMeasurement>,
    base: SampleFilter,
    weighting: Weighting,
    index: int,
    before: Option<u64>,
) -> Option<u64> {
    match weighting.spec_weigh(
        select(samples, on_day(base, crate::clock::weekday_at(index)), Metric::Performance),
    ) {
        Some(w) => Some(w),
        None => before,
    }
}

/// The hourly weights after learning.
pub open spec fn learned_hours(
    samples: Seq<SpeedMeasurement>,
    base: SampleFilter,
    weighting: Weighting,
    before: Seq<Option<u64>>,
) -> Seq<Option<u64>> {
    Seq::new(before.len(), |h: int| learned_hour(samples, base, weighting, h, before[h]))
}

/// The daily weights after learning.
pub open spec fn learned_days(
    samples: Seq<SpeedMeasurement>,
    base: SampleFilter,
    weighting: Weighting,
    before: Seq<Option<u64>>,
) -> Seq<Option<u64>> {
    Seq::new(before.len(), |d: int| learned_day(samples, base, weighting, d, before[d]))
}

/// Every weight of the table is at most one whole.
pub open spec fn weights_in_range(slots: Seq<Option<u64>>) -> bool {
    forall|k: int| 0 <= k < slots.len() ==> (#[trigger] slots[k] matches Some(w) ==> w <= SCALE)
}

/// Learns the weight of each hour of the day from the samples that `base` accepts.
pub fn learn_hours(
    table: &mut WeightTable,
    samples: &Vec<SpeedMeasurement>,
    base: &SampleFilter,
    weighting: Weighting,
)
    requires
        old(table)@.len() == 24,
        weights_in_range(old(table)@),
        all_well_formed(samples@),
    ensures
        final(table)@ == learned_hours(samples@, *base, weighting, old(table)@),
        weights_in_range(final(table)@),
{
    let mut hour: usize = 0;
    while hour < 24
        invariant
            hour <= 24,
            table@.len() == 24,
            weights_in_range(table@),
            all_well_formed(samples@),
            forall|h: int|
                0 <= h < hour ==> #[trigger] table@[h] == learned_hour(
                    samples@,
                    *base,
                    weighting,
                    h,
                    old(table)@[h],
                ),
            forall|h: int| hour <= h < 24 ==> #[trigger] table@[h] == old(table)@[h],
        decreases 24 - hour,
    {
        let filter = SampleFilter {
            optimized: base.optimized,
            since: base.since,
            after: base.after,
            until: base.until,
            hour: Some(hour as u8),
            weekday: base.weekday,
        };
        let scores = select_values(samples, &filter, Metric::Performance);
        proof {
            lemma_scores_in_range(samples@, filter);
        }
        match weighting.weigh(&scores) {
            Some(w) => {
                table.insert(hour, w);
            },
            None => {},
        }
        hour = hour + 1;
    }
    assert(table@ =~= learned_hours(samples@, *base, weighting, old(table)@));
}

/// Learns the weight of each day of the week from the samples that `base` accepts.
pub fn learn_days(
    table: &mut WeightTable,
    samples: &Vec<SpeedMeasurement>,
    base: &SampleFilter,
    weighting: Weighting,
)
    requires
        old(table)@.len() == 7,
        weights_in_range(old(table)@),
        all_well_formed(samples@),
    ensures
        final(table)@ == learned_days(samples@, *base, weighting, old(table)@),
        weights_in_range(final(table)@),
{
    let mut index: usize = 0;
    while index < 7
        invariant
            index <= 7,
            table@.len() == 7,
            weights_in_range(table@),
            all_well_formed(samples@),
            forall|d: int|
                0 <= d < index ==> #[trigger] table@[d] == learned_day(
                    samples@,
                    *base,
                    weighting,
                    d,
                    old(table)@[d],
                ),
            forall|d: int| index <= d < 7 ==> #[trigger] table@[d] == old(table)@[d],
        decreases 7 - index,
    {
        let filter = SampleFilter {
            optimized: base.optimized,
            since: base.since,
            after: base.after,
            until: base.until,
            hour: base.hour,
            weekday: Some(weekday_from_index(index)),
        };
        let scores = select_values(samples, &filter, Metric::Performance);
        proof {
            lemma_scores_in_range(samples@, filter);
        }
        match weighting.weigh(&scores) {
            Some(w) => {
                table.insert(index, w);
            },
            None => {},
        }
        index = index + 1;
    }
    assert(table@ =~= learned_days(samples@, *base, weighting, old(table)@));
}

/// No performance score is above one whole.
pub proof fn lemma_scores_in_range(samples: Seq<SpeedMeasurement>, filter: SampleFilter)
    requires
        all_well_formed(samples),
    ensures
        all_at_most(select(samples, filter, Metric::Performance), SCALE as int),
    decreases samples.len(),
{
    if samples.len() > 0 {
        let front = samples.drop_last();
        assert forall|i: int| 0 <= i < front.len() implies (#[trigger] front[i]).well_formed() by {
            assert(front[i] == samples[i]);
        }
        lemma_scores_in_range(front, filter);
        let m = samples.last();
        assert(m == samples[samples.len() - 1]);
        assert(m.well_formed());
        crate::models::lemma_performance_score_in_range(m);
        let rest = select(front, filter, Metric::Performance);
        let all = select(samples, filter, Metric::Performance);
        assert forall|i: int| 0 <= i < all.len() implies #[trigger] all[i] <= SCALE by {
            if i < rest.len() {
                assert(all[i] == rest[i]);
            }
        }
    }
}

} // verus!
