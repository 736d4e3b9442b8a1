//! Picking samples out of a history and reading one number off each.

use crate::clock::{hour_of, valid_timestamp, weekday_of, WallClock, Weekday};
use crate::fixed::{all_at_most, MAX_MAGNITUDE};
use crate::models::SpeedMeasurement;
use vstd::prelude::*;

verus! {

/// Which samples of a history count. Every condition that is set must hold.
#[derive(Debug, Clone, Copy, PartialEq, Eq, Structural)]
pub struct SampleFilter {
    /// Taken while optimization was on (`true`) or off (`false`).
    pub optimized: Option<bool>,
    /// Taken at this instant or later.
    pub since: Option<i64>,
    /// Taken later than this instant.
    pub after: Option<i64>,
    /// Taken at this instant or earlier.
    pub until: Option<i64>,
    /// Taken in this hour of the day, UTC.
    pub hour: Option<u8>,
    /// Taken on this day of the week, UTC.
    pub weekday: Option<Weekday>,
}

/// The number read off a sample.
#[derive(Debug, Clone, Copy, PartialEq, Eq, Structural)]
pub enum Metric {
    /// Download speed in kilobits per second.
    Download,
    /// Upload speed in kilobits per second.
    Upload,
    /// The composite performance score, in millionths.
    Performance,
}

impl Metric {
    /// The metric of one sample.
    pub open spec fn spec_of(self, m: SpeedMeasurement) -> int {
        match self {
            Metric::Download => m.download_kbps as int,
            Metric::Upload => m.upload_kbps as int,
            Metric::Performance => m.spec_performance_score(),
        }
    }

    /// The metric of one sample.
    pub fn of(self, m: &SpeedMeasurement) -> (r: u64)
        requires
            m.spec_validate() is Ok,
        ensures
            r == self.spec_of(*m),
            r <= MAX_MAGNITUDE,
    {
        match self {
            Metric::Download => m.download_kbps as u64,
            Metric::Upload => m.upload_kbps as u64,
            Metric::Performance => m.performance_score(),
        }
    }
}

impl SampleFilter {
    /// The filter that lets every sample through.
    pub open spec fn spec_all() -> SampleFilter {
        SampleFilter {
            optimized: None,
            since: None,
            after: None,
            until: None,
            hour: None,
            weekday: None,
        }
    }

    /// The filter on the earliest instant alone.
    pub open spec fn spec_since(t: i64) -> SampleFilter {
        SampleFilter { since: Some(t), ..SampleFilter::spec_all() }
    }

    /// The filter on the optimization flag alone.
    pub open spec fn spec_optimized(flag: bool) -> SampleFilter {
        SampleFilter { optimized: Some(flag), ..SampleFilter::spec_all() }
    }

    /// Whether the sample counts.
    pub open spec fn spec_accepts(self, m: SpeedMeasurement) -> bool {
        &&& self.optimized matches Some(flag) ==> m.optimization_active == flag
        &&& self.since matches Some(t) ==> m.timestamp >= t
        &&& self.after matches Some(t) ==> m.timestamp > t
        &&& self.until matches Some(t) ==> m.timestamp <= t
        &&& self.hour matches Some(h) ==> hour_of(m.timestamp as int) == h
        &&& self.weekday matches Some(d) ==> weekday_of(m.timestamp as int) == d
    }

    /// The filter that lets every sample through.
    pub fn all() -> (r: SampleFilter)
        ensures
            r == SampleFilter::spec_all(),
    {
        SampleFilter {
            optimized: None,
            since: None,
            after: None,
            until: None,
            hour: None,
            weekday: None,
        }
    }

    /// The filter on the earliest instant alone.
    pub fn since(t: i64) -> (r: SampleFilter)
        ensures
            r == SampleFilter::spec_since(t),
    {
        SampleFilter {
            optimized: None,
            since: Some(t),
            after: None,
            until: None,
            hour: None,
            weekday: None,
        }
    }

    /// The filter on the optimization flag alone.
    pub fn optimized(flag: bool) -> (r: SampleFilter)
        ensures
            r == SampleFilter::spec_optimized(flag),
    {
        SampleFilter {
            optimized: Some(flag),
            since: None,
            after: None,
            until: None,
            hour: None,
            weekday: None,
        }
    }

    /// Whether the sample counts.
    pub fn accepts(&self, m: &SpeedMeasurement) -> (r: bool)
        requires
            valid_timestamp(m.timestamp as int),
        ensures
            r == self.spec_accepts(*m),
    {
        if let Some(flag) = self.optimized {
            if m.optimization_active != flag {
                return false;
            }
        }
        if let Some(t) = self.since {
            if m.timestamp < t {
                return false;
            }
        }
        if let Some(t) = self.after {
            if m.timestamp <= t {
                return false;
            }
        }
        if let Some(t) = self.until {
            if m.timestamp > t {
                return false;
            }
        }
        if self.hour.is_some() || self.weekday.is_some() {
            let clock = WallClock::at(m.timestamp);
            if let Some(h) = self.hour {
                if clock.hour != h {
                    return false;
                }
            }
            if let Some(d) = self.weekday {
                if clock.weekday != d {
                    return false;
                }
            }
        }
        true
    }
}

/// Every sample of the history passes `validate` and lies within the calendar.
pub open spec fn all_well_formed(samples: Seq<SpeedMeasurement>) -> bool {
    forall|i: int| 0 <= i < samples.len() ==> (#[trigger] samples[i]).well_formed()
}

/// The metric of each sample that the filter accepts, in the order of the history.
pub open spec fn select(samples: Seq<SpeedMeasurement>, filter: SampleFilter, metric: Metric) -> Seq<
    u64,
>
    decreases samples.len(),
{
    if samples.len() == 0 {
        Seq::empty()
    } else {
        let rest = select(samples.drop_last(), filter, metric);
        if filter.spec_accepts(samples.last()) {
            rest.push(metric.spec_of(samples.last()) as u64)
        } else {
            rest
        }
    }
}

/// The number of samples that the filter accepts.
pub open spec fn count(samples: Seq<SpeedMeasurement>, filter: SampleFilter) -> nat {
    select(samples, filter, Metric::Download).len()
}

/// Whatever the metric, as many values are selected as samples are
/// counted, and no more than there are samples.
pub proof fn lemma_select_len(samples: Seq<SpeedMeasurement>, filter: SampleFilter, metric: Metric)
    ensures
        select(samples, filter, metric).len() == count(samples, filter),
        count(samples, filter) <= samples.len(),
    decreases samples.len(),
{
    if samples.len() > 0 {
        lemma_select_len(samples.drop_last(), filter, metric);
    }
}

/// A filter on the optimization flag alone splits a history in two.
pub proof fn lemma_optimized_split(samples: Seq<SpeedMeasurement>)
    ensures
        count(samples, SampleFilter::spec_optimized(true)) + count(
            samples,
            SampleFilter::spec_optimized(false),
        ) == samples.len(),
    decreases samples.len(),
{
    if samples.len() > 0 {
        lemma_optimized_split(samples.drop_last());
    }
}

/// The metric of each sample that the filter accepts, in the order of the history.
pub fn select_values(samples: &Vec<SpeedMeasurement>, filter: &SampleFilter, metric: Metric) -> (r:
    Vec<u64>)
    requires
        all_well_formed(samples@),
    ensures
        r@ == select(samples@, *filter, metric),
        all_at_most(r@, MAX_MAGNITUDE as int),
        r.len() <= samples.len(),
{
    let mut out: Vec<u64> = Vec::new();
    let mut i: usize = 0;
    while i < samples.len()
        invariant
            i <= samples.len(),
            all_well_formed(samples@),
            out@ == select(samples@.take(i as int), *filter, metric),
            all_at_most(out@, MAX_MAGNITUDE as int),
            out.len() <= i,
        decreases samples.len() - i,
    {
        let m = &samples[i];
        assert(samples@[i as int].well_formed());
        assert(samples@.take(i + 1).drop_last() =~= samples@.take(i as int));
        assert(samples@.take(i + 1).last() == samples@[i as int]);
        if filter.accepts(m) {
            out.push(metric.of(m));
        }
        i = i + 1;
    }
    assert(samples@.take(samples.len() as int) =~= samples@);
    out
}

/// The number of samples that the filter accepts.
pub fn count_where(samples: &Vec<SpeedMeasurement>, filter: &SampleFilter) -> (r: usize)
    requires
        all_well_formed(samples@),
    ensures
        r == count(samples@, *filter),
{
    select_values(samples, filter, Metric::Download).len()
}

/// No metric of a valid sample is above the largest magnitude.
pub proof fn lemma_values_in_range(samples: Seq<SpeedMeasurement>, filter: SampleFilter, metric: Metric)
    requires
        all_well_formed(samples),
    ensures
        all_at_most(select(samples, filter, metric), MAX_MAGNITUDE as int),
    decreases samples.len(),
{
    if samples.len() > 0 {
        let front = samples.drop_last();
        assert forall|i: int| 0 <= i < front.len() implies (#[trigger] front[i]).well_formed() by {
            assert(front[i] == samples[i]);
        }
        lemma_values_in_range(front, filter, metric);
        let m = samples.last();
        assert(m == samples[samples.len() - 1]);
        assert(m.well_formed());
        crate::models::lemma_performance_score_in_range(m);
        let rest = select(front, filter, metric);
        let all = select(samples, filter, metric);
        assert forall|i: int| 0 <= i < all.len() implies #[trigger] all[i] <= MAX_MAGNITUDE by {
            if i < rest.len() {
                assert(all[i] == rest[i]);
            }
        }
    }
}

} // verus!
