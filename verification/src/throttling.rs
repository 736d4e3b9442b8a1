//! The throttling patterns that are read off the measured speeds: runs
//! of slow hours, merged where they are alike, and what they say of the
//! connection.

use crate::clock::{valid_timestamp, Weekday};
use crate::engine::weekday_from_index;
use crate::fixed::{
    all_at_most, lemma_sum_bounds, mean, mean_of, min_int, sum, sum_of, MAX_MAGNITUDE, SCALE,
};
use crate::intelligence::{count_to_u32, stored_count};
use crate::models::{contains_day, SpeedMeasurement, ThrottlingPattern};
use crate::order::{ranked, stable_order};
use crate::samples::{all_well_formed, count, select, select_values, Metric, SampleFilter};
use vstd::prelude::*;

verus! {

/// The confidence above which a detected pattern is kept, in millionths.
pub const PATTERN_CONFIDENCE: u64 = 500_000;

/// The difference of severity below which two patterns are alike, in millionths.
pub const SIMILAR_SEVERITY: u64 = 300_000;

/// Six tenths for the number of samples, which is complete at ten, and four
/// tenths for the severity.
pub open spec fn spec_pattern_confidence(sample_count: int, severity: int) -> int {
    min_int(
        (6 * min_int(sample_count * 100_000, SCALE as int) + 4 * min_int(severity, SCALE as int))
            / 10,
        SCALE as int,
    )
}

/// The confidence in a throttling pattern.
pub fn calculate_pattern_confidence(sample_count: usize, severity: u64) -> (r: u64)
    ensures
        r == spec_pattern_confidence(sample_count as int, severity as int),
        r <= SCALE,
{
    let by_samples: u64 = if sample_count >= 10 {
        SCALE
    } else {
        sample_count as u64 * 100_000
    };
    let by_severity: u64 = if severity >= SCALE {
        SCALE
    } else {
        severity
    };
    (6 * by_samples + 4 * by_severity) / 10
}

/// Whether `hour` lies in the span from `start_hour` to `end_hour`, both
/// included; a span whose start is later than its end crosses midnight.
pub open spec fn spec_hour_in_pattern(hour: u8, start_hour: u8, end_hour: u8) -> bool {
    if start_hour <= end_hour {
        start_hour <= hour <= end_hour
    } else {
        hour >= start_hour || hour <= end_hour
    }
}

/// Whether an hour lies in a pattern's span.
pub fn is_hour_in_pattern(hour: u8, start_hour: u8, end_hour: u8) -> (r: bool)
    ensures
        r == spec_hour_in_pattern(hour, start_hour, end_hour),
{
    if start_hour <= end_hour {
        hour >= start_hour && hour <= end_hour
    } else {
        hour >= start_hour || hour <= end_hour
    }
}

/// A span of the week in which the speeds are found to be low.
#[derive(Debug, Clone)]
pub struct DetectedThrottlingPattern {
    pub start_hour: u8,
    pub start_minute: u8,
    pub end_hour: u8,
    pub end_minute: u8,
    pub days_of_week: Vec<Weekday>,
    pub severity: u64,
    pub confidence: u64,
    pub sample_count: u32,
}

/// What an analysis of the speeds for throttling found.
#[derive(Debug, Clone)]
pub struct PatternAnalysisResult {
    pub throttling_detected: bool,
    pub patterns: Vec<DetectedThrottlingPattern>,
    pub confidence: u64,
    pub analysis_period_days: u32,
    pub baseline_speed_kbps: u64,
    pub throttled_speed_kbps: u64,
    /// Baseline speed over throttled speed, in millionths.
    pub improvement_potential: u64,
}

/// What a detected pattern holds, as plain values.
pub struct PatternShape {
    pub start_hour: u8,
    pub start_minute: u8,
    pub end_hour: u8,
    pub end_minute: u8,
    pub days: Seq<Weekday>,
    pub severity: u64,
    pub confidence: u64,
    pub sample_count: u32,
}

impl View for DetectedThrottlingPattern {
    type V = PatternShape;

    open spec fn view(&self) -> PatternShape {
        PatternShape {
            start_hour: self.start_hour,
            start_minute: self.start_minute,
            end_hour: self.end_hour,
            end_minute: self.end_minute,
            days: self.days_of_week@,
            severity: self.severity,
            confidence: self.confidence,
            sample_count: self.sample_count,
        }
    }
}

impl DetectedThrottlingPattern {
    /// The pattern as it is stored for the provider `isp_profile_id`: with
    /// its span, days and severity, and the confidence of a new pattern.
    pub fn to_throttling_pattern(&self, isp_profile_id: i64) -> (r: ThrottlingPattern)
        ensures
            r.id is None,
            r.isp_profile_id == isp_profile_id,
            r.start_hour == self.start_hour,
            r.start_minute == self.start_minute,
            r.end_hour == self.end_hour,
            r.end_minute == self.end_minute,
            r.days_of_week@ == self.days_of_week@,
            r.severity == min_int(self.severity as int, i64::MAX as int),
            r.confidence == SCALE / 2,
    {
        ThrottlingPattern::new(
            isp_profile_id,
            self.start_hour,
            self.start_minute,
            self.end_hour,
            self.end_minute,
            copy_days(&self.days_of_week),
            if self.severity > i64::MAX as u64 {
                i64::MAX
            } else {
                self.severity as i64
            },
        )
    }
}

/// What the patterns of a list hold.
pub open spec fn shapes(list: Seq<DetectedThrottlingPattern>) -> Seq<PatternShape> {
    Seq::new(list.len(), |i: int| list[i]@)
}

/// The pattern is one that the detection makes: whole hours within the
/// day, with a severity and a confidence of one whole at most.
pub open spec fn detected_shape(pattern: PatternShape) -> bool {
    &&& pattern.start_hour <= pattern.end_hour < 24
    &&& pattern.start_minute == 0
    &&& pattern.end_minute == 59
    &&& pattern.severity <= SCALE
    &&& pattern.confidence <= SCALE
}

/// Every pattern of the list is one that the detection makes.
pub open spec fn all_detected_shape(list: Seq<PatternShape>) -> bool {
    forall|i: int| 0 <= i < list.len() ==> detected_shape(#[trigger] list[i])
}

/// The distance between two numbers.
pub open spec fn gap(a: int, b: int) -> int {
    if a >= b {
        a - b
    } else {
        b - a
    }
}

/// Whether two patterns are alike: their starts and their ends lie within
/// an hour of each other, and their severities within three tenths.
pub open spec fn alike(a: PatternShape, b: PatternShape) -> bool {
    &&& gap(a.start_hour as int, b.start_hour as int) <= 1
    &&& gap(a.end_hour as int, b.end_hour as int) <= 1
    &&& gap(a.severity as int, b.severity as int) < SIMILAR_SEVERITY
}

/// Whether two patterns are alike.
pub fn patterns_alike(a: &DetectedThrottlingPattern, b: &DetectedThrottlingPattern) -> (r: bool)
    ensures
        r == alike(a@, b@),
{
    let starts: u8 = if a.start_hour >= b.start_hour {
        a.start_hour - b.start_hour
    } else {
        b.start_hour - a.start_hour
    };
    let ends: u8 = if a.end_hour >= b.end_hour {
        a.end_hour - b.end_hour
    } else {
        b.end_hour - a.end_hour
    };
    let severities: u64 = if a.severity >= b.severity {
        a.severity - b.severity
    } else {
        b.severity - a.severity
    };
    starts <= 1 && ends <= 1 && severities < SIMILAR_SEVERITY
}

/// The days of the week, from Monday on, that occur in either list.
pub open spec fn days_of_either(a: Seq<Weekday>, b: Seq<Weekday>) -> Seq<Weekday> {
    days_among(a, b, 7)
}

/// The first `upto` days of the week, from Monday on, that occur in either list.
pub open spec fn days_among(a: Seq<Weekday>, b: Seq<Weekday>, upto: int) -> Seq<Weekday>
    decreases upto,
{
    if upto <= 0 {
        Seq::empty()
    } else {
        let day = crate::clock::weekday_at(upto - 1);
        let rest = days_among(a, b, upto - 1);
        if a.contains(day) || b.contains(day) {
            rest.push(day)
        } else {
            rest
        }
    }
}

/// The days of the week, from Monday on, that occur in either list.
pub fn merge_days(a: &Vec<Weekday>, b: &Vec<Weekday>) -> (r: Vec<Weekday>)
    ensures
        r@ == days_of_either(a@, b@),
{
    let mut out: Vec<Weekday> = Vec::new();
    let mut index: usize = 0;
    while index < 7
        invariant
            index <= 7,
            out@ == days_among(a@, b@, index as int),
        decreases 7 - index,
    {
        let day = weekday_from_index(index);
        if contains_day(a, day) || contains_day(b, day) {
            out.push(day);
        }
        index = index + 1;
    }
    out
}

/// A count raised by another, or as high as 32 bits go.
pub open spec fn capped_count(a: u32, b: u32) -> u32 {
    if a + b > u32::MAX {
        u32::MAX
    } else {
        (a + b) as u32
    }
}

/// A count raised by another, or as high as 32 bits go.
pub fn add_counts(a: u32, b: u32) -> (r: u32)
    ensures
        r == capped_count(a, b),
{
    if a > u32::MAX - b {
        u32::MAX
    } else {
        a + b
    }
}

/// The half of the sum of two numbers, rounded down.
pub open spec fn midpoint(a: u64, b: u64) -> u64 {
    ((a + b) / 2) as u64
}

/// The half of the sum of two numbers, rounded down.
pub fn midpoint_of(a: u64, b: u64) -> (r: u64)
    ensures
        r == midpoint(a, b),
{
    ((a as u128 + b as u128) / 2) as u64
}

/// The pattern that `kept` and `other` merge into: the span of `kept` on
/// the days of either, with the severities and the confidences averaged and
/// the samples counted together.
pub open spec fn merge_of(kept: PatternShape, other: PatternShape) -> PatternShape {
    PatternShape {
        days: days_of_either(kept.days, other.days),
        severity: midpoint(kept.severity, other.severity),
        confidence: midpoint(kept.confidence, other.confidence),
        sample_count: capped_count(kept.sample_count, other.sample_count),
        ..kept
    }
}

/// The place of the first pattern of `list` that `pattern` is alike to.
pub open spec fn first_alike(list: Seq<PatternShape>, pattern: PatternShape) -> Option<int>
    decreases list.len(),
{
    if list.len() == 0 {
        None
    } else {
        match first_alike(list.drop_last(), pattern) {
            Some(i) => Some(i),
            None => if alike(pattern, list.last()) {
                Some(list.len() - 1)
            } else {
                None
            },
        }
    }
}

/// The first pattern that is alike lies in the list, and none before it is alike.
pub proof fn lemma_first_alike(list: Seq<PatternShape>, pattern: PatternShape)
    ensures
        match first_alike(list, pattern) {
            Some(i) => {
                &&& 0 <= i < list.len()
                &&& alike(pattern, list[i])
                &&& forall|j: int| 0 <= j < i ==> !alike(pattern, #[trigger] list[j])
            },
            None => forall|j: int| 0 <= j < list.len() ==> !alike(pattern, #[trigger] list[j]),
        },
    decreases list.len(),
{
    if list.len() > 0 {
        let front = list.drop_last();
        lemma_first_alike(front, pattern);
        match first_alike(front, pattern) {
            Some(i) => {
                assert(list[i] == front[i]);
                assert forall|j: int| 0 <= j < i implies !alike(pattern, #[trigger] list[j]) by {
                    assert(list[j] == front[j]);
                }
            },
            None => {
                assert forall|j: int| 0 <= j < list.len() - 1 implies !alike(
                    pattern,
                    #[trigger] list[j],
                ) by {
                    assert(list[j] == front[j]);
                }
            },
        }
    }
}

/// The place of the first pattern of `list` that `pattern` is alike to.
pub fn find_alike(list: &Vec<DetectedThrottlingPattern>, pattern: &DetectedThrottlingPattern) -> (r:
    Option<usize>)
    ensures
        match r {
            Some(i) => first_alike(shapes(list@), pattern@) == Some(i as int) && i < list@.len(),
            None => first_alike(shapes(list@), pattern@) is None,
        },
{
    let ghost all = shapes(list@);
    let mut i: usize = 0;
    while i < list.len()
        invariant
            i <= list.len(),
            all == shapes(list@),
            first_alike(all.take(i as int), pattern@) is None,
        decreases list.len() - i,
    {
        assert(all.take(i + 1).drop_last() =~= all.take(i as int));
        assert(all.take(i + 1).last() == list@[i as int]@);
        if patterns_alike(pattern, &list[i]) {
            proof {
                lemma_first_alike_prefix(all, pattern@, i as int);
            }
            return Some(i);
        }
        i = i + 1;
    }
    assert(all.take(list.len() as int) =~= all);
    None
}

/// Where a pattern is alike to the one at place `i` and to none before it,
/// that is the first it is alike to.
pub proof fn lemma_first_alike_prefix(list: Seq<PatternShape>, pattern: PatternShape, i: int)
    requires
        0 <= i < list.len(),
        first_alike(list.take(i), pattern) is None,
        alike(pattern, list[i]),
    ensures
        first_alike(list, pattern) == Some(i),
    decreases list.len(),
{
    if list.len() - 1 == i {
        assert(list.drop_last() =~= list.take(i));
    } else {
        assert(list.drop_last().take(i) =~= list.take(i));
        lemma_first_alike_prefix(list.drop_last(), pattern, i);
    }
}

/// The list after `pattern` has come to it: merged into the first pattern
/// that it is alike to, or put at the end where there is none.
pub open spec fn merged_into(list: Seq<PatternShape>, pattern: PatternShape) -> Seq<PatternShape> {
    match first_alike(list, pattern) {
        Some(i) => list.update(i, merge_of(list[i], pattern)),
        None => list.push(pattern),
    }
}

/// The patterns with those that are alike merged: each in turn comes to
/// the list of those before it.
pub open spec fn merged_all(patterns: Seq<PatternShape>) -> Seq<PatternShape>
    decreases patterns.len(),
{
    if patterns.len() == 0 {
        Seq::empty()
    } else {
        merged_into(merged_all(patterns.drop_last()), patterns.last())
    }
}

/// Merging gives no more patterns than there were, and at least one where
/// there was one.
pub proof fn lemma_merging_shortens(patterns: Seq<PatternShape>)
    ensures
        merged_all(patterns).len() <= patterns.len(),
        patterns.len() > 0 ==> merged_all(patterns).len() > 0,
    decreases patterns.len(),
{
    if patterns.len() > 0 {
        lemma_merging_shortens(patterns.drop_last());
        lemma_first_alike(merged_all(patterns.drop_last()), patterns.last());
    }
}

/// Merging patterns that the detection makes gives patterns that it could
/// have made.
pub proof fn lemma_merging_keeps_shape(patterns: Seq<PatternShape>)
    requires
        all_detected_shape(patterns),
    ensures
        all_detected_shape(merged_all(patterns)),
    decreases patterns.len(),
{
    if patterns.len() > 0 {
        let front = patterns.drop_last();
        assert forall|i: int| 0 <= i < front.len() implies detected_shape(#[trigger] front[i]) by {
            assert(front[i] == patterns[i]);
        }
        lemma_merging_keeps_shape(front);
        let list = merged_all(front);
        let last = patterns.last();
        assert(detected_shape(last));
        lemma_first_alike(list, last);
        let after = merged_into(list, last);
        assert forall|k: int| 0 <= k < after.len() implies detected_shape(#[trigger] after[k]) by {
            match first_alike(list, last) {
                Some(i) => {
                    if k == i {
                        assert(detected_shape(list[i]));
                    } else {
                        assert(after[k] == list[k]);
                    }
                },
                None => {
                    if k < list.len() {
                        assert(after[k] == list[k]);
                    }
                },
            }
        }
    }
}

/// Merges the patterns that are alike: each pattern is merged into the
/// first earlier pattern that it is alike to, or kept where there is none.
pub fn merge_similar_patterns(patterns: Vec<DetectedThrottlingPattern>) -> (r: Vec<
    DetectedThrottlingPattern,
>)
    ensures
        shapes(r@) == merged_all(shapes(patterns@)),
{
    let ghost all = shapes(patterns@);
    let mut out: Vec<DetectedThrottlingPattern> = Vec::new();
    let mut i: usize = 0;
    assert(all.take(0) =~= Seq::<PatternShape>::empty());
    assert(shapes(out@) =~= Seq::<PatternShape>::empty());
    while i < patterns.len()
        invariant
            i <= patterns.len(),
            all == shapes(patterns@),
            shapes(out@) == merged_all(all.take(i as int)),
        decreases patterns.len() - i,
    {
        let ghost before = shapes(out@);
        proof {
            assert(all.take(i + 1).drop_last() =~= all.take(i as int));
            assert(all.take(i + 1).last() == patterns@[i as int]@);
        }
        match find_alike(&out, &patterns[i]) {
            Some(at) => {
                let kept = DetectedThrottlingPattern {
                    start_hour: out[at].start_hour,
                    start_minute: out[at].start_minute,
                    end_hour: out[at].end_hour,
                    end_minute: out[at].end_minute,
                    days_of_week: merge_days(&out[at].days_of_week, &patterns[i].days_of_week),
                    severity: midpoint_of(out[at].severity, patterns[i].severity),
                    confidence: midpoint_of(out[at].confidence, patterns[i].confidence),
                    sample_count: add_counts(out[at].sample_count, patterns[i].sample_count),
                };
                assert(kept@ == merge_of(before[at as int], patterns@[i as int]@));
                out.set(at, kept);
                assert(shapes(out@) =~= before.update(
                    at as int,
                    merge_of(before[at as int], patterns@[i as int]@),
                ));
            },
            None => {
                out.push(copy_pattern(&patterns[i]));
                assert(shapes(out@) =~= before.push(patterns@[i as int]@));
            },
        }
        i = i + 1;
    }
    assert(all.take(patterns.len() as int) =~= all);
    out
}

/// A copy of a list of days.
pub fn copy_days(days: &Vec<Weekday>) -> (r: Vec<Weekday>)
    ensures
        r@ == days@,
{
    let mut out: Vec<Weekday> = Vec::new();
    let mut i: usize = 0;
    while i < days.len()
        invariant
            i <= days.len(),
            out@ == days@.take(i as int),
        decreases days.len() - i,
    {
        out.push(days[i]);
        assert(out@ =~= days@.take(i + 1));
        i = i + 1;
    }
    assert(days@.take(days.len() as int) =~= days@);
    out
}

/// A copy of a pattern.
pub fn copy_pattern(pattern: &DetectedThrottlingPattern) -> (r: DetectedThrottlingPattern)
    ensures
        r@ == pattern@,
{
    DetectedThrottlingPattern {
        start_hour: pattern.start_hour,
        start_minute: pattern.start_minute,
        end_hour: pattern.end_hour,
        end_minute: pattern.end_minute,
        days_of_week: copy_days(&pattern.days_of_week),
        severity: pattern.severity,
        confidence: pattern.confidence,
        sample_count: pattern.sample_count,
    }
}

/// The fewest samples from which the speeds are analysed for throttling.
pub const MIN_ANALYSIS_SAMPLES: usize = 10;

/// The fewest speeds that make an hour of a day of the week count.
pub const MIN_BUCKET_SPEEDS: usize = 3;

/// The span of samples that is analysed where no days are asked for, in seconds.
pub const SHORT_ANALYSIS_S: i64 = 3_600;

/// Whether a mean speed is low enough against the baseline to count as
/// throttled: under seven tenths of it.
pub open spec fn spec_is_throttled(speed: u64, baseline: u64) -> bool {
    speed * 10 < baseline * 7
}

/// How much a mean speed falls short of the baseline, in millionths.
pub open spec fn spec_severity(speed: u64, baseline: u64) -> int {
    if baseline == 0 || speed >= baseline {
        0
    } else {
        SCALE - speed * SCALE / (baseline as int)
    }
}

/// Whether a mean speed counts as throttled against the baseline.
pub fn is_throttled(speed: u64, baseline: u64) -> (r: bool)
    ensures
        r == spec_is_throttled(speed, baseline),
{
    (speed as u128) * 10 < (baseline as u128) * 7
}

/// How much a mean speed falls short of the baseline.
pub fn severity_of(speed: u64, baseline: u64) -> (r: u64)
    ensures
        r == spec_severity(speed, baseline),
        r <= SCALE,
{
    if baseline == 0 || speed >= baseline {
        0
    } else {
        proof {
            assert(speed * SCALE / (baseline as int) <= SCALE) by (nonlinear_arith)
                requires
                    0 <= speed < baseline,
                    SCALE == 1_000_000,
            ;
            assert(speed * SCALE <= u64::MAX * SCALE) by (nonlinear_arith)
                requires
                    speed <= u64::MAX,
                    SCALE == 1_000_000,
            ;
            assert(0 <= speed * SCALE / (baseline as int)) by (nonlinear_arith)
                requires
                    0 <= speed,
                    baseline > 0,
                    SCALE == 1_000_000,
            ;
        }
        SCALE - ((speed as u128 * SCALE as u128) / baseline as u128) as u64
    }
}

/// The number of hours in a week.
pub const WEEK_HOURS: usize = 168;

/// The samples of one hour of the week: hour `slot % 24` of the day that
/// lies `slot / 24` days after Monday.
pub open spec fn slot_filter(base: SampleFilter, slot: int) -> SampleFilter {
    SampleFilter {
        hour: Some((slot % 24) as u8),
        weekday: Some(crate::clock::weekday_at(slot / 24)),
        ..base
    }
}

/// The download speeds of the samples of one hour of the week that `base` accepts.
pub open spec fn slot_speeds(samples: Seq<SpeedMeasurement>, base: SampleFilter, slot: int) -> Seq<
    u64,
> {
    select(samples, slot_filter(base, slot), Metric::Download)
}

/// The download speeds of the samples of one hour of the week that `base` accepts.
pub fn speeds_of_slot(samples: &Vec<SpeedMeasurement>, base: &SampleFilter, slot: usize) -> (r: Vec<
    u64,
>)
    requires
        all_well_formed(samples@),
        slot < WEEK_HOURS,
    ensures
        r@ == slot_speeds(samples@, *base, slot as int),
        all_at_most(r@, MAX_MAGNITUDE as int),
        r.len() <= samples.len(),
{
    let filter = SampleFilter {
        optimized: base.optimized,
        since: base.since,
        after: base.after,
        until: base.until,
        hour: Some((slot % 24) as u8),
        weekday: Some(weekday_from_index(slot / 24)),
    };
    assert(filter == slot_filter(*base, slot as int));
    select_values(samples, &filter, Metric::Download)
}

/// What the detection holds while it walks the week: the runs of throttled
/// hours that are closed and kept, and the run that is still open.
pub struct Detection {
    pub found: Seq<PatternShape>,
    pub open_run: Option<PatternShape>,
}

/// What an open run holds, where there is one.
pub open spec fn shape_of(run: Option<DetectedThrottlingPattern>) -> Option<PatternShape> {
    match run {
        Some(p) => Some(p@),
        None => None,
    }
}

/// The runs that are kept once the open run is closed: it is kept where
/// its confidence is above a half.
pub open spec fn closed(detection: Detection) -> Seq<PatternShape> {
    match detection.open_run {
        Some(run) => if run.confidence > PATTERN_CONFIDENCE {
            detection.found.push(run)
        } else {
            detection.found
        },
        None => detection.found,
    }
}

/// A run of one throttled hour.
pub open spec fn run_of(hour: u8, day: Weekday, severity: u64, confidence: u64, counted: u32) -> PatternShape {
    PatternShape {
        start_hour: hour,
        start_minute: 0,
        end_hour: hour,
        end_minute: 59,
        days: seq![day],
        severity,
        confidence,
        sample_count: counted,
    }
}

/// The run with one more throttled hour: it ends with that hour, its
/// severity and confidence are averaged with the hour's, and the hour's
/// samples are counted in.
pub open spec fn run_with(run: PatternShape, hour: u8, severity: u64, confidence: u64, counted: u32) -> PatternShape {
    PatternShape {
        end_hour: hour,
        severity: midpoint(run.severity, severity),
        confidence: midpoint(run.confidence, confidence),
        sample_count: capped_count(run.sample_count, counted),
        ..run
    }
}

/// The detection after one hour of one day with the speeds measured in it.
/// Fewer than three speeds change nothing. A mean speed that is not
/// throttled closes the open run. A throttled one extends the open run
/// where it ended the hour before on the same day, and else closes it and
/// opens a new one.
pub open spec fn detection_step(
    detection: Detection,
    speeds: Seq<u64>,
    hour: u8,
    day: Weekday,
    baseline: u64,
) -> Detection {
    if speeds.len() < MIN_BUCKET_SPEEDS {
        detection
    } else if !spec_is_throttled(mean(speeds) as u64, baseline) {
        Detection { found: closed(detection), open_run: None }
    } else {
        let severity = spec_severity(mean(speeds) as u64, baseline) as u64;
        let confidence = spec_pattern_confidence(speeds.len() as int, severity as int) as u64;
        let counted = stored_count(speeds.len() as int);
        if detection.open_run is Some && detection.open_run->0.end_hour + 1 == hour
            && detection.open_run->0.days.contains(day) {
            Detection {
                found: detection.found,
                open_run: Some(run_with(detection.open_run->0, hour, severity, confidence, counted)),
            }
        } else {
            Detection {
                found: closed(detection),
                open_run: Some(run_of(hour, day, severity, confidence, counted)),
            }
        }
    }
}

/// The detection after the first `slots` hours of the week, from Monday's
/// first hour on.
pub open spec fn detection_upto(
    samples: Seq<SpeedMeasurement>,
    base: SampleFilter,
    baseline: u64,
    slots: int,
) -> Detection
    decreases slots,
{
    if slots <= 0 {
        Detection { found: Seq::empty(), open_run: None }
    } else {
        detection_step(
            detection_upto(samples, base, baseline, slots - 1),
            slot_speeds(samples, base, slots - 1),
            ((slots - 1) % 24) as u8,
            crate::clock::weekday_at((slots - 1) / 24),
            baseline,
        )
    }
}

/// The throttled spans of the week: the runs that the detection keeps over
/// the whole week, merged where they are alike.
pub open spec fn spec_detected(samples: Seq<SpeedMeasurement>, base: SampleFilter, baseline: u64) -> Seq<
    PatternShape,
> {
    merged_all(closed(detection_upto(samples, base, baseline, WEEK_HOURS as int)))
}

/// How many runs a detection holds, the open one included.
pub open spec fn runs_held(found: Seq<PatternShape>, open_run: Option<PatternShape>) -> int {
    found.len() + (if open_run is Some {
        1int
    } else {
        0int
    })
}

/// Closes the open run: it is kept where its confidence is above a half.
fn close_run(found: &mut Vec<DetectedThrottlingPattern>, run: Option<DetectedThrottlingPattern>)
    requires
        all_detected_shape(shapes(old(found)@)),
        run matches Some(p) ==> detected_shape(p@),
    ensures
        shapes(final(found)@) == closed(
            (Detection { found: shapes(old(found)@), open_run: shape_of(run) }),
        ),
        all_detected_shape(shapes(final(found)@)),
        final(found)@.len() <= runs_held(shapes(old(found)@), shape_of(run)),
{
    let ghost before = shapes(found@);
    if let Some(p) = run {
        if p.confidence > PATTERN_CONFIDENCE {
            found.push(p);
            assert(shapes(found@) =~= before.push(p@));
            assert forall|i: int| 0 <= i < shapes(found@).len() implies detected_shape(
                #[trigger] shapes(found@)[i],
            ) by {
                if i < before.len() {
                    assert(shapes(found@)[i] == before[i]);
                }
            }
        }
    }
}

/// Takes the speeds of one hour of one day into the detection.
fn take_hour(
    found: &mut Vec<DetectedThrottlingPattern>,
    current: Option<DetectedThrottlingPattern>,
    speeds: &Vec<u64>,
    hour: u8,
    day: Weekday,
    baseline: u64,
) -> (next: Option<DetectedThrottlingPattern>)
    requires
        hour < 24,
        all_detected_shape(shapes(old(found)@)),
        current matches Some(p) ==> detected_shape(p@),
    ensures
        ({
            let step = detection_step(
                (Detection { found: shapes(old(found)@), open_run: shape_of(current) }),
                speeds@,
                hour,
                day,
                baseline,
            );
            &&& shapes(final(found)@) == step.found
            &&& shape_of(next) == step.open_run
        }),
        all_detected_shape(shapes(final(found)@)),
        next matches Some(p) ==> detected_shape(p@),
        runs_held(shapes(final(found)@), shape_of(next)) <= runs_held(
            shapes(old(found)@),
            shape_of(current),
        ) + 1,
        baseline == 0 && current is None ==> next is None && final(found)@.len() == old(found)@.len(),
{
    if speeds.len() < MIN_BUCKET_SPEEDS {
        return current;
    }
    let speed = mean_of(speeds);
    if !is_throttled(speed, baseline) {
        close_run(found, current);
        return None;
    }
    let severity = severity_of(speed, baseline);
    let confidence = calculate_pattern_confidence(speeds.len(), severity);
    let counted = count_to_u32(speeds.len());
    match current {
        Some(run) => {
            if run.end_hour + 1 == hour && contains_day(&run.days_of_week, day) {
                Some(
                    DetectedThrottlingPattern {
                        start_hour: run.start_hour,
                        start_minute: run.start_minute,
                        end_hour: hour,
                        end_minute: run.end_minute,
                        days_of_week: run.days_of_week,
                        severity: midpoint_of(run.severity, severity),
                        confidence: midpoint_of(run.confidence, confidence),
                        sample_count: add_counts(run.sample_count, counted),
                    },
                )
            } else {
                close_run(found, Some(run));
                let mut days: Vec<Weekday> = Vec::new();
                days.push(day);
                assert(days@ =~= seq![day]);
                Some(
                    DetectedThrottlingPattern {
                        start_hour: hour,
                        start_minute: 0,
                        end_hour: hour,
                        end_minute: 59,
                        days_of_week: days,
                        severity,
                        confidence,
                        sample_count: counted,
                    },
                )
            }
        },
        None => {
            let mut days: Vec<Weekday> = Vec::new();
            days.push(day);
            assert(days@ =~= seq![day]);
            Some(
                DetectedThrottlingPattern {
                    start_hour: hour,
                    start_minute: 0,
                    end_hour: hour,
                    end_minute: 59,
                    days_of_week: days,
                    severity,
                    confidence,
                    sample_count: counted,
                },
            )
        },
    }
}

/// The throttled spans of the week, read off the samples that `base`
/// accepts: for each day, runs of hours whose mean speed lies under seven
/// tenths of the baseline, kept where their confidence is above a half,
/// and merged where they are alike. An hour counts from three samples on;
/// an hour with fewer neither ends a run nor extends it.
pub fn detect_throttling_patterns(
    samples: &Vec<SpeedMeasurement>,
    base: &SampleFilter,
    baseline: u64,
) -> (r: Vec<DetectedThrottlingPattern>)
    requires
        all_well_formed(samples@),
    ensures
        shapes(r@) == spec_detected(samples@, *base, baseline),
        all_detected_shape(shapes(r@)),
        r@.len() <= WEEK_HOURS,
        baseline == 0 ==> r@.len() == 0,
{
    let mut found: Vec<DetectedThrottlingPattern> = Vec::new();
    let mut current: Option<DetectedThrottlingPattern> = None;
    let mut slot: usize = 0;
    assert(shapes(found@) =~= Seq::<PatternShape>::empty());
    while slot < WEEK_HOURS
        invariant
            slot <= WEEK_HOURS,
            all_well_formed(samples@),
            shapes(found@) == detection_upto(samples@, *base, baseline, slot as int).found,
            shape_of(current) == detection_upto(samples@, *base, baseline, slot as int).open_run,
            all_detected_shape(shapes(found@)),
            current matches Some(p) ==> detected_shape(p@),
            runs_held(shapes(found@), shape_of(current)) <= slot,
            baseline == 0 ==> found@.len() == 0 && current is None,
        decreases WEEK_HOURS - slot,
    {
        let speeds = speeds_of_slot(samples, base, slot);
        let day = weekday_from_index(slot / 24);
        current = take_hour(&mut found, current, &speeds, (slot % 24) as u8, day, baseline);
        slot = slot + 1;
    }
    close_run(&mut found, current);
    proof {
        lemma_merging_shortens(shapes(found@));
        lemma_merging_keeps_shape(shapes(found@));
    }
    merge_similar_patterns(found)
}

/// The middle of the speeds in rising order: the one at half the count,
/// rounded down; nothing for no speeds.
pub open spec fn spec_median(speeds: Seq<u64>) -> u64 {
    if speeds.len() == 0 {
        0
    } else {
        ranked(speeds, speeds, false)[speeds.len() as int / 2]
    }
}

/// The middle of the speeds in rising order; nothing for no speeds.
pub fn median(speeds: &Vec<u64>) -> (r: u64)
    ensures
        r == spec_median(speeds@),
        speeds@.len() > 0 ==> speeds@.contains(r),
{
    if speeds.len() == 0 {
        return 0;
    }
    let order = stable_order(speeds, false);
    let place = order[speeds.len() / 2];
    assert(order@[speeds@.len() as int / 2] < speeds@.len());
    speeds[place]
}

/// The samples that an analysis over `days` days looks at: those of the
/// last `days` days, or of the last hour where no days are asked for.
pub open spec fn analysis_window(now: i64, days: u32) -> SampleFilter {
    if days == 0 {
        SampleFilter::spec_since((now - SHORT_ANALYSIS_S) as i64)
    } else {
        SampleFilter::spec_since((now - days * 86_400) as i64)
    }
}

/// Whether the pattern covers an hour of the week.
pub open spec fn covers(pattern: PatternShape, slot: int) -> bool {
    &&& pattern.days.contains(crate::clock::weekday_at(slot / 24))
    &&& spec_hour_in_pattern((slot % 24) as u8, pattern.start_hour, pattern.end_hour)
}

/// The sum of the speeds in those of the first `slots` hours of the week
/// that the pattern covers.
pub open spec fn covered_sum(
    samples: Seq<SpeedMeasurement>,
    base: SampleFilter,
    pattern: PatternShape,
    slots: int,
) -> int
    decreases slots,
{
    if slots <= 0 {
        0
    } else {
        covered_sum(samples, base, pattern, slots - 1) + (if covers(pattern, slots - 1) {
            sum(slot_speeds(samples, base, slots - 1))
        } else {
            0
        })
    }
}

/// The number of the speeds in those of the first `slots` hours of the
/// week that the pattern covers.
pub open spec fn covered_count(
    samples: Seq<SpeedMeasurement>,
    base: SampleFilter,
    pattern: PatternShape,
    slots: int,
) -> int
    decreases slots,
{
    if slots <= 0 {
        0
    } else {
        covered_count(samples, base, pattern, slots - 1) + (if covers(pattern, slots - 1) {
            slot_speeds(samples, base, slots - 1).len() as int
        } else {
            0
        })
    }
}

/// The sum of the speeds in the hours that the patterns cover; an hour
/// counts once for each pattern that covers it.
pub open spec fn throttled_sum(
    samples: Seq<SpeedMeasurement>,
    base: SampleFilter,
    patterns: Seq<PatternShape>,
) -> int
    decreases patterns.len(),
{
    if patterns.len() == 0 {
        0
    } else {
        throttled_sum(samples, base, patterns.drop_last()) + covered_sum(
            samples,
            base,
            patterns.last(),
            WEEK_HOURS as int,
        )
    }
}

/// The number of the speeds in the hours that the patterns cover.
pub open spec fn throttled_count(
    samples: Seq<SpeedMeasurement>,
    base: SampleFilter,
    patterns: Seq<PatternShape>,
) -> int
    decreases patterns.len(),
{
    if patterns.len() == 0 {
        0
    } else {
        throttled_count(samples, base, patterns.drop_last()) + covered_count(
            samples,
            base,
            patterns.last(),
            WEEK_HOURS as int,
        )
    }
}

/// The mean speed in the hours that the patterns cover, or the baseline
/// where they cover no sample.
pub open spec fn spec_throttled_speed(
    samples: Seq<SpeedMeasurement>,
    base: SampleFilter,
    patterns: Seq<PatternShape>,
    baseline: u64,
) -> int {
    if throttled_count(samples, base, patterns) > 0 {
        throttled_sum(samples, base, patterns) / throttled_count(samples, base, patterns)
    } else {
        baseline as int
    }
}

/// What the baseline is of the throttled speed, in millionths; one whole
/// where the throttled speed is nothing.
pub open spec fn spec_potential(baseline: u64, throttled: u64) -> int {
    if throttled > 0 {
        baseline * SCALE / (throttled as int)
    } else {
        SCALE as int
    }
}

/// The confidences of the patterns, in their order.
pub open spec fn confidences_of(patterns: Seq<PatternShape>) -> Seq<u64> {
    Seq::new(patterns.len(), |i: int| patterns[i].confidence)
}

/// A sum and a count stay in step when a part joins each.
proof fn lemma_joined(total: int, counted: int, part: int, n: int, bound: int)
    requires
        total <= counted * bound,
        part <= n * bound,
    ensures
        total + part <= (counted + n) * bound,
{
    assert((counted + n) * bound == counted * bound + n * bound) by (nonlinear_arith);
}

/// The sum and the number of the speeds in the hours that a pattern covers.
pub fn covered_speeds(
    samples: &Vec<SpeedMeasurement>,
    base: &SampleFilter,
    pattern: &DetectedThrottlingPattern,
) -> (r: (u128, u128))
    requires
        all_well_formed(samples@),
    ensures
        r.0 == covered_sum(samples@, *base, pattern@, WEEK_HOURS as int),
        r.1 == covered_count(samples@, *base, pattern@, WEEK_HOURS as int),
        r.0 <= r.1 * MAX_MAGNITUDE,
        r.1 <= WEEK_HOURS * samples@.len(),
{
    let mut total: u128 = 0;
    let mut counted: u128 = 0;
    let mut slot: usize = 0;
    while slot < WEEK_HOURS
        invariant
            slot <= WEEK_HOURS,
            all_well_formed(samples@),
            total == covered_sum(samples@, *base, pattern@, slot as int),
            counted == covered_count(samples@, *base, pattern@, slot as int),
            total <= counted * MAX_MAGNITUDE,
            counted <= slot * samples@.len(),
        decreases WEEK_HOURS - slot,
    {
        let day = weekday_from_index(slot / 24);
        proof {
            assert(slot * samples@.len() + samples@.len() == (slot + 1) * samples@.len())
                by (nonlinear_arith);
        }
        if contains_day(&pattern.days_of_week, day) && is_hour_in_pattern(
            (slot % 24) as u8,
            pattern.start_hour,
            pattern.end_hour,
        ) {
            let bucket = speeds_of_slot(samples, base, slot);
            proof {
                lemma_sum_bounds(bucket@, MAX_MAGNITUDE as int);
                lemma_joined(
                    total as int,
                    counted as int,
                    sum(bucket@),
                    bucket@.len() as int,
                    MAX_MAGNITUDE as int,
                );
                assert((counted + bucket@.len()) * MAX_MAGNITUDE <= WEEK_HOURS * usize::MAX
                    * MAX_MAGNITUDE) by (nonlinear_arith)
                    requires
                        counted + bucket@.len() <= (slot + 1) * samples@.len(),
                        slot + 1 <= WEEK_HOURS,
                        samples@.len() <= usize::MAX,
                        MAX_MAGNITUDE == 0x7fff_ffff,
                ;
                assert(WEEK_HOURS * usize::MAX * MAX_MAGNITUDE < u128::MAX) by (nonlinear_arith)
                    requires
                        usize::MAX <= u64::MAX,
                        WEEK_HOURS == 168,
                        MAX_MAGNITUDE == 0x7fff_ffff,
                ;
            }
            total = total + sum_of(&bucket);
            counted = counted + bucket.len() as u128;
        }
        slot = slot + 1;
    }
    (total, counted)
}

/// `r` is the analysis of the speeds of the last `days` days before `now`:
/// nothing of fewer than ten samples; else the median as the baseline, the
/// patterns detected against it, the mean of their confidences, the mean
/// speed in the hours they cover and what the baseline is of that speed.
pub open spec fn is_throttling_analysis(
    r: PatternAnalysisResult,
    samples: Seq<SpeedMeasurement>,
    days: u32,
    now: i64,
) -> bool {
    &&& r.analysis_period_days == days
    &&& r.throttling_detected == (r.patterns@.len() > 0)
    &&& count(samples, analysis_window(now, days)) < MIN_ANALYSIS_SAMPLES ==> {
        &&& r.patterns@.len() == 0
        &&& r.confidence == 0
        &&& r.baseline_speed_kbps == 0
        &&& r.throttled_speed_kbps == 0
        &&& r.improvement_potential == 0
    }
    &&& count(samples, analysis_window(now, days)) >= MIN_ANALYSIS_SAMPLES ==> {
        &&& r.baseline_speed_kbps == spec_median(
            select(samples, analysis_window(now, days), Metric::Download),
        )
        &&& shapes(r.patterns@) == spec_detected(
            samples,
            analysis_window(now, days),
            r.baseline_speed_kbps,
        )
        &&& r.confidence == mean(confidences_of(shapes(r.patterns@)))
        &&& r.throttled_speed_kbps == spec_throttled_speed(
            samples,
            analysis_window(now, days),
            shapes(r.patterns@),
            r.baseline_speed_kbps,
        )
        &&& r.improvement_potential == spec_potential(
            r.baseline_speed_kbps,
            r.throttled_speed_kbps,
        )
    }
}

/// Analyses the speeds of the last `days` days for throttling: the
/// baseline is the median speed, the patterns are those detected against
/// it, the confidence is the mean of theirs, the throttled speed the mean
/// over the hours that they cover, and the potential what the baseline is of
/// the throttled speed. With fewer than ten samples nothing is found.
pub fn analyze_throttling_patterns(samples: &Vec<SpeedMeasurement>, days: u32, now: i64) -> (r:
    PatternAnalysisResult)
    requires
        all_well_formed(samples@),
        valid_timestamp(now as int),
    ensures
        is_throttling_analysis(r, samples@, days, now),
{
    let window = if days == 0 {
        SampleFilter::since(now - SHORT_ANALYSIS_S)
    } else {
        SampleFilter::since(now - days as i64 * 86_400)
    };
    let speeds = select_values(samples, &window, Metric::Download);
    proof {
        crate::samples::lemma_select_len(samples@, window, Metric::Download);
    }
    if speeds.len() < MIN_ANALYSIS_SAMPLES {
        return PatternAnalysisResult {
            throttling_detected: false,
            patterns: Vec::new(),
            confidence: 0,
            analysis_period_days: days,
            baseline_speed_kbps: 0,
            throttled_speed_kbps: 0,
            improvement_potential: 0,
        };
    }
    let baseline = median(&speeds);
    assert(baseline <= MAX_MAGNITUDE);
    let patterns = detect_throttling_patterns(samples, &window, baseline);
    let ghost all = shapes(patterns@);
    let held = samples.len();
    let mut confidences: Vec<u64> = Vec::new();
    let mut total: u128 = 0;
    let mut counted: u128 = 0;
    let mut i: usize = 0;
    assert(all.take(0) =~= Seq::<PatternShape>::empty());
    while i < patterns.len()
        invariant
            i <= patterns.len(),
            samples@.len() == held,
            patterns@.len() <= WEEK_HOURS,
            all == shapes(patterns@),
            all_well_formed(samples@),
            confidences@ == confidences_of(all).take(i as int),
            total == throttled_sum(samples@, window, all.take(i as int)),
            counted == throttled_count(samples@, window, all.take(i as int)),
            total <= counted * MAX_MAGNITUDE,
            counted <= i * (WEEK_HOURS * samples@.len()),
        decreases patterns.len() - i,
    {
        confidences.push(patterns[i].confidence);
        let part = covered_speeds(samples, &window, &patterns[i]);
        proof {
            assert(confidences@ =~= confidences_of(all).take(i + 1));
            assert(all.take(i + 1).drop_last() =~= all.take(i as int));
            assert(all.take(i + 1).last() == patterns@[i as int]@);
            lemma_joined(
                total as int,
                counted as int,
                part.0 as int,
                part.1 as int,
                MAX_MAGNITUDE as int,
            );
            assert(i * (WEEK_HOURS * samples@.len()) + WEEK_HOURS * samples@.len() == (i + 1) * (
            WEEK_HOURS * samples@.len())) by (nonlinear_arith);
            assert((counted + part.1) * MAX_MAGNITUDE <= WEEK_HOURS * WEEK_HOURS * usize::MAX
                * MAX_MAGNITUDE) by (nonlinear_arith)
                requires
                    counted + part.1 <= (i + 1) * (WEEK_HOURS * samples@.len()),
                    i + 1 <= WEEK_HOURS,
                    samples@.len() <= usize::MAX,
                    WEEK_HOURS == 168,
                    MAX_MAGNITUDE == 0x7fff_ffff,
            ;
            assert(WEEK_HOURS * WEEK_HOURS * usize::MAX * MAX_MAGNITUDE < u128::MAX)
                by (nonlinear_arith)
                requires
                    usize::MAX <= u64::MAX,
                    WEEK_HOURS == 168,
                    MAX_MAGNITUDE == 0x7fff_ffff,
            ;
        }
        total = total + part.0;
        counted = counted + part.1;
        i = i + 1;
    }
    proof {
        assert(all.take(patterns.len() as int) =~= all);
        assert(confidences_of(all).take(patterns.len() as int) =~= confidences_of(all));
    }
    let confidence = mean_of(&confidences);
    let throttled: u64 = if counted > 0 {
        proof {
            assert(total as int / (counted as int) <= MAX_MAGNITUDE) by (nonlinear_arith)
                requires
                    0 <= total <= counted * MAX_MAGNITUDE,
                    counted > 0,
            ;
        }
        (total / counted) as u64
    } else {
        baseline
    };
    let potential: u64 = if throttled > 0 {
        proof {
            assert(baseline * SCALE / (throttled as int) <= baseline * SCALE) by (nonlinear_arith)
                requires
                    throttled >= 1,
                    baseline * SCALE >= 0,
            ;
            assert(baseline * SCALE <= MAX_MAGNITUDE * SCALE) by (nonlinear_arith)
                requires
                    baseline <= MAX_MAGNITUDE,
                    SCALE == 1_000_000,
            ;
        }
        baseline * SCALE / throttled
    } else {
        SCALE
    };
    PatternAnalysisResult {
        throttling_detected: patterns.len() > 0,
        patterns,
        confidence,
        analysis_period_days: days,
        baseline_speed_kbps: baseline,
        throttled_speed_kbps: throttled,
        improvement_potential: potential,
    }
}

} // verus!
