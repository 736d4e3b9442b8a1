//! Passive monitoring: the counters of the interfaces, the limit on
//! measurements, and which detection of the provider to go by.

use crate::clock::valid_timestamp;
use crate::fixed::{min_int, SCALE};
use crate::models::{ISPProfile, SpeedMeasurement};
use crate::samples::all_well_formed;
use crate::throttling::{
    analyze_throttling_patterns, calculate_pattern_confidence, is_hour_in_pattern,
    is_throttling_analysis, merge_similar_patterns, merged_all, shapes, spec_hour_in_pattern,
    spec_pattern_confidence, DetectedThrottlingPattern, PatternAnalysisResult,
};
use vstd::prelude::*;
use vstd::string::*;

verus! {

/// The length of the period over which measurements are counted, in seconds.
pub const COUNT_PERIOD_S: i64 = 3_600;

/// The counters of one network interface at one instant.
#[derive(Debug, Clone, Copy, PartialEq, Eq, Structural)]
pub struct NetworkStats {
    pub bytes_received: u64,
    pub bytes_sent: u64,
    pub packets_received: u64,
    pub packets_sent: u64,
    /// In milliseconds on the monotonic clock.
    pub timestamp: u64,
}

impl Default for NetworkStats {
    /// Counters at nothing.
    fn default() -> (r: Self)
        ensures
            r == (NetworkStats {
                bytes_received: 0,
                bytes_sent: 0,
                packets_received: 0,
                packets_sent: 0,
                timestamp: 0,
            }),
    {
        NetworkStats {
            bytes_received: 0,
            bytes_sent: 0,
            packets_received: 0,
            packets_sent: 0,
            timestamp: 0,
        }
    }
}

/// One passive measurement.
#[derive(Debug, Clone, Copy, PartialEq, Eq, Structural)]
pub struct PassiveSpeedResult {
    pub timestamp: i64,
    pub download_kbps: u64,
    pub upload_kbps: u64,
    pub confidence: u64,
    pub measurement_duration_ms: u64,
}

/// How the monitor measures.
#[derive(Debug, Clone, Copy, PartialEq, Eq, Structural)]
pub struct MonitoringConfig {
    pub measurement_interval_seconds: u64,
    pub measurement_window_seconds: u64,
    /// The least confidence of a measurement that is stored, in millionths.
    pub min_confidence_threshold: u64,
    pub max_measurements_per_hour: u32,
}

impl Default for MonitoringConfig {
    /// A measurement a minute over windows of half a minute, sixty an hour at most.
    fn default() -> (r: Self)
        ensures
            r == (MonitoringConfig {
                measurement_interval_seconds: 60,
                measurement_window_seconds: 30,
                min_confidence_threshold: 300_000,
                max_measurements_per_hour: 60,
            }),
    {
        MonitoringConfig {
            measurement_interval_seconds: 60,
            measurement_window_seconds: 30,
            min_confidence_threshold: 300_000,
            max_measurements_per_hour: 60,
        }
    }
}

/// What the monitor reports of itself.
#[derive(Debug, Clone, Copy, PartialEq, Eq, Structural)]
pub struct MonitoringStats {
    pub is_running: bool,
    pub measurements_this_hour: u32,
    pub max_measurements_per_hour: u32,
    pub measurement_interval_seconds: u64,
}

/// How a provider was found.
#[derive(Debug, Clone, Copy, PartialEq, Eq, Structural)]
pub enum ISPDetectionMethod {
    DnsAnalysis,
    NetworkRouting,
    PublicIPLookup,
    UserAgent,
    Combined,
}

impl ISPDetectionMethod {
    /// The method's name as it is stored.
    pub open spec fn spec_name(self) -> Seq<char> {
        match self {
            ISPDetectionMethod::DnsAnalysis => "DNS Analysis"@,
            ISPDetectionMethod::NetworkRouting => "Network Routing"@,
            ISPDetectionMethod::PublicIPLookup => "Public IP Lookup"@,
            ISPDetectionMethod::UserAgent => "User Agent"@,
            ISPDetectionMethod::Combined => "Combined Methods"@,
        }
    }

    /// The method's name.
    pub fn as_str(&self) -> (r: &'static str)
        ensures
            r@ == self.spec_name(),
    {
        match self {
            ISPDetectionMethod::DnsAnalysis => "DNS Analysis",
            ISPDetectionMethod::NetworkRouting => "Network Routing",
            ISPDetectionMethod::PublicIPLookup => "Public IP Lookup",
            ISPDetectionMethod::UserAgent => "User Agent",
            ISPDetectionMethod::Combined => "Combined Methods",
        }
    }
}

/// What a detection of the provider found.
#[derive(Debug, Clone)]
pub struct ISPDetectionResult {
    pub isp_name: String,
    pub region: String,
    pub detection_method: String,
    pub confidence: u64,
    pub detected_at: i64,
}

/// The place of the detection of the highest confidence, and of several
/// such the last; none for no detections.
pub open spec fn most_confident(results: Seq<ISPDetectionResult>) -> Option<int>
    decreases results.len(),
{
    if results.len() == 0 {
        None
    } else {
        match most_confident(results.drop_last()) {
            Some(i) => if results.last().confidence >= results[i].confidence {
                Some(results.len() - 1)
            } else {
                Some(i)
            },
            None => Some(results.len() - 1),
        }
    }
}

/// The place of the detection to go by.
pub fn best_detection(results: &Vec<ISPDetectionResult>) -> (r: Option<usize>)
    ensures
        match r {
            Some(i) => most_confident(results@) == Some(i as int) && i < results@.len(),
            None => most_confident(results@) is None,
        },
{
    if results.len() == 0 {
        return None;
    }
    let mut best: usize = 0;
    let mut i: usize = 1;
    proof {
        let first = results@.take(1);
        assert(first.drop_last() =~= Seq::<ISPDetectionResult>::empty());
        assert(most_confident(first.drop_last()) is None);
        assert(most_confident(first) == Some(0int));
    }
    while i < results.len()
        invariant
            1 <= i <= results.len(),
            best < i,
            most_confident(results@.take(i as int)) == Some(best as int),
        decreases results.len() - i,
    {
        assert(results@.take(i + 1).drop_last() =~= results@.take(i as int));
        if results[i].confidence >= results[best].confidence {
            best = i;
        }
        i = i + 1;
    }
    assert(results@.take(results.len() as int) =~= results@);
    Some(best)
}

/// The confidence in a provider that no detection found, in millionths.
pub const UNKNOWN_ISP_CONFIDENCE: u64 = 100_000;

impl ISPDetectionResult {
    /// The two detections name the same provider, region and method, with
    /// the same confidence and date.
    pub open spec fn spec_same(self, other: ISPDetectionResult) -> bool {
        &&& self.isp_name@ == other.isp_name@
        &&& self.region@ == other.region@
        &&& self.detection_method@ == other.detection_method@
        &&& self.confidence == other.confidence
        &&& self.detected_at == other.detected_at
    }

    /// The detection of nothing: an unknown provider, of little confidence.
    pub open spec fn spec_is_unknown(self, now: i64) -> bool {
        &&& self.isp_name@ == "Unknown ISP"@
        &&& self.region@ == "Unknown"@
        &&& self.detection_method@ == ISPDetectionMethod::Combined.spec_name()
        &&& self.confidence == UNKNOWN_ISP_CONFIDENCE
        &&& self.detected_at == now
    }

    /// The profile to store for the detection.
    pub fn to_profile(&self) -> (r: ISPProfile)
        ensures
            r.id is None,
            r.name@ == self.isp_name@,
            r.region@ == self.region@,
            r.detection_method@ == self.detection_method@,
            r.created_at == r.updated_at,
            valid_timestamp(r.created_at as int),
    {
        ISPProfile::new(
            self.isp_name.clone(),
            self.region.clone(),
            self.detection_method.clone(),
        )
    }
}

/// The detection to go by: the most confident of what the methods found,
/// and of several such the last; an unknown provider, dated `now`, where
/// no method found anything.
pub fn detect_isp(results: &Vec<ISPDetectionResult>, now: i64) -> (r: ISPDetectionResult)
    ensures
        match most_confident(results@) {
            Some(i) => 0 <= i < results@.len() && r.spec_same(results@[i]),
            None => r.spec_is_unknown(now),
        },
{
    match best_detection(results) {
        Some(i) => ISPDetectionResult {
            isp_name: results[i].isp_name.clone(),
            region: results[i].region.clone(),
            detection_method: results[i].detection_method.clone(),
            confidence: results[i].confidence,
            detected_at: results[i].detected_at,
        },
        None => ISPDetectionResult {
            isp_name: String::from_str("Unknown ISP"),
            region: String::from_str("Unknown"),
            detection_method: String::from_str(ISPDetectionMethod::Combined.as_str()),
            confidence: UNKNOWN_ISP_CONFIDENCE,
            detected_at: now,
        },
    }
}

/// The count of measurements of the running period.
#[derive(Debug, Clone, Copy, PartialEq, Eq, Structural)]
pub struct MeasurementCount {
    pub measurements: u32,
    /// The start of the period, in seconds since the Unix epoch.
    pub period_start: i64,
}

impl MeasurementCount {
    /// The count with the period renewed where it has run out at `now`.
    pub open spec fn spec_after_reset(self, now: i64) -> MeasurementCount {
        if now - self.period_start >= COUNT_PERIOD_S {
            MeasurementCount { measurements: 0, period_start: now }
        } else {
            self
        }
    }

    /// Whether another measurement may be taken.
    pub open spec fn spec_allows(self, cfg: MonitoringConfig) -> bool {
        self.measurements < cfg.max_measurements_per_hour
    }

    /// Starts the count over where the period has run out at `now`.
    pub fn reset_hourly_count_if_needed(&mut self, now: i64)
        ensures
            *final(self) == old(self).spec_after_reset(now),
    {
        if now as i128 - self.period_start as i128 >= COUNT_PERIOD_S as i128 {
            self.measurements = 0;
            self.period_start = now;
        }
    }

    /// Whether another measurement may be taken.
    pub fn allows(&self, cfg: &MonitoringConfig) -> (r: bool)
        ensures
            r == self.spec_allows(*cfg),
    {
        self.measurements < cfg.max_measurements_per_hour
    }

    /// Counts one measurement that was stored.
    pub fn count_stored(&mut self)
        ensures
            final(self).period_start == old(self).period_start,
            final(self).measurements == min_int(old(self).measurements + 1, u32::MAX as int),
    {
        if self.measurements < u32::MAX {
            self.measurements = self.measurements + 1;
        }
    }
}

/// Whether a measurement is stored: its confidence reaches the threshold.
pub fn worth_storing(result: &PassiveSpeedResult, cfg: &MonitoringConfig) -> (r: bool)
    ensures
        r == (result.confidence >= cfg.min_confidence_threshold),
{
    result.confidence >= cfg.min_confidence_threshold
}

/// The counters of an interface have moved sensibly between two readings:
/// ten seconds to five minutes apart, and by no more than a gigabit per second.
pub open spec fn spec_traffic_between(previous: NetworkStats, current: NetworkStats) -> Option<
    (u64, u64, u64),
> {
    let elapsed = current.timestamp - previous.timestamp;
    let down = if current.bytes_received >= previous.bytes_received {
        current.bytes_received - previous.bytes_received
    } else {
        0
    };
    let up = if current.bytes_sent >= previous.bytes_sent {
        current.bytes_sent - previous.bytes_sent
    } else {
        0
    };
    if 10_000 <= elapsed <= 300_000 && down <= 125_000 * elapsed && up <= 125_000 * elapsed {
        Some((down as u64, up as u64, elapsed as u64))
    } else {
        None
    }
}

/// The bytes received and sent on an interface between two readings and
/// the milliseconds between them; none where the readings cannot be compared.
pub fn traffic_between(previous: &NetworkStats, current: &NetworkStats) -> (r: Option<
    (u64, u64, u64),
>)
    ensures
        r == spec_traffic_between(*previous, *current),
{
    if current.timestamp < previous.timestamp {
        return None;
    }
    let elapsed = current.timestamp - previous.timestamp;
    if elapsed < 10_000 || elapsed > 300_000 {
        return None;
    }
    let down = if current.bytes_received >= previous.bytes_received {
        current.bytes_received - previous.bytes_received
    } else {
        0
    };
    let up = if current.bytes_sent >= previous.bytes_sent {
        current.bytes_sent - previous.bytes_sent
    } else {
        0
    };
    let most = 125_000 * elapsed;
    if down <= most && up <= most {
        Some((down, up, elapsed))
    } else {
        None
    }
}

/// The most that an interface can be seen to move between two readings
/// that can be compared, in bytes.
pub const MAX_COMPARED_BYTES: u64 = 37_500_000_000;

/// What several interfaces moved between two readings each, taken together.
#[derive(Debug, Clone, Copy, PartialEq, Eq, Structural)]
pub struct PassiveTotals {
    /// The interfaces whose readings could be compared.
    pub interfaces: usize,
    /// The mean time between the two readings of an interface, in milliseconds.
    pub mean_elapsed_ms: u64,
    pub download_kbps: u64,
    pub upload_kbps: u64,
}

/// The sums over the pairs of readings that can be compared.
pub struct ComparedSums {
    pub received: int,
    pub sent: int,
    pub elapsed_ms: int,
    pub interfaces: int,
}

/// The bytes received, the bytes sent and the milliseconds between the
/// readings, summed over the pairs of `pairs` that can be compared, and the
/// number of those pairs.
pub open spec fn compared_sums(pairs: Seq<(NetworkStats, NetworkStats)>) -> ComparedSums
    decreases pairs.len(),
{
    if pairs.len() == 0 {
        ComparedSums { received: 0, sent: 0, elapsed_ms: 0, interfaces: 0 }
    } else {
        let rest = compared_sums(pairs.drop_last());
        match spec_traffic_between(pairs.last().0, pairs.last().1) {
            Some(moved) => ComparedSums {
                received: rest.received + moved.0,
                sent: rest.sent + moved.1,
                elapsed_ms: rest.elapsed_ms + moved.2,
                interfaces: rest.interfaces + 1,
            },
            None => rest,
        }
    }
}

/// `bytes` in `elapsed_ms` milliseconds as kilobits per second, and no
/// more than 64 bits hold.
pub open spec fn spec_rate_kbps(bytes: int, elapsed_ms: int) -> int {
    min_int(bytes * 8 / elapsed_ms, u64::MAX as int)
}

fn rate_kbps(bytes: u128, elapsed_ms: u128) -> (r: u64)
    requires
        bytes * 8 <= u128::MAX,
        elapsed_ms > 0,
    ensures
        r == spec_rate_kbps(bytes as int, elapsed_ms as int),
{
    let rate = bytes * 8 / elapsed_ms;
    if rate > u64::MAX as u128 {
        u64::MAX
    } else {
        rate as u64
    }
}

/// The speeds over all interfaces whose readings can be compared: the
/// bytes of all of them over the mean time between their readings; none
/// where no pair of readings can be compared.
pub open spec fn spec_passive_totals(pairs: Seq<(NetworkStats, NetworkStats)>) -> Option<
    PassiveTotals,
> {
    let sums = compared_sums(pairs);
    if sums.interfaces == 0 {
        None
    } else {
        let mean = sums.elapsed_ms / sums.interfaces;
        Some(
            PassiveTotals {
                interfaces: sums.interfaces as usize,
                mean_elapsed_ms: mean as u64,
                download_kbps: spec_rate_kbps(sums.received, mean) as u64,
                upload_kbps: spec_rate_kbps(sums.sent, mean) as u64,
            },
        )
    }
}

/// Each pair that can be compared adds ten seconds to five minutes and no
/// more bytes than a gigabit per second moves in that time.
pub proof fn lemma_compared_sums_bounds(pairs: Seq<(NetworkStats, NetworkStats)>)
    ensures
        0 <= compared_sums(pairs).interfaces <= pairs.len(),
        0 <= compared_sums(pairs).received <= compared_sums(pairs).interfaces
            * MAX_COMPARED_BYTES,
        0 <= compared_sums(pairs).sent <= compared_sums(pairs).interfaces * MAX_COMPARED_BYTES,
        compared_sums(pairs).interfaces * 10_000 <= compared_sums(pairs).elapsed_ms
            <= compared_sums(pairs).interfaces * 300_000,
    decreases pairs.len(),
{
    if pairs.len() > 0 {
        lemma_compared_sums_bounds(pairs.drop_last());
        let rest = compared_sums(pairs.drop_last());
        assert(rest.interfaces * MAX_COMPARED_BYTES + MAX_COMPARED_BYTES == (rest.interfaces + 1)
            * MAX_COMPARED_BYTES) by (nonlinear_arith);
        match spec_traffic_between(pairs.last().0, pairs.last().1) {
            Some(moved) => {
                assert(moved.0 <= 125_000 * 300_000);
                assert(moved.1 <= 125_000 * 300_000);
            },
            None => {},
        }
    }
}

/// What the number of compared interfaces adds to the confidence in a
/// measurement: two tenths for each, three tenths at most.
pub open spec fn interface_quality(valid_measurements: int) -> int {
    min_int(valid_measurements * 200_000, 300_000)
}

/// What the time between the readings adds to the confidence: three tenths
/// from half a minute to two minutes, two tenths from a quarter of a minute
/// to five minutes, else one tenth.
pub open spec fn window_quality(mean_elapsed_ms: int) -> int {
    if 30_000 <= mean_elapsed_ms <= 120_000 {
        300_000
    } else if 15_000 <= mean_elapsed_ms <= 300_000 {
        200_000
    } else {
        100_000
    }
}

/// What the speeds add to the confidence: three tenths where the download
/// is from one megabit to one gigabit per second and the upload from a
/// tenth of a megabit to one gigabit, two tenths where the download is from
/// a tenth of a megabit to two gigabits, else one tenth.
pub open spec fn speed_quality(download_kbps: int, upload_kbps: int) -> int {
    if 1_000 <= download_kbps <= 1_000_000 && 100 <= upload_kbps <= 1_000_000 {
        300_000
    } else if 100 <= download_kbps <= 2_000_000 {
        200_000
    } else {
        100_000
    }
}

/// What the ratio of the speeds adds to the confidence: nothing where
/// either is nothing, one tenth where the download is one to fifty times
/// the upload, else half a tenth.
pub open spec fn ratio_quality(download_kbps: int, upload_kbps: int) -> int {
    if download_kbps <= 0 || upload_kbps <= 0 {
        0
    } else if upload_kbps <= download_kbps <= 50 * upload_kbps {
        100_000
    } else {
        50_000
    }
}

/// The confidence in a passive measurement, in millionths: the sum of what
/// the interfaces, the time between the readings, the speeds and their
/// ratio add.
pub open spec fn spec_measurement_confidence(
    valid_measurements: int,
    mean_elapsed_ms: int,
    download_kbps: int,
    upload_kbps: int,
) -> int {
    interface_quality(valid_measurements) + window_quality(mean_elapsed_ms) + speed_quality(
        download_kbps,
        upload_kbps,
    ) + ratio_quality(download_kbps, upload_kbps)
}

/// The confidence in a passive measurement of `valid_measurements`
/// interfaces, in millionths.
pub fn calculate_measurement_confidence(
    valid_measurements: usize,
    mean_elapsed_ms: u64,
    download_kbps: u64,
    upload_kbps: u64,
) -> (r: u64)
    ensures
        r == spec_measurement_confidence(
            valid_measurements as int,
            mean_elapsed_ms as int,
            download_kbps as int,
            upload_kbps as int,
        ),
        r <= SCALE,
{
    let by_interfaces: u64 = if valid_measurements == 0 {
        0
    } else if valid_measurements == 1 {
        200_000
    } else {
        300_000
    };
    let by_window: u64 = if 30_000 <= mean_elapsed_ms && mean_elapsed_ms <= 120_000 {
        300_000
    } else if 15_000 <= mean_elapsed_ms && mean_elapsed_ms <= 300_000 {
        200_000
    } else {
        100_000
    };
    let by_speed: u64 = if 1_000 <= download_kbps && download_kbps <= 1_000_000 && 100
        <= upload_kbps && upload_kbps <= 1_000_000 {
        300_000
    } else if 100 <= download_kbps && download_kbps <= 2_000_000 {
        200_000
    } else {
        100_000
    };
    let by_ratio: u64 = if download_kbps == 0 || upload_kbps == 0 {
        0
    } else if upload_kbps <= download_kbps && download_kbps as u128 <= 50 * (upload_kbps as u128) {
        100_000
    } else {
        50_000
    };
    by_interfaces + by_window + by_speed + by_ratio
}

/// The measurement that the readings of `pairs` give at the instant `now`:
/// the speeds over all interfaces that can be compared, with the
/// confidence in them; none where no pair of readings can be compared.
pub open spec fn spec_passive_measurement(
    pairs: Seq<(NetworkStats, NetworkStats)>,
    now: i64,
) -> Option<PassiveSpeedResult> {
    match spec_passive_totals(pairs) {
        Some(totals) => Some(
            PassiveSpeedResult {
                timestamp: now,
                download_kbps: totals.download_kbps,
                upload_kbps: totals.upload_kbps,
                confidence: spec_measurement_confidence(
                    totals.interfaces as int,
                    totals.mean_elapsed_ms as int,
                    totals.download_kbps as int,
                    totals.upload_kbps as int,
                ) as u64,
                measurement_duration_ms: totals.mean_elapsed_ms,
            },
        ),
        None => None,
    }
}

/// The measurement that the readings of `pairs` give at the instant `now`.
pub fn passive_measurement(pairs: &Vec<(NetworkStats, NetworkStats)>, now: i64) -> (r: Option<
    PassiveSpeedResult,
>)
    ensures
        r == spec_passive_measurement(pairs@, now),
        r matches Some(result) ==> result.confidence <= SCALE,
{
    match passive_totals(pairs) {
        Some(totals) => Some(
            PassiveSpeedResult {
                timestamp: now,
                download_kbps: totals.download_kbps,
                upload_kbps: totals.upload_kbps,
                confidence: calculate_measurement_confidence(
                    totals.interfaces,
                    totals.mean_elapsed_ms,
                    totals.download_kbps,
                    totals.upload_kbps,
                ),
                measurement_duration_ms: totals.mean_elapsed_ms,
            },
        ),
        None => None,
    }
}

/// The speeds over all interfaces whose two readings can be compared.
pub fn passive_totals(pairs: &Vec<(NetworkStats, NetworkStats)>) -> (r: Option<PassiveTotals>)
    ensures
        r == spec_passive_totals(pairs@),
        r matches Some(totals) ==> 1 <= totals.interfaces <= pairs@.len() && 10_000
            <= totals.mean_elapsed_ms <= 300_000,
{
    let mut received: u128 = 0;
    let mut sent: u128 = 0;
    let mut elapsed_ms: u128 = 0;
    let mut interfaces: usize = 0;
    let mut i: usize = 0;
    while i < pairs.len()
        invariant
            i <= pairs.len(),
            received == compared_sums(pairs@.take(i as int)).received,
            sent == compared_sums(pairs@.take(i as int)).sent,
            elapsed_ms == compared_sums(pairs@.take(i as int)).elapsed_ms,
            interfaces == compared_sums(pairs@.take(i as int)).interfaces,
            interfaces <= i,
        decreases pairs.len() - i,
    {
        proof {
            assert(pairs@.take(i + 1).drop_last() =~= pairs@.take(i as int));
            lemma_compared_sums_bounds(pairs@.take(i as int));
            lemma_compared_sums_bounds(pairs@.take(i + 1));
            assert(i * MAX_COMPARED_BYTES + MAX_COMPARED_BYTES <= usize::MAX * MAX_COMPARED_BYTES)
                by (nonlinear_arith)
                requires
                    i < usize::MAX,
            ;
            assert(compared_sums(pairs@.take(i + 1)).interfaces * MAX_COMPARED_BYTES <= (i + 1)
                * MAX_COMPARED_BYTES) by (nonlinear_arith)
                requires
                    compared_sums(pairs@.take(i + 1)).interfaces <= i + 1,
            ;
            assert(compared_sums(pairs@.take(i + 1)).interfaces * 300_000 <= (i + 1) * 300_000)
                by (nonlinear_arith)
                requires
                    compared_sums(pairs@.take(i + 1)).interfaces <= i + 1,
            ;
        }
        match traffic_between(&pairs[i].0, &pairs[i].1) {
            Some(moved) => {
                received = received + moved.0 as u128;
                sent = sent + moved.1 as u128;
                elapsed_ms = elapsed_ms + moved.2 as u128;
                interfaces = interfaces + 1;
            },
            None => {},
        }
        i = i + 1;
    }
    proof {
        assert(pairs@.take(pairs.len() as int) =~= pairs@);
        lemma_compared_sums_bounds(pairs@);
    }
    if interfaces == 0 {
        return None;
    }
    let mean: u128 = elapsed_ms / interfaces as u128;
    proof {
        let n = interfaces as int;
        assert(10_000 <= elapsed_ms as int / n <= 300_000) by (nonlinear_arith)
            requires
                n >= 1,
                n * 10_000 <= elapsed_ms <= n * 300_000,
        ;
        assert(n * MAX_COMPARED_BYTES <= pairs@.len() * MAX_COMPARED_BYTES) by (nonlinear_arith)
            requires
                n <= pairs@.len(),
        ;
        assert(pairs@.len() * MAX_COMPARED_BYTES * 8 <= usize::MAX * MAX_COMPARED_BYTES * 8)
            by (nonlinear_arith)
            requires
                pairs@.len() <= usize::MAX,
        ;
        assert(usize::MAX * MAX_COMPARED_BYTES * 8 <= u128::MAX) by (nonlinear_arith)
            requires
                usize::MAX <= u64::MAX,
                MAX_COMPARED_BYTES == 37_500_000_000,
        ;
    }
    Some(
        PassiveTotals {
            interfaces,
            mean_elapsed_ms: mean as u64,
            download_kbps: rate_kbps(received, mean),
            upload_kbps: rate_kbps(sent, mean),
        },
    )
}

fn as_signed(n: u64) -> (r: i64)
    ensures
        r == min_int(n as int, i64::MAX as int),
{
    if n > i64::MAX as u64 {
        i64::MAX
    } else {
        n as i64
    }
}

/// The passive monitor's state.
#[derive(Debug, Clone, Copy, PartialEq, Eq, Structural)]
pub struct BackgroundMonitor {
    pub config: MonitoringConfig,
    pub is_running: bool,
    pub count: MeasurementCount,
}

impl BackgroundMonitor {
    /// A monitor at rest with the usual settings.
    pub fn new(now: i64) -> (r: Self)
        ensures
            r == BackgroundMonitor::spec_with_config(
                MonitoringConfig {
                    measurement_interval_seconds: 60,
                    measurement_window_seconds: 30,
                    min_confidence_threshold: 300_000,
                    max_measurements_per_hour: 60,
                },
                now,
            ),
    {
        BackgroundMonitor::with_config(MonitoringConfig::default(), now)
    }

    /// A monitor at rest with the settings given.
    pub open spec fn spec_with_config(config: MonitoringConfig, now: i64) -> BackgroundMonitor {
        BackgroundMonitor {
            config,
            is_running: false,
            count: MeasurementCount { measurements: 0, period_start: now },
        }
    }

    /// A monitor at rest with the settings given.
    pub fn with_config(config: MonitoringConfig, now: i64) -> (r: Self)
        ensures
            r == BackgroundMonitor::spec_with_config(config, now),
    {
        BackgroundMonitor {
            config,
            is_running: false,
            count: MeasurementCount { measurements: 0, period_start: now },
        }
    }

    /// Marks the monitor as running. Returns whether it was at rest.
    pub fn start_monitoring(&mut self) -> (started: bool)
        ensures
            started == !old(self).is_running,
            *final(self) == (BackgroundMonitor { is_running: true, ..*old(self) }),
    {
        let started = !self.is_running;
        self.is_running = true;
        started
    }

    /// Marks the monitor as stopped. Returns whether it was running.
    pub fn stop_monitoring(&mut self) -> (stopped: bool)
        ensures
            stopped == old(self).is_running,
            *final(self) == (BackgroundMonitor { is_running: false, ..*old(self) }),
    {
        let stopped = self.is_running;
        self.is_running = false;
        stopped
    }

    /// Whether the monitor runs.
    pub fn is_monitoring(&self) -> (r: bool)
        ensures
            r == self.is_running,
    {
        self.is_running
    }

    /// What the monitor reports of itself.
    pub fn get_monitoring_stats(&self) -> (r: MonitoringStats)
        ensures
            r == (MonitoringStats {
                is_running: self.is_running,
                measurements_this_hour: self.count.measurements,
                max_measurements_per_hour: self.config.max_measurements_per_hour,
                measurement_interval_seconds: self.config.measurement_interval_seconds,
            }),
    {
        MonitoringStats {
            is_running: self.is_running,
            measurements_this_hour: self.count.measurements,
            max_measurements_per_hour: self.config.max_measurements_per_hour,
            measurement_interval_seconds: self.config.measurement_interval_seconds,
        }
    }

    /// The confidence in a passive measurement, in millionths.
    pub fn calculate_measurement_confidence(
        valid_measurements: usize,
        mean_elapsed_ms: u64,
        download_kbps: u64,
        upload_kbps: u64,
    ) -> (r: u64)
        ensures
            r == spec_measurement_confidence(
                valid_measurements as int,
                mean_elapsed_ms as int,
                download_kbps as int,
                upload_kbps as int,
            ),
            r <= SCALE,
    {
        calculate_measurement_confidence(
            valid_measurements,
            mean_elapsed_ms,
            download_kbps,
            upload_kbps,
        )
    }

    /// The confidence in a throttling pattern.
    pub fn calculate_pattern_confidence(sample_count: usize, severity: u64) -> (r: u64)
        ensures
            r == spec_pattern_confidence(sample_count as int, severity as int),
            r <= SCALE,
    {
        calculate_pattern_confidence(sample_count, severity)
    }

    /// Whether an hour lies in a pattern's span.
    pub fn is_hour_in_pattern(hour: u8, start_hour: u8, end_hour: u8) -> (r: bool)
        ensures
            r == spec_hour_in_pattern(hour, start_hour, end_hour),
    {
        is_hour_in_pattern(hour, start_hour, end_hour)
    }

    /// Merges the patterns that are alike.
    pub fn merge_similar_patterns(patterns: Vec<DetectedThrottlingPattern>) -> (r: Vec<
        DetectedThrottlingPattern,
    >)
        ensures
            shapes(r@) == merged_all(shapes(patterns@)),
    {
        merge_similar_patterns(patterns)
    }

    /// The detection of the provider to go by, from what the methods found.
    pub fn detect_isp(&self, results: &Vec<ISPDetectionResult>, now: i64) -> (r: ISPDetectionResult)
        ensures
            match most_confident(results@) {
                Some(i) => 0 <= i < results@.len() && r.spec_same(results@[i]),
                None => r.spec_is_unknown(now),
            },
    {
        detect_isp(results, now)
    }

    /// What the samples of the last `days` days say of throttling.
    pub fn analyze_throttling_patterns(
        &self,
        samples: &Vec<SpeedMeasurement>,
        days: u32,
        now: i64,
    ) -> (r: PatternAnalysisResult)
        requires
            all_well_formed(samples@),
            valid_timestamp(now as int),
        ensures
            is_throttling_analysis(r, samples@, days, now),
    {
        analyze_throttling_patterns(samples, days, now)
    }

    /// Starts a tick at `now`: renews the count where its period has run
    /// out, and says whether a measurement may be taken.
    pub fn begin_tick(&mut self, now: i64) -> (allowed: bool)
        ensures
            final(self).count == old(self).count.spec_after_reset(now),
            final(self).config == old(self).config,
            final(self).is_running == old(self).is_running,
            allowed == final(self).count.spec_allows(old(self).config),
    {
        self.count.reset_hourly_count_if_needed(now);
        self.count.allows(&self.config)
    }

    /// The sample to store for a measurement: a baseline sample with the
    /// measurement's speeds and confidence, none of them beyond what the
    /// sample's fields hold; none where the confidence is under the threshold.
    pub fn sample_for(&self, result: &PassiveSpeedResult) -> (r: Option<SpeedMeasurement>)
        ensures
            r == (if result.confidence >= self.config.min_confidence_threshold {
                Some(
                    SpeedMeasurement {
                        id: None,
                        timestamp: result.timestamp,
                        download_kbps: min_int(result.download_kbps as int, i64::MAX as int) as i64,
                        upload_kbps: min_int(result.upload_kbps as int, i64::MAX as int) as i64,
                        latency_ms: 0,
                        optimization_active: false,
                        confidence: min_int(result.confidence as int, i64::MAX as int) as i64,
                    },
                )
            } else {
                None
            }),
    {
        if worth_storing(result, &self.config) {
            Some(
                SpeedMeasurement {
                    id: None,
                    timestamp: result.timestamp,
                    download_kbps: as_signed(result.download_kbps),
                    upload_kbps: as_signed(result.upload_kbps),
                    latency_ms: 0,
                    optimization_active: false,
                    confidence: as_signed(result.confidence),
                },
            )
        } else {
            None
        }
    }

    /// Counts one measurement that was stored.
    pub fn count_stored(&mut self)
        ensures
            final(self).config == old(self).config,
            final(self).is_running == old(self).is_running,
            final(self).count.period_start == old(self).count.period_start,
            final(self).count.measurements == min_int(
                old(self).count.measurements + 1,
                u32::MAX as int,
            ),
    {
        self.count.count_stored();
    }
}

} // verus!
