//! The stealth engine's posture: how each level disguises traffic, how the
//! risk of detection is judged, and how the engine answers to it.

use crate::entropy::random_in;
use crate::fixed::{max_int, min_int, SCALE};
use crate::models::StealthLevel;
use crate::servers::regional;
use vstd::prelude::*;

verus! {

/// The effectiveness that is credited to a round of mimicry that went through, in millionths.
pub const ROUND_EFFECTIVENESS: u64 = 800_000;

/// The rotation interval that a medium risk forces, in seconds.
pub const MEDIUM_RISK_ROTATION_S: u64 = 180;

/// The rotation interval that a high risk forces, in seconds.
pub const HIGH_RISK_ROTATION_S: u64 = 120;

/// The pause that a critical risk calls for, in seconds.
pub const CRITICAL_PAUSE_S: u64 = 1;

/// The rotation interval of an engine that has not been started, in seconds.
pub const DEFAULT_ROTATION_S: u64 = 300;

/// The wait after a cycle that failed, in seconds.
pub const FAILED_CYCLE_WAIT_S: u64 = 30;

/// The number of nearest servers that stand in where no regional server is known.
pub const CLOSEST_SERVERS: usize = 5;

/// How a level shapes the traffic.
#[derive(Debug, Clone, Copy)]
pub struct TrafficPattern {
    /// Smallest and largest packet, in bytes.
    pub packet_size_range: (usize, usize),
    /// Shortest and longest wait between cycles, in seconds.
    pub timing_range: (u64, u64),
    /// In millionths.
    pub burst_probability: u64,
    /// In seconds.
    pub keep_alive_interval: u64,
    pub fragmentation_enabled: bool,
    pub header_modification_enabled: bool,
    pub dscp_marking_enabled: bool,
    pub tcp_window_scaling: bool,
}

/// How a level evades deep packet inspection.
#[derive(Debug, Clone, Copy, PartialEq, Eq, Structural)]
pub struct DPIBypassConfig {
    pub packet_fragmentation: bool,
    pub header_obfuscation: bool,
    /// The DSCP value that packets are marked with.
    pub dscp_marking: u8,
    pub tcp_window_size: u16,
    pub mss_clamping: bool,
    pub timing_obfuscation: bool,
    pub dns_pattern_replication: bool,
}

/// How likely it is that the disguise has been seen through.
#[derive(Debug, Clone, Copy, PartialEq, Eq, Structural)]
pub enum DetectionRisk {
    Low,
    Medium,
    High,
    Critical,
}

/// The engine's one hard failure.
#[derive(Debug, Clone, Copy, PartialEq, Eq, Structural)]
pub enum StealthError {
    /// Neither a regional server nor any other is known.
    NoSuitableEndpoints,
}

impl StealthError {
    /// The failure in words.
    pub fn message(self) -> (r: &'static str)
        ensures
            r@ == "No suitable servers found for stealth operations"@,
    {
        "No suitable servers found for stealth operations"
    }
}

/// The traffic pattern of a level.
pub open spec fn spec_traffic_pattern(level: StealthLevel) -> TrafficPattern {
    match level {
        StealthLevel::Low => TrafficPattern {
            packet_size_range: (1000, 1500),
            timing_range: (45, 75),
            burst_probability: 100_000,
            keep_alive_interval: 60,
            fragmentation_enabled: false,
            header_modification_enabled: false,
            dscp_marking_enabled: false,
            tcp_window_scaling: false,
        },
        StealthLevel::Medium => TrafficPattern {
            packet_size_range: (800, 1400),
            timing_range: (30, 90),
            burst_probability: 150_000,
            keep_alive_interval: 45,
            fragmentation_enabled: true,
            header_modification_enabled: false,
            dscp_marking_enabled: true,
            tcp_window_scaling: false,
        },
        StealthLevel::High => TrafficPattern {
            packet_size_range: (500, 1200),
            timing_range: (20, 120),
            burst_probability: 200_000,
            keep_alive_interval: 30,
            fragmentation_enabled: true,
            header_modification_enabled: true,
            dscp_marking_enabled: true,
            tcp_window_scaling: true,
        },
        StealthLevel::Maximum => TrafficPattern {
            packet_size_range: (300, 1000),
            timing_range: (15, 180),
            burst_probability: 250_000,
            keep_alive_interval: 20,
            fragmentation_enabled: true,
            header_modification_enabled: true,
            dscp_marking_enabled: true,
            tcp_window_scaling: true,
        },
    }
}

/// The evasion settings of a level.
pub open spec fn spec_dpi_bypass_config(level: StealthLevel) -> DPIBypassConfig {
    match level {
        StealthLevel::Low => DPIBypassConfig {
            packet_fragmentation: false,
            header_obfuscation: false,
            dscp_marking: 0,
            tcp_window_size: 65535,
            mss_clamping: false,
            timing_obfuscation: false,
            dns_pattern_replication: false,
        },
        StealthLevel::Medium => DPIBypassConfig {
            packet_fragmentation: true,
            header_obfuscation: false,
            dscp_marking: 46,
            tcp_window_size: 32768,
            mss_clamping: false,
            timing_obfuscation: true,
            dns_pattern_replication: true,
        },
        StealthLevel::High => DPIBypassConfig {
            packet_fragmentation: true,
            header_obfuscation: true,
            dscp_marking: 34,
            tcp_window_size: 16384,
            mss_clamping: true,
            timing_obfuscation: true,
            dns_pattern_replication: true,
        },
        StealthLevel::Maximum => DPIBypassConfig {
            packet_fragmentation: true,
            header_obfuscation: true,
            dscp_marking: 26,
            tcp_window_size: 8192,
            mss_clamping: true,
            timing_obfuscation: true,
            dns_pattern_replication: true,
        },
    }
}

/// The rotation interval around which a level's interval is drawn, in seconds.
pub open spec fn spec_base_rotation(level: StealthLevel) -> int {
    match level {
        StealthLevel::Low => 900,
        StealthLevel::Medium => 600,
        StealthLevel::High => 300,
        StealthLevel::Maximum => 180,
    }
}

/// The bytes that one range request of a level asks for.
pub open spec fn spec_range_get_size(level: StealthLevel) -> int {
    match level {
        StealthLevel::Low => 262_144,
        StealthLevel::Medium => 524_288,
        StealthLevel::High => 1_048_576,
        StealthLevel::Maximum => 1_048_576,
    }
}

/// Whether `interval` lies within a quarter of the base interval of `level`, either way.
pub open spec fn rotation_in_range(level: StealthLevel, interval: int) -> bool {
    let base = spec_base_rotation(level);
    base - base / 4 <= interval < base + base / 4
}

impl DetectionRisk {
    /// The risk's rank, 0 for `Low` to 3 for `Critical`.
    pub open spec fn spec_rank(self) -> int {
        match self {
            DetectionRisk::Low => 0,
            DetectionRisk::Medium => 1,
            DetectionRisk::High => 2,
            DetectionRisk::Critical => 3,
        }
    }

    /// The risk that a run of failures stands for.
    pub open spec fn spec_from_failures(failures: int) -> DetectionRisk {
        if failures <= 2 {
            DetectionRisk::Low
        } else if failures <= 5 {
            DetectionRisk::Medium
        } else if failures <= 11 {
            DetectionRisk::High
        } else {
            DetectionRisk::Critical
        }
    }

    /// The risk that an effectiveness score stands for.
    pub open spec fn spec_from_effectiveness(score: int) -> DetectionRisk {
        if score < 300_000 {
            DetectionRisk::High
        } else if score < 600_000 {
            DetectionRisk::Medium
        } else {
            DetectionRisk::Low
        }
    }

    /// The worse of two risks.
    pub open spec fn spec_worse(self, other: DetectionRisk) -> DetectionRisk {
        if self.spec_rank() >= other.spec_rank() {
            self
        } else {
            other
        }
    }

    /// The risk of a state: the worse of what its failures and its effectiveness stand for.
    pub open spec fn spec_assess(failures: int, score: int) -> DetectionRisk {
        DetectionRisk::spec_from_failures(failures).spec_worse(
            DetectionRisk::spec_from_effectiveness(score),
        )
    }

    /// The risk's rank, 0 for `Low` to 3 for `Critical`.
    pub fn rank(self) -> (r: u8)
        ensures
            r == self.spec_rank(),
    {
        match self {
            DetectionRisk::Low => 0,
            DetectionRisk::Medium => 1,
            DetectionRisk::High => 2,
            DetectionRisk::Critical => 3,
        }
    }

    /// The risk that a run of failures stands for.
    pub fn from_failures(failures: u32) -> (r: DetectionRisk)
        ensures
            r == DetectionRisk::spec_from_failures(failures as int),
    {
        if failures <= 2 {
            DetectionRisk::Low
        } else if failures <= 5 {
            DetectionRisk::Medium
        } else if failures <= 11 {
            DetectionRisk::High
        } else {
            DetectionRisk::Critical
        }
    }

    /// The risk that an effectiveness score stands for.
    pub fn from_effectiveness(score: u64) -> (r: DetectionRisk)
        ensures
            r == DetectionRisk::spec_from_effectiveness(score as int),
    {
        if score < 300_000 {
            DetectionRisk::High
        } else if score < 600_000 {
            DetectionRisk::Medium
        } else {
            DetectionRisk::Low
        }
    }

    /// The worse of two risks.
    pub fn worse(self, other: DetectionRisk) -> (r: DetectionRisk)
        ensures
            r == self.spec_worse(other),
    {
        if self.rank() >= other.rank() {
            self
        } else {
            other
        }
    }
}

/// What the engine does about a risk.
#[derive(Debug, Clone, Copy, PartialEq, Eq, Structural)]
pub enum RiskReaction {
    /// Nothing.
    Carry,
    /// The rotation interval was forced down to the given seconds.
    ForceRotation { interval_s: u64 },
    /// The caller pauses for the given seconds and goes on.
    Pause { secs: u64 },
}

impl RiskReaction {
    /// The reaction to a risk: nothing to a low one, a forced rotation
    /// after three minutes to a medium and after two to a high one, a
    /// pause to a critical one.
    pub open spec fn spec_to(risk: DetectionRisk) -> RiskReaction {
        match risk {
            DetectionRisk::Low => RiskReaction::Carry,
            DetectionRisk::Medium => RiskReaction::ForceRotation { interval_s: MEDIUM_RISK_ROTATION_S },
            DetectionRisk::High => RiskReaction::ForceRotation { interval_s: HIGH_RISK_ROTATION_S },
            DetectionRisk::Critical => RiskReaction::Pause { secs: CRITICAL_PAUSE_S },
        }
    }
}

/// A count one higher, or as high as 32 bits go.
pub open spec fn bumped(count: u32) -> u32 {
    if count < u32::MAX {
        (count + 1) as u32
    } else {
        count
    }
}

/// A score moved three tenths of the way towards what was observed,
/// rounded towards the observation.
pub open spec fn spec_ema_success(score: int, observed: int) -> int {
    if observed >= score {
        score + (3 * (observed - score) + 9) / 10
    } else {
        score - (3 * (score - observed) + 9) / 10
    }
}

/// A score lowered by a tenth, rounded down.
pub open spec fn spec_ema_failure(score: int) -> int {
    score * 9 / 10
}

/// What the engine has learned about its own detection.
#[derive(Debug, Clone, Copy, PartialEq, Eq, Structural)]
pub struct AdaptiveStealthState {
    pub current_risk_level: DetectionRisk,
    pub consecutive_failures: u32,
    /// In seconds on the monotonic clock.
    pub last_risk_assessment: u64,
    /// In millionths.
    pub effectiveness_score: u64,
    pub adaptation_count: u32,
}

impl AdaptiveStealthState {
    /// The score is one whole at most.
    pub open spec fn well_formed(self) -> bool {
        self.effectiveness_score <= SCALE
    }

    /// The state of an engine that has seen nothing yet.
    pub open spec fn spec_new(now_s: u64) -> AdaptiveStealthState {
        AdaptiveStealthState {
            current_risk_level: DetectionRisk::Low,
            consecutive_failures: 0,
            last_risk_assessment: now_s,
            effectiveness_score: SCALE,
            adaptation_count: 0,
        }
    }

    /// The state after an attempt. A success with an observed
    /// effectiveness moves the score towards it and leaves the count of
    /// failures alone; a failure raises the count and lowers the score.
    pub open spec fn spec_record(self, success: bool, effectiveness: Option<u64>) -> AdaptiveStealthState {
        if success {
            match effectiveness {
                Some(observed) => AdaptiveStealthState {
                    effectiveness_score: spec_ema_success(
                        self.effectiveness_score as int,
                        observed as int,
                    ) as u64,
                    ..self
                },
                None => self,
            }
        } else {
            AdaptiveStealthState {
                consecutive_failures: bumped(self.consecutive_failures),
                effectiveness_score: spec_ema_failure(self.effectiveness_score as int) as u64,
                ..self
            }
        }
    }

    /// The risk of the state as it is.
    pub open spec fn spec_risk(self) -> DetectionRisk {
        DetectionRisk::spec_assess(self.consecutive_failures as int, self.effectiveness_score as int)
    }

    /// The state of an engine that has seen nothing yet.
    pub fn new(now_s: u64) -> (r: AdaptiveStealthState)
        ensures
            r == AdaptiveStealthState::spec_new(now_s),
            r.well_formed(),
    {
        AdaptiveStealthState {
            current_risk_level: DetectionRisk::Low,
            consecutive_failures: 0,
            last_risk_assessment: now_s,
            effectiveness_score: SCALE,
            adaptation_count: 0,
        }
    }

    /// Notes the outcome of one attempt.
    pub fn record(&mut self, success: bool, effectiveness: Option<u64>)
        requires
            old(self).well_formed(),
            effectiveness matches Some(observed) ==> observed <= SCALE,
        ensures
            *final(self) == old(self).spec_record(success, effectiveness),
            final(self).well_formed(),
    {
        if success {
            if let Some(observed) = effectiveness {
                let score = self.effectiveness_score;
                self.effectiveness_score = if observed >= score {
                    score + (3 * (observed - score) + 9) / 10
                } else {
                    score - (3 * (score - observed) + 9) / 10
                };
            }
        } else {
            if self.consecutive_failures < u32::MAX {
                self.consecutive_failures = self.consecutive_failures + 1;
            }
            self.effectiveness_score = self.effectiveness_score * 9 / 10;
        }
    }

    /// The risk of the state as it is.
    pub fn risk(&self) -> (r: DetectionRisk)
        ensures
            r == self.spec_risk(),
    {
        DetectionRisk::from_failures(self.consecutive_failures).worse(
            DetectionRisk::from_effectiveness(self.effectiveness_score),
        )
    }
}

/// A failure lowers a score that is above nothing.
pub proof fn lemma_failure_lowers_score(state: AdaptiveStealthState)
    requires
        state.effectiveness_score > 0,
    ensures
        state.spec_record(false, None).effectiveness_score < state.effectiveness_score,
        state.spec_record(false, None).consecutive_failures >= state.consecutive_failures,
{
}

/// A success that is observed to do better than the score raises the
/// score, and never beyond what was observed.
pub proof fn lemma_better_success_raises_score(state: AdaptiveStealthState, observed: u64)
    requires
        observed > state.effectiveness_score,
    ensures
        state.effectiveness_score < state.spec_record(true, Some(observed)).effectiveness_score
            <= observed,
        state.spec_record(true, Some(observed)).consecutive_failures == state.consecutive_failures,
{
}

/// A success never counts as a failure, and a score never leaves the span
/// between what it was and what was observed.
pub proof fn lemma_success_stays_between(state: AdaptiveStealthState, observed: u64)
    ensures
        min_int(state.effectiveness_score as int, observed as int) <= state.spec_record(
            true,
            Some(observed),
        ).effectiveness_score <= max_int(state.effectiveness_score as int, observed as int),
{
}

/// A success moves the score to seven tenths of itself and three tenths of
/// what was observed, rounded to a millionth towards the observation; where
/// the observation is better by two millionths or more, the new score lies
/// strictly between the old score and the observation. A failure moves the
/// score to nine tenths of itself, rounded down to a millionth.
pub proof fn lemma_score_is_a_moving_average(state: AdaptiveStealthState, observed: u64)
    ensures
        observed >= state.effectiveness_score ==> 0 <= 10 * state.spec_record(
            true,
            Some(observed),
        ).effectiveness_score - (7 * state.effectiveness_score + 3 * observed) < 10,
        observed <= state.effectiveness_score ==> -10 < 10 * state.spec_record(
            true,
            Some(observed),
        ).effectiveness_score - (7 * state.effectiveness_score + 3 * observed) <= 0,
        observed >= state.effectiveness_score + 2 ==> state.effectiveness_score
            < state.spec_record(true, Some(observed)).effectiveness_score < observed,
        observed == state.effectiveness_score + 1 ==> state.spec_record(
            true,
            Some(observed),
        ).effectiveness_score == observed,
        0 <= 9 * state.effectiveness_score - 10 * state.spec_record(
            false,
            None,
        ).effectiveness_score < 10,
{
}

/// At a given effectiveness, more failures never mean less risk; and
/// failures alone decide as the bands say.
pub proof fn lemma_risk_grows_with_failures(fewer: u32, more: u32, score: u64)
    requires
        fewer <= more,
    ensures
        DetectionRisk::spec_assess(fewer as int, score as int).spec_rank()
            <= DetectionRisk::spec_assess(more as int, score as int).spec_rank(),
        DetectionRisk::spec_from_failures(fewer as int).spec_rank()
            <= DetectionRisk::spec_from_failures(more as int).spec_rank(),
        0 <= more <= 2 ==> DetectionRisk::spec_from_failures(more as int) == DetectionRisk::Low,
        3 <= more <= 5 ==> DetectionRisk::spec_from_failures(more as int) == DetectionRisk::Medium,
        6 <= more <= 11 ==> DetectionRisk::spec_from_failures(more as int) == DetectionRisk::High,
        12 <= more ==> DetectionRisk::spec_from_failures(more as int) == DetectionRisk::Critical,
        more >= 12 ==> DetectionRisk::spec_assess(more as int, score as int)
            == DetectionRisk::Critical,
{
}

/// The traffic pattern of a level.
pub fn create_traffic_pattern(level: StealthLevel) -> (r: TrafficPattern)
    ensures
        r == spec_traffic_pattern(level),
{
    match level {
        StealthLevel::Low => TrafficPattern {
            packet_size_range: (1000, 1500),
            timing_range: (45, 75),
            burst_probability: 100_000,
            keep_alive_interval: 60,
            fragmentation_enabled: false,
            header_modification_enabled: false,
            dscp_marking_enabled: false,
            tcp_window_scaling: false,
        },
        StealthLevel::Medium => TrafficPattern {
            packet_size_range: (800, 1400),
            timing_range: (30, 90),
            burst_probability: 150_000,
            keep_alive_interval: 45,
            fragmentation_enabled: true,
            header_modification_enabled: false,
            dscp_marking_enabled: true,
            tcp_window_scaling: false,
        },
        StealthLevel::High => TrafficPattern {
            packet_size_range: (500, 1200),
            timing_range: (20, 120),
            burst_probability: 200_000,
            keep_alive_interval: 30,
            fragmentation_enabled: true,
            header_modification_enabled: true,
            dscp_marking_enabled: true,
            tcp_window_scaling: true,
        },
        StealthLevel::Maximum => TrafficPattern {
            packet_size_range: (300, 1000),
            timing_range: (15, 180),
            burst_probability: 250_000,
            keep_alive_interval: 20,
            fragmentation_enabled: true,
            header_modification_enabled: true,
            dscp_marking_enabled: true,
            tcp_window_scaling: true,
        },
    }
}

/// The evasion settings of a level.
pub fn create_dpi_bypass_config(level: StealthLevel) -> (r: DPIBypassConfig)
    ensures
        r == spec_dpi_bypass_config(level),
{
    match level {
        StealthLevel::Low => DPIBypassConfig {
            packet_fragmentation: false,
            header_obfuscation: false,
            dscp_marking: 0,
            tcp_window_size: 65535,
            mss_clamping: false,
            timing_obfuscation: false,
            dns_pattern_replication: false,
        },
        StealthLevel::Medium => DPIBypassConfig {
            packet_fragmentation: true,
            header_obfuscation: false,
            dscp_marking: 46,
            tcp_window_size: 32768,
            mss_clamping: false,
            timing_obfuscation: true,
            dns_pattern_replication: true,
        },
        StealthLevel::High => DPIBypassConfig {
            packet_fragmentation: true,
            header_obfuscation: true,
            dscp_marking: 34,
            tcp_window_size: 16384,
            mss_clamping: true,
            timing_obfuscation: true,
            dns_pattern_replication: true,
        },
        StealthLevel::Maximum => DPIBypassConfig {
            packet_fragmentation: true,
            header_obfuscation: true,
            dscp_marking: 26,
            tcp_window_size: 8192,
            mss_clamping: true,
            timing_obfuscation: true,
            dns_pattern_replication: true,
        },
    }
}

/// A higher level sends smaller packets at more widely spread times, and
/// switches off nothing that a lower level has switched on; the highest
/// level has everything switched on.
pub proof fn lemma_higher_level_disguises_more(lower: StealthLevel, higher: StealthLevel)
    requires
        lower.spec_rank() <= higher.spec_rank(),
    ensures
        ({
            let a = spec_traffic_pattern(lower);
            let b = spec_traffic_pattern(higher);
            &&& b.packet_size_range.0 <= a.packet_size_range.0
            &&& b.packet_size_range.1 <= a.packet_size_range.1
            &&& b.timing_range.0 <= a.timing_range.0
            &&& b.timing_range.1 >= a.timing_range.1
            &&& b.keep_alive_interval <= a.keep_alive_interval
            &&& b.burst_probability >= a.burst_probability
            &&& a.fragmentation_enabled ==> b.fragmentation_enabled
            &&& a.header_modification_enabled ==> b.header_modification_enabled
            &&& a.dscp_marking_enabled ==> b.dscp_marking_enabled
            &&& a.tcp_window_scaling ==> b.tcp_window_scaling
        }),
        ({
            let a = spec_dpi_bypass_config(lower);
            let b = spec_dpi_bypass_config(higher);
            &&& a.packet_fragmentation ==> b.packet_fragmentation
            &&& a.header_obfuscation ==> b.header_obfuscation
            &&& a.mss_clamping ==> b.mss_clamping
            &&& a.timing_obfuscation ==> b.timing_obfuscation
            &&& a.dns_pattern_replication ==> b.dns_pattern_replication
            &&& b.tcp_window_size <= a.tcp_window_size
        }),
        ({
            let top = spec_traffic_pattern(StealthLevel::Maximum);
            let dpi = spec_dpi_bypass_config(StealthLevel::Maximum);
            &&& top.fragmentation_enabled && top.header_modification_enabled
                && top.dscp_marking_enabled && top.tcp_window_scaling
            &&& dpi.packet_fragmentation && dpi.header_obfuscation && dpi.mss_clamping
                && dpi.timing_obfuscation && dpi.dns_pattern_replication
        }),
        forall|level: StealthLevel|
            (#[trigger] spec_traffic_pattern(level)).packet_size_range.0 < spec_traffic_pattern(
                level,
            ).packet_size_range.1 && spec_traffic_pattern(level).timing_range.0
                < spec_traffic_pattern(level).timing_range.1,
{
}

/// The rotation interval around which a level's interval is drawn, in seconds.
pub fn base_rotation(level: StealthLevel) -> (r: u64)
    ensures
        r == spec_base_rotation(level),
{
    match level {
        StealthLevel::Low => 900,
        StealthLevel::Medium => 600,
        StealthLevel::High => 300,
        StealthLevel::Maximum => 180,
    }
}

/// The bytes that one range request of a level asks for.
pub fn range_get_size(level: StealthLevel) -> (r: u64)
    ensures
        r == spec_range_get_size(level),
{
    match level {
        StealthLevel::Low => 262_144,
        StealthLevel::Medium => 524_288,
        StealthLevel::High => 1_048_576,
        StealthLevel::Maximum => 1_048_576,
    }
}

/// A rotation interval for a level: the level's base interval, by chance
/// up to a quarter shorter or longer.
pub fn draw_rotation_interval(level: StealthLevel) -> (r: u64)
    ensures
        rotation_in_range(level, r as int),
        r > 0,
{
    let base = base_rotation(level);
    let quarter = base / 4;
    base - quarter + random_in(0, 2 * quarter)
}

} // verus!
