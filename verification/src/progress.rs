//! The progress of optimization as the popover shows it.

use crate::clock::valid_timestamp;
use crate::fixed::{max_int, mean, mean_of, min_int, SCALE};
use crate::models::SpeedMeasurement;
use crate::samples::{all_well_formed, count, select, select_values, Metric, SampleFilter};
use vstd::prelude::*;
use vstd::string::*;

verus! {

/// The rotation interval where no strategy gives one, in seconds.
pub const DEFAULT_ROTATION_SECONDS: u32 = 600;

/// The time between two progress events, in seconds.
pub const BROADCAST_PERIOD_S: u32 = 2;

/// The least improvement that is shown, in millionths.
pub const MIN_SHOWN_IMPROVEMENT: u64 = 500_000;

/// The highest improvement that is shown, in millionths.
pub const MAX_SHOWN_IMPROVEMENT: u64 = 5_000_000;

/// The span of samples from which the speeds of the moment are taken, in seconds.
pub const LIVE_WINDOW_S: i64 = 120;

/// The span of samples from which the baseline of the moment is taken, in seconds.
pub const LIVE_BASELINE_WINDOW_S: i64 = 1_800;

/// What the optimizer is doing since it was switched on.
#[derive(Debug, Clone, Copy, PartialEq, Eq, Structural)]
pub enum ProgressPhase {
    Resolving,
    Connecting,
    Tuning,
    Optimizing,
    Inactive,
    Error,
}

/// The server that traffic goes to.
#[derive(Debug, Clone)]
pub struct ServerInfo {
    pub host: String,
    pub region: String,
    pub ip: Option<String>,
    pub stealth_level: Option<String>,
}

/// The speeds of the moment.
#[derive(Debug, Clone, Copy, PartialEq, Eq, Structural)]
pub struct LiveMetrics {
    pub down_kbps: u64,
    pub up_kbps: u64,
    pub latency_ms: u32,
    /// In millionths.
    pub improvement: u64,
}

/// One progress event.
#[derive(Debug, Clone)]
pub struct OptimizationProgressPayload {
    pub phase: ProgressPhase,
    pub phase_percent: u8,
    pub server: ServerInfo,
    pub metrics: LiveMetrics,
    pub next_rotation_s: u32,
    pub confidence: u64,
    pub timestamp: String,
}

impl ProgressPhase {
    /// The phase's name in events.
    pub fn name(self) -> (r: &'static str)
        ensures
            r@ == (match self {
                ProgressPhase::Resolving => "resolving"@,
                ProgressPhase::Connecting => "connecting"@,
                ProgressPhase::Tuning => "tuning"@,
                ProgressPhase::Optimizing => "optimizing"@,
                ProgressPhase::Inactive => "inactive"@,
                ProgressPhase::Error => "error"@,
            }),
    {
        match self {
            ProgressPhase::Resolving => "resolving",
            ProgressPhase::Connecting => "connecting",
            ProgressPhase::Tuning => "tuning",
            ProgressPhase::Optimizing => "optimizing",
            ProgressPhase::Inactive => "inactive",
            ProgressPhase::Error => "error",
        }
    }
}

/// The phase and its percentage `elapsed_ms` milliseconds after
/// optimization was switched on: resolving for three seconds, up to 30;
/// connecting for four, up to 70; tuning for three, up to 95; then optimizing.
pub open spec fn spec_phase(elapsed_ms: u64) -> (ProgressPhase, int) {
    if elapsed_ms < 3_000 {
        (ProgressPhase::Resolving, elapsed_ms * 30 / 3_000)
    } else if elapsed_ms < 7_000 {
        (ProgressPhase::Connecting, 30 + (elapsed_ms - 3_000) * 40 / 4_000)
    } else if elapsed_ms < 10_000 {
        (ProgressPhase::Tuning, 70 + (elapsed_ms - 7_000) * 25 / 3_000)
    } else {
        (ProgressPhase::Optimizing, 100)
    }
}

/// The phase and its percentage `elapsed_ms` milliseconds after optimization was switched on.
pub fn phase_at(elapsed_ms: u64) -> (r: (ProgressPhase, u8))
    ensures
        (r.0, r.1 as int) == spec_phase(elapsed_ms),
        r.1 <= 100,
{
    if elapsed_ms < 3_000 {
        (ProgressPhase::Resolving, (elapsed_ms * 30 / 3_000) as u8)
    } else if elapsed_ms < 7_000 {
        (ProgressPhase::Connecting, (30 + (elapsed_ms - 3_000) * 40 / 4_000) as u8)
    } else if elapsed_ms < 10_000 {
        (ProgressPhase::Tuning, (70 + (elapsed_ms - 7_000) * 25 / 3_000) as u8)
    } else {
        (ProgressPhase::Optimizing, 100)
    }
}

/// The seconds between rotations for a strategy that rotates every
/// `minutes` minutes; the default where there is no strategy or it gives nothing.
pub open spec fn spec_rotation_seconds(minutes: Option<u32>) -> int {
    match minutes {
        Some(m) => if m == 0 {
            DEFAULT_ROTATION_SECONDS as int
        } else {
            min_int(m * 60, u32::MAX as int)
        },
        None => DEFAULT_ROTATION_SECONDS as int,
    }
}

/// The seconds between rotations.
pub fn rotation_seconds(minutes: Option<u32>) -> (r: u32)
    ensures
        r == spec_rotation_seconds(minutes),
        r > 0,
{
    match minutes {
        Some(m) => {
            if m == 0 {
                DEFAULT_ROTATION_SECONDS
            } else if m > u32::MAX / 60 {
                u32::MAX
            } else {
                m * 60
            }
        },
        None => DEFAULT_ROTATION_SECONDS,
    }
}

/// The countdown to the next rotation after one more event: two seconds
/// less while optimizing, and from the top again once it has run out.
pub open spec fn spec_countdown(phase: ProgressPhase, remaining: u32, rotation: u32) -> int {
    let after = if phase == ProgressPhase::Optimizing && remaining > 0 {
        max_int(remaining - BROADCAST_PERIOD_S, 0)
    } else {
        remaining as int
    };
    if after == 0 {
        rotation as int
    } else {
        after
    }
}

/// The countdown to the next rotation after one more event.
pub fn countdown(phase: ProgressPhase, remaining: u32, rotation: u32) -> (r: u32)
    ensures
        r == spec_countdown(phase, remaining, rotation),
{
    let after: u32 = match phase {
        ProgressPhase::Optimizing => {
            if remaining >= BROADCAST_PERIOD_S {
                remaining - BROADCAST_PERIOD_S
            } else {
                0
            }
        },
        _ => remaining,
    };
    if after == 0 {
        rotation
    } else {
        after
    }
}

/// The improvement that is shown for a speed against a baseline: their
/// ratio kept between a half and five, or one whole where either is nothing.
pub open spec fn spec_shown_improvement(down_kbps: u64, baseline_kbps: u64) -> int {
    if baseline_kbps > 0 && down_kbps > 0 {
        min_int(
            max_int(down_kbps * SCALE / (baseline_kbps as int), MIN_SHOWN_IMPROVEMENT as int),
            MAX_SHOWN_IMPROVEMENT as int,
        )
    } else {
        SCALE as int
    }
}

/// The improvement that is shown for a speed against a baseline.
pub fn shown_improvement(down_kbps: u64, baseline_kbps: u64) -> (r: u64)
    ensures
        r == spec_shown_improvement(down_kbps, baseline_kbps),
{
    if baseline_kbps > 0 && down_kbps > 0 {
        proof {
            assert(down_kbps * SCALE <= u64::MAX * SCALE) by (nonlinear_arith)
                requires
                    down_kbps <= u64::MAX,
                    SCALE == 1_000_000,
            ;
        }
        let ratio: u128 = down_kbps as u128 * SCALE as u128 / baseline_kbps as u128;
        if ratio < MIN_SHOWN_IMPROVEMENT as u128 {
            MIN_SHOWN_IMPROVEMENT
        } else if ratio > MAX_SHOWN_IMPROVEMENT as u128 {
            MAX_SHOWN_IMPROVEMENT
        } else {
            ratio as u64
        }
    } else {
        SCALE
    }
}

/// The confidence that is shown for `samples` samples of the last two
/// minutes: complete at ten.
pub fn shown_confidence(samples: usize) -> (r: u64)
    ensures
        r == min_int(samples * 100_000, SCALE as int),
{
    if samples >= 10 {
        SCALE
    } else {
        samples as u64 * 100_000
    }
}

/// The metrics of a system that does not optimize.
pub fn inactive_metrics() -> (r: LiveMetrics)
    ensures
        r == (LiveMetrics { down_kbps: 0, up_kbps: 0, latency_ms: 0, improvement: SCALE }),
{
    LiveMetrics { down_kbps: 0, up_kbps: 0, latency_ms: 0, improvement: SCALE }
}

/// The samples of the last two minutes before `now`.
pub open spec fn live_window(now: i64) -> SampleFilter {
    SampleFilter::spec_since((now - LIVE_WINDOW_S) as i64)
}

/// The samples without optimization of the last half hour before `now`.
pub open spec fn live_baseline_window(now: i64) -> SampleFilter {
    SampleFilter {
        optimized: Some(false),
        ..SampleFilter::spec_since((now - LIVE_BASELINE_WINDOW_S) as i64)
    }
}

/// The speeds of the moment: the mean speeds of the last two minutes, and
/// what the download speed is of the mean download speed without
/// optimization of the last half hour.
pub open spec fn spec_live_metrics(history: Seq<SpeedMeasurement>, now: i64) -> LiveMetrics {
    let down = mean(select(history, live_window(now), Metric::Download)) as u64;
    let up = mean(select(history, live_window(now), Metric::Upload)) as u64;
    let baseline = mean(select(history, live_baseline_window(now), Metric::Download)) as u64;
    LiveMetrics {
        down_kbps: down,
        up_kbps: up,
        latency_ms: 0,
        improvement: spec_shown_improvement(down, baseline) as u64,
    }
}

/// The speeds of the moment.
pub fn live_metrics(history: &Vec<SpeedMeasurement>, now: i64) -> (r: LiveMetrics)
    requires
        all_well_formed(history@),
        valid_timestamp(now as int),
    ensures
        r == spec_live_metrics(history@, now),
{
    let recent = SampleFilter::since(now - LIVE_WINDOW_S);
    let unoptimized = SampleFilter {
        optimized: Some(false),
        since: Some(now - LIVE_BASELINE_WINDOW_S),
        after: None,
        until: None,
        hour: None,
        weekday: None,
    };
    let downs = select_values(history, &recent, Metric::Download);
    let ups = select_values(history, &recent, Metric::Upload);
    let bases = select_values(history, &unoptimized, Metric::Download);
    let down = mean_of(&downs);
    let up = mean_of(&ups);
    let baseline = mean_of(&bases);
    LiveMetrics { down_kbps: down, up_kbps: up, latency_ms: 0, improvement: shown_improvement(down, baseline) }
}

/// What the broadcaster remembers between two events.
#[derive(Debug, Clone, Copy, PartialEq, Eq, Structural)]
pub struct BroadcastState {
    /// When optimization was first seen switched on, in milliseconds on
    /// the monotonic clock; none while it is off.
    pub since_enabled_ms: Option<u64>,
    /// The countdown to the next rotation, in seconds.
    pub next_rotation_s: u32,
    /// The seconds between rotations.
    pub rotation_seconds: u32,
}

impl BroadcastState {
    /// The state of a broadcaster that starts, for a strategy that
    /// rotates every `minutes` minutes.
    pub open spec fn spec_new(minutes: Option<u32>) -> BroadcastState {
        BroadcastState {
            since_enabled_ms: None,
            next_rotation_s: spec_rotation_seconds(minutes) as u32,
            rotation_seconds: spec_rotation_seconds(minutes) as u32,
        }
    }

    /// The milliseconds since optimization was seen switched on, at `now_ms`.
    pub open spec fn spec_elapsed_ms(self, now_ms: u64) -> u64 {
        match self.since_enabled_ms {
            Some(since) => if now_ms >= since {
                (now_ms - since) as u64
            } else {
                0
            },
            None => 0,
        }
    }

    /// The state after the event at `now_ms`: while optimization is off
    /// nothing is remembered of when it was on; while it is on, the first
    /// event marks the instant and every event moves the countdown.
    pub open spec fn spec_after(self, enabled: bool, now_ms: u64) -> BroadcastState {
        if !enabled {
            BroadcastState { since_enabled_ms: None, ..self }
        } else {
            let marked = BroadcastState {
                since_enabled_ms: match self.since_enabled_ms {
                    Some(since) => Some(since),
                    None => Some(now_ms),
                },
                ..self
            };
            BroadcastState {
                next_rotation_s: spec_countdown(
                    spec_phase(marked.spec_elapsed_ms(now_ms)).0,
                    self.next_rotation_s,
                    self.rotation_seconds,
                ) as u32,
                ..marked
            }
        }
    }

    /// The state of a broadcaster that starts, for a strategy that
    /// rotates every `minutes` minutes.
    pub fn new(minutes: Option<u32>) -> (r: Self)
        ensures
            r == BroadcastState::spec_new(minutes),
    {
        let rotation = rotation_seconds(minutes);
        BroadcastState { since_enabled_ms: None, next_rotation_s: rotation, rotation_seconds: rotation }
    }

    /// One event: moves the state on and says what is shown. While
    /// optimization is off the event is that of an inactive system. While it
    /// is on, the event carries the phase since it was switched on, the
    /// speeds of the moment, the countdown and a confidence that is complete
    /// at ten samples of the last two minutes.
    pub fn tick(
        &mut self,
        enabled: bool,
        now_ms: u64,
        history: &Vec<SpeedMeasurement>,
        now: i64,
        timestamp: String,
    ) -> (event: OptimizationProgressPayload)
        requires
            all_well_formed(history@),
            valid_timestamp(now as int),
        ensures
            *final(self) == old(self).spec_after(enabled, now_ms),
            event.timestamp == timestamp,
            event.server.region@ == ""@,
            event.server.ip is None,
            event.metrics.latency_ms == 0,
            !enabled ==> {
                &&& event.phase == ProgressPhase::Inactive
                &&& event.phase_percent == 0
                &&& event.server.host@ == ""@
                &&& event.server.stealth_level is None
                &&& event.metrics == (LiveMetrics {
                    down_kbps: 0,
                    up_kbps: 0,
                    latency_ms: 0,
                    improvement: SCALE,
                })
                &&& event.next_rotation_s == 0
                &&& event.confidence == 0
            },
            enabled ==> {
                &&& (event.phase, event.phase_percent as int) == spec_phase(
                    final(self).spec_elapsed_ms(now_ms),
                )
                &&& event.server.host@ == "Auto route"@
                &&& event.server.stealth_level matches Some(level) && level@ == "High"@
                &&& event.metrics == spec_live_metrics(history@, now)
                &&& event.next_rotation_s == final(self).next_rotation_s
                &&& event.confidence == min_int(
                    count(history@, live_window(now)) as int * 100_000,
                    SCALE as int,
                )
            },
    {
        if !enabled {
            self.since_enabled_ms = None;
            return OptimizationProgressPayload {
                phase: ProgressPhase::Inactive,
                phase_percent: 0,
                server: ServerInfo {
                    host: String::from_str(""),
                    region: String::from_str(""),
                    ip: None,
                    stealth_level: None,
                },
                metrics: inactive_metrics(),
                next_rotation_s: 0,
                confidence: 0,
                timestamp,
            };
        }
        let since = match self.since_enabled_ms {
            Some(since) => since,
            None => now_ms,
        };
        self.since_enabled_ms = Some(since);
        let elapsed: u64 = if now_ms >= since {
            now_ms - since
        } else {
            0
        };
        let (phase, percent) = phase_at(elapsed);
        self.next_rotation_s = countdown(phase, self.next_rotation_s, self.rotation_seconds);
        let recent = SampleFilter::since(now - LIVE_WINDOW_S);
        let samples = crate::samples::count_where(history, &recent);
        OptimizationProgressPayload {
            phase,
            phase_percent: percent,
            server: ServerInfo {
                host: String::from_str("Auto route"),
                region: String::from_str(""),
                ip: None,
                stealth_level: Some(String::from_str("High")),
            },
            metrics: live_metrics(history, now),
            next_rotation_s: self.next_rotation_s,
            confidence: shown_confidence(samples),
            timestamp,
        }
    }
}

} // verus!
