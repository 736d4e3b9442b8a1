//! The cadence scheduler: when the next burst goes out and how large it is.
//!
//! The scheduler itself performs nothing. Each tick the caller hands it the
//! facts of the moment, gets a plan back, carries the plan out and reports
//! how the burst went. Budgets are kilobytes, times are seconds on a clock
//! that never runs backwards.

use crate::clock::WallClock;
use crate::fixed::{lemma_mean_bounds, max_int, mean, mean_of, min_int, MAX_MAGNITUDE, SCALE};
use crate::models::SpeedMeasurement;
use crate::samples::{all_well_formed, select, select_values, Metric, SampleFilter};
use crate::text::str_eq;
use vstd::prelude::*;

verus! {

/// The burst size that the scheduler starts from, and the floor of a warm-up burst.
pub const DEFAULT_BURST_KB: u32 = 64;

/// The largest burst where no sizes are configured.
pub const DEFAULT_MAX_BURST_KB: u32 = 256;

/// The length of a budget period, in seconds.
pub const BUDGET_PERIOD_S: u64 = 3_600;

/// The share of the interval by which a tick may come early or late, in millionths.
pub const INTERVAL_JITTER: u64 = 150_000;

/// The number of times one burst is attempted.
pub const MAX_BURST_ATTEMPTS: u8 = 3;

/// The span of each of the two windows that the throughput trend compares, in seconds.
pub const TREND_WINDOW_S: i64 = 20;

/// The pacing phase.
#[derive(Debug, Clone, Copy, PartialEq, Eq, Structural)]
pub enum KeeperCadence {
    Warmup,
    Steady,
    Recovery,
    Suspended,
}

impl KeeperCadence {
    /// The phase's name in progress events.
    pub open spec fn spec_name(self) -> Seq<char> {
        match self {
            KeeperCadence::Warmup => "warmup"@,
            KeeperCadence::Steady => "steady"@,
            KeeperCadence::Recovery => "recovery"@,
            KeeperCadence::Suspended => "suspended"@,
        }
    }

    /// The phase that a name stands for.
    pub open spec fn spec_from_name(s: Seq<char>) -> Option<KeeperCadence> {
        if s == "warmup"@ {
            Some(KeeperCadence::Warmup)
        } else if s == "steady"@ {
            Some(KeeperCadence::Steady)
        } else if s == "recovery"@ {
            Some(KeeperCadence::Recovery)
        } else if s == "suspended"@ {
            Some(KeeperCadence::Suspended)
        } else {
            None
        }
    }

    /// Seconds between ticks before stretching and jitter.
    pub open spec fn spec_base_interval(self) -> int {
        match self {
            KeeperCadence::Warmup => 5,
            KeeperCadence::Recovery => 5,
            KeeperCadence::Steady => 10,
            KeeperCadence::Suspended => 15,
        }
    }

    /// The phase after one tick of an enabled scheduler with budget left.
    pub open spec fn spec_next(self, drop_detected: bool, stable_enough: bool) -> KeeperCadence {
        match self {
            KeeperCadence::Warmup => if stable_enough {
                KeeperCadence::Steady
            } else {
                KeeperCadence::Warmup
            },
            KeeperCadence::Steady => if drop_detected {
                KeeperCadence::Recovery
            } else {
                KeeperCadence::Steady
            },
            KeeperCadence::Recovery => if stable_enough {
                KeeperCadence::Steady
            } else {
                KeeperCadence::Recovery
            },
            KeeperCadence::Suspended => KeeperCadence::Warmup,
        }
    }

    /// The phase's name in progress events.
    pub fn name(self) -> (r: &'static str)
        ensures
            r@ == self.spec_name(),
    {
        match self {
            KeeperCadence::Warmup => "warmup",
            KeeperCadence::Steady => "steady",
            KeeperCadence::Recovery => "recovery",
            KeeperCadence::Suspended => "suspended",
        }
    }

    /// The phase that a name stands for.
    pub fn from_name(s: &str) -> (r: Option<KeeperCadence>)
        ensures
            r == KeeperCadence::spec_from_name(s@),
    {
        if str_eq(s, "warmup") {
            Some(KeeperCadence::Warmup)
        } else if str_eq(s, "steady") {
            Some(KeeperCadence::Steady)
        } else if str_eq(s, "recovery") {
            Some(KeeperCadence::Recovery)
        } else if str_eq(s, "suspended") {
            Some(KeeperCadence::Suspended)
        } else {
            None
        }
    }

    /// Seconds between ticks before stretching and jitter.
    pub fn base_interval(self) -> (r: u64)
        ensures
            r == self.spec_base_interval(),
    {
        match self {
            KeeperCadence::Warmup => 5,
            KeeperCadence::Recovery => 5,
            KeeperCadence::Steady => 10,
            KeeperCadence::Suspended => 15,
        }
    }

    /// The phase after one tick of an enabled scheduler with budget left.
    pub fn next(self, drop_detected: bool, stable_enough: bool) -> (r: KeeperCadence)
        ensures
            r == self.spec_next(drop_detected, stable_enough),
    {
        match self {
            KeeperCadence::Warmup => if stable_enough {
                KeeperCadence::Steady
            } else {
                KeeperCadence::Warmup
            },
            KeeperCadence::Steady => if drop_detected {
                KeeperCadence::Recovery
            } else {
                KeeperCadence::Steady
            },
            KeeperCadence::Recovery => if stable_enough {
                KeeperCadence::Steady
            } else {
                KeeperCadence::Recovery
            },
            KeeperCadence::Suspended => KeeperCadence::Warmup,
        }
    }
}

/// A phase name reads back as the phase that wrote it.
pub proof fn lemma_cadence_name_round_trip(cadence: KeeperCadence)
    ensures
        KeeperCadence::spec_from_name(cadence.spec_name()) == Some(cadence),
{
    reveal_strlit("warmup");
    reveal_strlit("steady");
    reveal_strlit("recovery");
    reveal_strlit("suspended");
    assert("warmup"@.len() == 6);
    assert("steady"@.len() == 6);
    assert("recovery"@.len() == 8);
    assert("suspended"@.len() == 9);
    assert("warmup"@[0] == 'w');
    assert("steady"@[0] == 's');
}

/// The scheduler's settings.
#[derive(Debug, Clone)]
pub struct ThroughputKeeperConfig {
    pub enabled: bool,
    /// Kilobytes that may be sent per budget period.
    pub hourly_budget_kb: u64,
    pub burst_sizes_kb: Vec<u32>,
    /// Hours of the day, UTC, in which nothing is sent.
    pub quiet_hours: Option<Vec<u8>>,
    /// The fall of the throughput trend that ends the steady phase, in millionths.
    pub tighten_threshold_drop: u64,
    /// Seconds without a change of phase after which the scheduler turns steady.
    pub relax_threshold_stability_s: u32,
}

/// The smallest of `sizes`; the default burst where there are none.
pub open spec fn smallest_size(sizes: Seq<u32>) -> int
    decreases sizes.len(),
{
    if sizes.len() == 0 {
        DEFAULT_BURST_KB as int
    } else if sizes.len() == 1 {
        sizes[0] as int
    } else {
        min_int(smallest_size(sizes.drop_last()), sizes.last() as int)
    }
}

/// The largest of `sizes`; the default maximum where there are none.
pub open spec fn largest_size(sizes: Seq<u32>) -> int
    decreases sizes.len(),
{
    if sizes.len() == 0 {
        DEFAULT_MAX_BURST_KB as int
    } else if sizes.len() == 1 {
        sizes[0] as int
    } else {
        max_int(largest_size(sizes.drop_last()), sizes.last() as int)
    }
}

/// The smallest and the largest size fit in 32 bits.
pub proof fn lemma_size_bounds(sizes: Seq<u32>)
    ensures
        0 <= smallest_size(sizes) <= u32::MAX,
        0 <= largest_size(sizes) <= u32::MAX,
    decreases sizes.len(),
{
    if sizes.len() > 1 {
        lemma_size_bounds(sizes.drop_last());
    }
}

/// The size of the next burst, in kilobytes: the smallest configured size
/// while warming up, twice the last burst capped at the largest configured
/// size while recovering, the last burst again while steady, nothing while
/// suspended.
pub open spec fn spec_burst_size(sizes: Seq<u32>, cadence: KeeperCadence, last_size: int) -> int {
    match cadence {
        KeeperCadence::Warmup => smallest_size(sizes),
        KeeperCadence::Recovery => min_int(last_size * 2, largest_size(sizes)),
        KeeperCadence::Steady => last_size,
        KeeperCadence::Suspended => 0,
    }
}

/// The largest burst that the sizes allow under any phase, the burst that
/// a new scheduler remembers included.
pub open spec fn burst_cap(sizes: Seq<u32>) -> int {
    max_int(max_int(smallest_size(sizes), largest_size(sizes)), DEFAULT_BURST_KB as int)
}

/// Whether `hour` is listed among the quiet hours.
pub open spec fn spec_is_quiet_hour(quiet_hours: Option<Vec<u8>>, hour: u8) -> bool {
    match quiet_hours {
        Some(hours) => hours@.contains(hour),
        None => false,
    }
}

/// `base` seconds moved by up to `frac` of itself: earlier where `entropy`
/// is even, later where it is odd, by `entropy` modulo the reach plus one;
/// never under one second.
pub open spec fn spec_jitter_secs(base: int, frac: int, entropy: int) -> int {
    let reach = base * frac / (SCALE as int);
    let magnitude = entropy % (reach + 1);
    let moved = if entropy % 2 == 0 {
        base - magnitude
    } else {
        base + magnitude
    };
    max_int(moved, 1)
}

/// Seconds added to the interval as the budget runs out: five past eight
/// tenths of it, ten more past nine tenths. A budget of nothing counts as one kilobyte.
pub open spec fn spec_budget_stretch(used_kb: int, budget_kb: int) -> int {
    let budget = max_int(budget_kb, 1);
    (if used_kb * 10 > budget * 8 {
        5int
    } else {
        0int
    }) + (if used_kb * 10 > budget * 9 {
        10int
    } else {
        0int
    })
}

/// Whether a trend ratio has fallen to one whole less `drop`, or lower.
pub open spec fn spec_drop_detected(trend: int, drop: int) -> bool {
    trend <= SCALE - drop
}

/// Seconds to wait after failed attempt number `attempt`, counted from zero.
pub open spec fn spec_backoff_secs(attempt: int) -> int {
    if attempt <= 0 {
        1
    } else if attempt == 1 {
        2
    } else {
        4
    }
}

/// The facts of the moment at which a tick starts.
#[derive(Debug, Clone, Copy, PartialEq, Eq, Structural)]
pub struct TickInput {
    /// Whether the shared switch is on.
    pub mode_enabled: bool,
    /// The hour of the day, UTC.
    pub hour: u8,
    /// Seconds on the monotonic clock.
    pub now_s: u64,
    /// Mean download speed of the last window over that of the window before, in millionths.
    pub trend: u64,
    /// Any number; only chooses the jitter.
    pub entropy: u64,
}

/// What the caller shows after a tick.
#[derive(Debug, Clone, Copy, PartialEq, Eq, Structural)]
pub struct KeeperProgressPayload {
    pub next_burst_in_s: u32,
    pub last_burst_kb: u32,
    pub hour_used_kb: u64,
    pub hour_budget_kb: u64,
    pub cadence: KeeperCadence,
}

/// What the caller does in a tick.
#[derive(Debug, Clone, Copy, PartialEq, Eq, Structural)]
pub struct TickPlan {
    /// Kilobytes to send now; zero for no burst.
    pub burst_kb: u32,
    /// Seconds to sleep once the tick is done.
    pub sleep_s: u64,
    /// The event to emit where no burst is sent. After a burst the event
    /// comes from `complete_burst`.
    pub progress: KeeperProgressPayload,
}

/// What follows one attempt at a burst.
#[derive(Debug, Clone, Copy, PartialEq, Eq, Structural)]
pub enum AttemptOutcome {
    /// The burst went out.
    Sent,
    /// Sleep for the given seconds, then try again.
    RetryAfter { secs: u64 },
    /// Sleep for the given seconds, then give the burst up.
    GiveUpAfter { secs: u64 },
}

/// What follows attempt number `attempt`, counted from zero, at a burst.
pub open spec fn spec_after_attempt(attempt: int, ok: bool) -> AttemptOutcome {
    if ok {
        AttemptOutcome::Sent
    } else if attempt + 1 < MAX_BURST_ATTEMPTS {
        AttemptOutcome::RetryAfter { secs: spec_backoff_secs(attempt) as u64 }
    } else {
        AttemptOutcome::GiveUpAfter { secs: spec_backoff_secs(attempt) as u64 }
    }
}

/// The scheduler's state between ticks.
#[derive(Debug, Clone, Copy, PartialEq, Eq, Structural)]
pub struct KeeperState {
    pub cadence: KeeperCadence,
    pub hourly_budget_used_kb: u64,
    pub last_budget_reset: u64,
    pub last_cadence_change: u64,
    pub last_burst_kb: u32,
}

/// The wait after a tick that leaves the scheduler in `state`: the base
/// interval of its phase, stretched as the budget runs out, and moved by up
/// to fifteen hundredths of itself as `entropy` decides.
pub open spec fn spec_tick_interval(state: KeeperState, budget_kb: u64, entropy: u64) -> int {
    spec_jitter_secs(
        state.cadence.spec_base_interval() + spec_budget_stretch(
            state.hourly_budget_used_kb as int,
            budget_kb as int,
        ),
        INTERVAL_JITTER as int,
        entropy as int,
    )
}

impl KeeperState {
    /// A scheduler that starts warming up at `now_s`.
    pub open spec fn spec_new(now_s: u64) -> KeeperState {
        KeeperState {
            cadence: KeeperCadence::Warmup,
            hourly_budget_used_kb: 0,
            last_budget_reset: now_s,
            last_cadence_change: now_s,
            last_burst_kb: DEFAULT_BURST_KB,
        }
    }

    /// Whether a budget period has run out at `now_s`.
    pub open spec fn spec_reset_due(self, now_s: u64) -> bool {
        now_s - self.last_budget_reset >= BUDGET_PERIOD_S
    }

    /// The state with the spent budget cleared where a period has run out.
    pub open spec fn spec_after_reset(self, now_s: u64) -> KeeperState {
        if self.spec_reset_due(now_s) {
            KeeperState { hourly_budget_used_kb: 0, last_budget_reset: now_s, ..self }
        } else {
            self
        }
    }

    /// The state with the phase set, and the instant of the change noted where it is one.
    pub open spec fn spec_with_cadence(self, cadence: KeeperCadence, now_s: u64) -> KeeperState {
        if cadence == self.cadence {
            self
        } else {
            KeeperState { cadence, last_cadence_change: now_s, ..self }
        }
    }

    /// The progress event for the state as it is.
    pub open spec fn spec_progress(self, budget_kb: u64, next_in_s: u32, last_kb: u32) -> KeeperProgressPayload {
        KeeperProgressPayload {
            next_burst_in_s: next_in_s,
            last_burst_kb: last_kb,
            hour_used_kb: self.hourly_budget_used_kb,
            hour_budget_kb: budget_kb,
            cadence: self.cadence,
        }
    }

    /// One tick: the state after it and the plan for the caller.
    ///
    /// Switched off, or in a quiet hour: suspended, no burst. Otherwise the
    /// budget period is renewed where it has run out. With the budget
    /// spent: suspended, no burst. Otherwise the phase moves on, and the
    /// plan holds the burst of the new phase. In every case the wait is the
    /// interval of the phase that the tick ends in, stretched and jittered.
    pub open spec fn spec_begin_tick(self, cfg: ThroughputKeeperConfig, input: TickInput) -> (
        KeeperState,
        TickPlan,
    ) {
        if !input.mode_enabled || !cfg.enabled || spec_is_quiet_hour(cfg.quiet_hours, input.hour) {
            let state = self.spec_with_cadence(KeeperCadence::Suspended, input.now_s);
            (
                state,
                TickPlan {
                    burst_kb: 0,
                    sleep_s: spec_tick_interval(state, cfg.hourly_budget_kb, input.entropy) as u64,
                    progress: state.spec_progress(cfg.hourly_budget_kb, 0, 0),
                },
            )
        } else {
            let renewed = self.spec_after_reset(input.now_s);
            if renewed.hourly_budget_used_kb >= cfg.hourly_budget_kb {
                let state = renewed.spec_with_cadence(KeeperCadence::Suspended, input.now_s);
                (
                    state,
                    TickPlan {
                        burst_kb: 0,
                        sleep_s: spec_tick_interval(state, cfg.hourly_budget_kb, input.entropy) as u64,
                        progress: state.spec_progress(cfg.hourly_budget_kb, 0, 0),
                    },
                )
            } else {
                let drop_detected = spec_drop_detected(
                    input.trend as int,
                    cfg.tighten_threshold_drop as int,
                );
                let stable_enough = input.now_s - renewed.last_cadence_change
                    >= cfg.relax_threshold_stability_s;
                let cadence = renewed.cadence.spec_next(drop_detected, stable_enough);
                let state = renewed.spec_with_cadence(cadence, input.now_s);
                let interval = spec_tick_interval(state, cfg.hourly_budget_kb, input.entropy);
                let size = spec_burst_size(cfg.burst_sizes_kb@, cadence, state.last_burst_kb as int);
                (
                    state,
                    TickPlan {
                        burst_kb: size as u32,
                        sleep_s: interval as u64,
                        progress: state.spec_progress(
                            cfg.hourly_budget_kb,
                            interval as u32,
                            state.last_burst_kb,
                        ),
                    },
                )
            }
        }
    }

    /// The state once the burst of `plan` has been tried: a burst that went
    /// out is charged to the budget, which counts no further than 64 bits
    /// go, and is remembered as the last size.
    pub open spec fn spec_complete_burst(self, plan: TickPlan, success: bool) -> KeeperState {
        if success && plan.burst_kb > 0 {
            KeeperState {
                hourly_budget_used_kb: min_int(
                    self.hourly_budget_used_kb + plan.burst_kb,
                    u64::MAX as int,
                ) as u64,
                last_burst_kb: plan.burst_kb,
                ..self
            }
        } else {
            self
        }
    }

    /// The budget is overdrawn by less than one burst, and the last burst was one of the allowed sizes.
    pub open spec fn within_budget(self, cfg: ThroughputKeeperConfig) -> bool {
        &&& self.last_burst_kb <= burst_cap(cfg.burst_sizes_kb@)
        &&& self.hourly_budget_used_kb < cfg.hourly_budget_kb + burst_cap(cfg.burst_sizes_kb@)
    }

    /// A scheduler that starts warming up at `now_s`.
    pub fn new(now_s: u64) -> (r: KeeperState)
        ensures
            r == KeeperState::spec_new(now_s),
    {
        KeeperState {
            cadence: KeeperCadence::Warmup,
            hourly_budget_used_kb: 0,
            last_budget_reset: now_s,
            last_cadence_change: now_s,
            last_burst_kb: DEFAULT_BURST_KB,
        }
    }

    /// Clears the spent budget where a budget period has run out at `now_s`.
    /// Returns whether it did.
    pub fn reset_budget_if_needed(&mut self, now_s: u64) -> (reset: bool)
        ensures
            reset == old(self).spec_reset_due(now_s),
            *final(self) == old(self).spec_after_reset(now_s),
    {
        if now_s >= self.last_budget_reset && now_s - self.last_budget_reset >= BUDGET_PERIOD_S {
            self.hourly_budget_used_kb = 0;
            self.last_budget_reset = now_s;
            true
        } else {
            false
        }
    }

    /// The progress event for the state as it is.
    pub fn progress(&self, budget_kb: u64, next_in_s: u32, last_kb: u32) -> (r:
        KeeperProgressPayload)
        ensures
            r == self.spec_progress(budget_kb, next_in_s, last_kb),
    {
        KeeperProgressPayload {
            next_burst_in_s: next_in_s,
            last_burst_kb: last_kb,
            hour_used_kb: self.hourly_budget_used_kb,
            hour_budget_kb: budget_kb,
            cadence: self.cadence,
        }
    }

    /// The wait after a tick that leaves the scheduler in this state.
    pub fn tick_interval(&self, budget_kb: u64, entropy: u64) -> (r: u64)
        ensures
            r == spec_tick_interval(*self, budget_kb, entropy),
            1 <= r <= 60,
    {
        let stretch = budget_stretch(self.hourly_budget_used_kb, budget_kb);
        jitter_secs((self.cadence.base_interval() + stretch) as u32, INTERVAL_JITTER, entropy)
    }

    fn set_cadence(&mut self, cadence: KeeperCadence, now_s: u64)
        ensures
            *final(self) == old(self).spec_with_cadence(cadence, now_s),
    {
        if cadence != self.cadence {
            self.cadence = cadence;
            self.last_cadence_change = now_s;
        }
    }

    /// Starts a tick: moves the state on and says what the caller is to do.
    pub fn begin_tick(&mut self, cfg: &ThroughputKeeperConfig, input: TickInput) -> (plan: TickPlan)
        ensures
            (*final(self), plan) == old(self).spec_begin_tick(*cfg, input),
            plan.sleep_s == spec_tick_interval(*final(self), cfg.hourly_budget_kb, input.entropy),
            final(self).cadence == KeeperCadence::Suspended ==> plan.burst_kb == 0,
            plan.burst_kb > 0 ==> final(self).hourly_budget_used_kb < cfg.hourly_budget_kb,
            plan.burst_kb <= burst_cap(cfg.burst_sizes_kb@) || plan.burst_kb == old(
                self,
            ).last_burst_kb,
    {
        if !input.mode_enabled || !cfg.enabled || is_quiet_hour(&cfg.quiet_hours, input.hour) {
            self.set_cadence(KeeperCadence::Suspended, input.now_s);
            return TickPlan {
                burst_kb: 0,
                sleep_s: self.tick_interval(cfg.hourly_budget_kb, input.entropy),
                progress: self.progress(cfg.hourly_budget_kb, 0, 0),
            };
        }
        self.reset_budget_if_needed(input.now_s);
        if self.hourly_budget_used_kb >= cfg.hourly_budget_kb {
            self.set_cadence(KeeperCadence::Suspended, input.now_s);
            return TickPlan {
                burst_kb: 0,
                sleep_s: self.tick_interval(cfg.hourly_budget_kb, input.entropy),
                progress: self.progress(cfg.hourly_budget_kb, 0, 0),
            };
        }
        let drop_detected = drop_detected(input.trend, cfg.tighten_threshold_drop);
        let stable_enough = input.now_s >= self.last_cadence_change && input.now_s
            - self.last_cadence_change >= cfg.relax_threshold_stability_s as u64;
        let cadence = self.cadence.next(drop_detected, stable_enough);
        self.set_cadence(cadence, input.now_s);
        let interval = self.tick_interval(cfg.hourly_budget_kb, input.entropy);
        let size = choose_burst_size_kb(&cfg.burst_sizes_kb, cadence, self.last_burst_kb);
        proof {
            lemma_size_bounds(cfg.burst_sizes_kb@);
        }
        TickPlan {
            burst_kb: size,
            sleep_s: interval,
            progress: self.progress(cfg.hourly_budget_kb, interval as u32, self.last_burst_kb),
        }
    }

    /// Ends a tick in which a burst was tried. A burst that went out is
    /// charged to the budget and remembered. Returns the event to emit.
    pub fn complete_burst(&mut self, cfg: &ThroughputKeeperConfig, plan: &TickPlan, success: bool) -> (progress:
        KeeperProgressPayload)
        ensures
            *final(self) == old(self).spec_complete_burst(*plan, success),
            progress == final(self).spec_progress(
                cfg.hourly_budget_kb,
                plan.progress.next_burst_in_s,
                final(self).last_burst_kb,
            ),
    {
        if success && plan.burst_kb > 0 {
            self.hourly_budget_used_kb = if self.hourly_budget_used_kb > u64::MAX
                - plan.burst_kb as u64 {
                u64::MAX
            } else {
                self.hourly_budget_used_kb + plan.burst_kb as u64
            };
            self.last_burst_kb = plan.burst_kb;
        }
        self.progress(cfg.hourly_budget_kb, plan.progress.next_burst_in_s, self.last_burst_kb)
    }
}

/// The smallest configured size; the default burst where there are none.
pub fn smallest_of(sizes: &Vec<u32>) -> (r: u32)
    ensures
        r == smallest_size(sizes@),
{
    if sizes.len() == 0 {
        return DEFAULT_BURST_KB;
    }
    let mut best = sizes[0];
    let mut i: usize = 1;
    assert(sizes@.take(1) =~= seq![sizes@[0]]);
    while i < sizes.len()
        invariant
            1 <= i <= sizes.len(),
            best == smallest_size(sizes@.take(i as int)),
        decreases sizes.len() - i,
    {
        assert(sizes@.take(i + 1).drop_last() =~= sizes@.take(i as int));
        if sizes[i] < best {
            best = sizes[i];
        }
        i = i + 1;
    }
    assert(sizes@.take(sizes.len() as int) =~= sizes@);
    best
}

/// The largest configured size; the default maximum where there are none.
pub fn largest_of(sizes: &Vec<u32>) -> (r: u32)
    ensures
        r == largest_size(sizes@),
{
    if sizes.len() == 0 {
        return DEFAULT_MAX_BURST_KB;
    }
    let mut best = sizes[0];
    let mut i: usize = 1;
    assert(sizes@.take(1) =~= seq![sizes@[0]]);
    while i < sizes.len()
        invariant
            1 <= i <= sizes.len(),
            best == largest_size(sizes@.take(i as int)),
        decreases sizes.len() - i,
    {
        assert(sizes@.take(i + 1).drop_last() =~= sizes@.take(i as int));
        if sizes[i] > best {
            best = sizes[i];
        }
        i = i + 1;
    }
    assert(sizes@.take(sizes.len() as int) =~= sizes@);
    best
}

/// The size of the next burst, in kilobytes.
pub fn choose_burst_size_kb(sizes: &Vec<u32>, cadence: KeeperCadence, last_size: u32) -> (r: u32)
    ensures
        r == spec_burst_size(sizes@, cadence, last_size as int),
{
    match cadence {
        KeeperCadence::Warmup => smallest_of(sizes),
        KeeperCadence::Recovery => {
            let largest = largest_of(sizes);
            let doubled: u64 = last_size as u64 * 2;
            if doubled <= largest as u64 {
                doubled as u32
            } else {
                largest
            }
        },
        KeeperCadence::Steady => last_size,
        KeeperCadence::Suspended => 0,
    }
}

/// Whether `x` is among the items of `v`.
pub fn contains_u8(v: &Vec<u8>, x: u8) -> (r: bool)
    ensures
        r == v@.contains(x),
{
    let mut i: usize = 0;
    while i < v.len()
        invariant
            i <= v.len(),
            forall|j: int| 0 <= j < i ==> v@[j] != x,
        decreases v.len() - i,
    {
        if v[i] == x {
            assert(v@[i as int] == x);
            return true;
        }
        i = i + 1;
    }
    false
}

/// Whether `hour` is listed among the quiet hours.
pub fn is_quiet_hour(quiet_hours: &Option<Vec<u8>>, hour: u8) -> (r: bool)
    ensures
        r == spec_is_quiet_hour(*quiet_hours, hour),
{
    match quiet_hours {
        Some(hours) => contains_u8(hours, hour),
        None => false,
    }
}

/// Whether the present hour, UTC, is a quiet hour. Where every hour of
/// the day is listed it is one whatever the clock reads, and where none is
/// listed it is none.
pub fn should_quiet_hour(cfg: &ThroughputKeeperConfig) -> (r: bool)
    ensures
        cfg.quiet_hours is None ==> !r,
        r ==> exists|hour: u8| hour < 24 && spec_is_quiet_hour(cfg.quiet_hours, hour),
        (forall|hour: u8| hour < 24 ==> #[trigger] spec_is_quiet_hour(cfg.quiet_hours, hour))
            ==> r,
{
    let clock = WallClock::now();
    is_quiet_hour(&cfg.quiet_hours, clock.hour)
}

/// `base` seconds moved by up to `frac` of itself, as `entropy` decides.
pub fn jitter_secs(base: u32, frac: u64, entropy: u64) -> (r: u64)
    requires
        frac <= SCALE,
    ensures
        r == spec_jitter_secs(base as int, frac as int, entropy as int),
        1 <= r <= 2 * max_int(base as int, 1),
{
    proof {
        assert(base * frac <= base * SCALE) by (nonlinear_arith)
            requires
                frac <= SCALE,
                base >= 0,
        ;
        assert(base * frac / (SCALE as int) <= base) by (nonlinear_arith)
            requires
                0 <= base * frac <= base * SCALE,
                SCALE == 1_000_000,
        ;
        assert(0 <= base * frac / (SCALE as int)) by (nonlinear_arith)
            requires
                0 <= base * frac,
                SCALE == 1_000_000,
        ;
        assert(base * SCALE <= u64::MAX) by (nonlinear_arith)
            requires
                base <= u32::MAX,
                SCALE == 1_000_000,
        ;
    }
    let reach: u64 = base as u64 * frac / SCALE;
    let magnitude: u64 = entropy % (reach + 1);
    if entropy % 2 == 0 {
        let moved = base as u64 - magnitude;
        if moved >= 1 {
            moved
        } else {
            1
        }
    } else {
        let moved = base as u64 + magnitude;
        if moved >= 1 {
            moved
        } else {
            1
        }
    }
}

/// Seconds added to the interval as the budget runs out.
pub fn budget_stretch(used_kb: u64, budget_kb: u64) -> (r: u64)
    ensures
        r == spec_budget_stretch(used_kb as int, budget_kb as int),
        r <= 15,
{
    let budget: u128 = if budget_kb >= 1 {
        budget_kb as u128
    } else {
        1
    };
    let used: u128 = used_kb as u128;
    let mut stretch: u64 = 0;
    if used * 10 > budget * 8 {
        stretch = stretch + 5;
    }
    if used * 10 > budget * 9 {
        stretch = stretch + 10;
    }
    stretch
}

/// Whether a trend ratio has fallen to one whole less `drop`, or lower.
pub fn drop_detected(trend: u64, drop: u64) -> (r: bool)
    ensures
        r == spec_drop_detected(trend as int, drop as int),
{
    drop <= SCALE && trend <= SCALE - drop
}

/// Seconds to wait after failed attempt number `attempt`, counted from zero.
pub fn backoff_secs(attempt: u8) -> (r: u64)
    ensures
        r == spec_backoff_secs(attempt as int),
{
    if attempt == 0 {
        1
    } else if attempt == 1 {
        2
    } else {
        4
    }
}

/// What follows attempt number `attempt`, counted from zero, at a burst.
pub fn after_attempt(attempt: u8, ok: bool) -> (r: AttemptOutcome)
    ensures
        r == spec_after_attempt(attempt as int, ok),
{
    if ok {
        AttemptOutcome::Sent
    } else if attempt < MAX_BURST_ATTEMPTS - 1 {
        AttemptOutcome::RetryAfter { secs: backoff_secs(attempt) }
    } else {
        AttemptOutcome::GiveUpAfter { secs: backoff_secs(attempt) }
    }
}

/// The samples of the later trend window: those taken after `now` less the window's span.
pub open spec fn later_window(now: i64) -> SampleFilter {
    SampleFilter { after: Some((now - TREND_WINDOW_S) as i64), ..SampleFilter::spec_all() }
}

/// The samples of the earlier trend window: all the others.
pub open spec fn earlier_window(now: i64) -> SampleFilter {
    SampleFilter { until: Some((now - TREND_WINDOW_S) as i64), ..SampleFilter::spec_all() }
}

/// Mean download speed of the later window, zero where it is empty.
pub open spec fn spec_recent_speed(samples: Seq<SpeedMeasurement>, now: i64) -> int {
    mean(select(samples, later_window(now), Metric::Download))
}

/// The later window's mean download speed over the earlier window's, in
/// millionths. An empty earlier window counts as equal to the later one,
/// and an earlier mean of nothing gives one whole.
pub open spec fn spec_trend(samples: Seq<SpeedMeasurement>, now: i64) -> int {
    let later = spec_recent_speed(samples, now);
    let earlier_values = select(samples, earlier_window(now), Metric::Download);
    let earlier = if earlier_values.len() == 0 {
        later
    } else {
        mean(earlier_values)
    };
    if earlier == 0 {
        SCALE as int
    } else {
        later * SCALE / earlier
    }
}

/// The mean download speed of the later trend window and the trend ratio,
/// from the samples of the last two windows.
pub fn recent_metrics(samples: &Vec<SpeedMeasurement>, now: i64) -> (r: (u64, u64))
    requires
        all_well_formed(samples@),
        now - TREND_WINDOW_S >= i64::MIN,
    ensures
        r.0 == spec_recent_speed(samples@, now),
        r.1 == spec_trend(samples@, now),
{
    let cut = now - TREND_WINDOW_S;
    let later_filter = SampleFilter {
        optimized: None,
        since: None,
        after: Some(cut),
        until: None,
        hour: None,
        weekday: None,
    };
    let earlier_filter = SampleFilter {
        optimized: None,
        since: None,
        after: None,
        until: Some(cut),
        hour: None,
        weekday: None,
    };
    let later_values = select_values(samples, &later_filter, Metric::Download);
    let earlier_values = select_values(samples, &earlier_filter, Metric::Download);
    proof {
        lemma_mean_bounds(later_values@, MAX_MAGNITUDE as int);
        lemma_mean_bounds(earlier_values@, MAX_MAGNITUDE as int);
    }
    let later = mean_of(&later_values);
    let earlier = if earlier_values.len() == 0 {
        later
    } else {
        mean_of(&earlier_values)
    };
    if earlier == 0 {
        (later, SCALE)
    } else {
        proof {
            assert(later * SCALE <= MAX_MAGNITUDE * SCALE) by (nonlinear_arith)
                requires
                    later <= MAX_MAGNITUDE,
                    SCALE == 1_000_000,
            ;
            assert(later * SCALE / (earlier as int) <= later * SCALE) by (nonlinear_arith)
                requires
                    0 <= later * SCALE,
                    earlier >= 1,
            ;
        }
        (later, later * SCALE / earlier)
    }
}

/// The wait after any tick, suspended or not, is the base interval of the
/// phase that the tick ends in, with five seconds more past eight tenths of
/// the budget and ten more past nine tenths, moved by no more than fifteen
/// hundredths of itself, and never under a second.
pub proof fn lemma_wait_follows_phase_and_budget(
    state: KeeperState,
    cfg: ThroughputKeeperConfig,
    input: TickInput,
)
    ensures
        ({
            let (next, plan) = state.spec_begin_tick(cfg, input);
            let base = next.cadence.spec_base_interval() + spec_budget_stretch(
                next.hourly_budget_used_kb as int,
                cfg.hourly_budget_kb as int,
            );
            &&& plan.sleep_s == spec_tick_interval(next, cfg.hourly_budget_kb, input.entropy)
            &&& base - base * 15 / 100 <= plan.sleep_s <= base + base * 15 / 100
            &&& plan.sleep_s >= 1
            &&& 5 <= base <= 30
        }),
{
    let (next, plan) = state.spec_begin_tick(cfg, input);
    let base = next.cadence.spec_base_interval() + spec_budget_stretch(
        next.hourly_budget_used_kb as int,
        cfg.hourly_budget_kb as int,
    );
    let reach = base * (INTERVAL_JITTER as int) / (SCALE as int);
    assert(5 <= base <= 30);
    assert(reach == base * 15 / 100) by (nonlinear_arith)
        requires
            reach == base * 150_000 / 1_000_000,
            5 <= base <= 30,
    ;
    let magnitude = (input.entropy as int) % (reach + 1);
    assert(0 <= magnitude <= reach) by (nonlinear_arith)
        requires
            magnitude == (input.entropy as int) % (reach + 1),
            reach >= 0,
            input.entropy >= 0,
    ;
}

/// A suspended scheduler sends nothing, and the first phase after a
/// suspension is the warm-up.
pub proof fn lemma_suspended_is_silent(state: KeeperState, cfg: ThroughputKeeperConfig, input: TickInput)
    ensures
        ({
            let (next, plan) = state.spec_begin_tick(cfg, input);
            &&& next.cadence == KeeperCadence::Suspended ==> plan.burst_kb == 0
            &&& state.cadence == KeeperCadence::Suspended && next.cadence
                != KeeperCadence::Suspended ==> next.cadence == KeeperCadence::Warmup
        }),
{
}

/// While the scheduler is enabled, out of its quiet hours and within its
/// budget, the phase moves as follows and in no other way: a trend that has
/// fallen to one whole less the threshold, or lower, turns the steady phase
/// into recovery; warm-up and recovery turn steady once the phase has lasted
/// the stability time; a suspension ends in warm-up.
pub proof fn lemma_phase_follows_trend_and_stability(
    state: KeeperState,
    cfg: ThroughputKeeperConfig,
    input: TickInput,
)
    requires
        input.mode_enabled,
        cfg.enabled,
        !spec_is_quiet_hour(cfg.quiet_hours, input.hour),
        state.spec_after_reset(input.now_s).hourly_budget_used_kb < cfg.hourly_budget_kb,
    ensures
        ({
            let next = state.spec_begin_tick(cfg, input).0;
            let dropped = input.trend <= SCALE - cfg.tighten_threshold_drop;
            let stable = input.now_s - state.last_cadence_change
                >= cfg.relax_threshold_stability_s;
            &&& state.cadence == KeeperCadence::Steady ==> next.cadence == (if dropped {
                KeeperCadence::Recovery
            } else {
                KeeperCadence::Steady
            })
            &&& state.cadence == KeeperCadence::Warmup || state.cadence
                == KeeperCadence::Recovery ==> next.cadence == (if stable {
                KeeperCadence::Steady
            } else {
                state.cadence
            })
            &&& state.cadence == KeeperCadence::Suspended ==> next.cadence
                == KeeperCadence::Warmup
            &&& next.cadence != KeeperCadence::Suspended
        }),
{
}

/// A burst is planned only while the budget is not yet spent, so a tick
/// leaves the spent budget under the budget plus the burst it sent.
pub proof fn lemma_budget_overdrawn_by_one_burst_at_most(
    state: KeeperState,
    cfg: ThroughputKeeperConfig,
    input: TickInput,
    success: bool,
)
    ensures
        ({
            let (planned, plan) = state.spec_begin_tick(cfg, input);
            let done = planned.spec_complete_burst(plan, success);
            &&& planned.hourly_budget_used_kb <= state.hourly_budget_used_kb
            &&& done.hourly_budget_used_kb == planned.hourly_budget_used_kb
                || done.hourly_budget_used_kb < cfg.hourly_budget_kb + plan.burst_kb
        }),
{
    let (planned, plan) = state.spec_begin_tick(cfg, input);
    if plan.burst_kb > 0 {
        assert(planned.hourly_budget_used_kb < cfg.hourly_budget_kb);
    }
}

/// Under settings that stay as they are, every tick keeps the spent budget
/// under the budget plus the largest burst that the settings allow.
pub proof fn lemma_tick_keeps_within_budget(
    state: KeeperState,
    cfg: ThroughputKeeperConfig,
    input: TickInput,
    success: bool,
)
    requires
        state.within_budget(cfg),
        cfg.hourly_budget_kb + burst_cap(cfg.burst_sizes_kb@) <= u64::MAX,
    ensures
        ({
            let (planned, plan) = state.spec_begin_tick(cfg, input);
            let done = planned.spec_complete_burst(plan, success);
            planned.within_budget(cfg) && done.within_budget(cfg)
        }),
{
    lemma_size_bounds(cfg.burst_sizes_kb@);
}

/// The budget is renewed at most once per period: a tick within a period
/// of a renewal renews nothing.
pub proof fn lemma_reset_at_most_once_per_period(
    state: KeeperState,
    cfg: ThroughputKeeperConfig,
    first: TickInput,
    second: TickInput,
)
    requires
        first.now_s <= second.now_s < first.now_s + BUDGET_PERIOD_S,
        state.last_budget_reset <= first.now_s,
    ensures
        ({
            let (after_first, _) = state.spec_begin_tick(cfg, first);
            let (after_second, _) = after_first.spec_begin_tick(cfg, second);
            after_first.last_budget_reset != state.last_budget_reset ==> {
                &&& after_first.last_budget_reset == first.now_s
                &&& after_second.last_budget_reset == after_first.last_budget_reset
                &&& after_second.hourly_budget_used_kb == after_first.hourly_budget_used_kb
            }
        }),
{
}

/// A new scheduler is within any budget.
pub proof fn lemma_new_is_within_budget(now_s: u64, cfg: ThroughputKeeperConfig)
    ensures
        KeeperState::spec_new(now_s).within_budget(cfg),
{
    lemma_size_bounds(cfg.burst_sizes_kb@);
}

/// The cadence scheduler with its settings.
#[derive(Debug, Clone)]
pub struct ThroughputKeeper {
    pub config: ThroughputKeeperConfig,
    pub state: KeeperState,
    pub is_running: bool,
}

impl ThroughputKeeper {
    /// A scheduler at rest with the settings given, to start warming up at `now_s`.
    pub fn new(config: ThroughputKeeperConfig, now_s: u64) -> (r: Self)
        ensures
            r.config == config,
            r.state == KeeperState::spec_new(now_s),
            !r.is_running,
    {
        ThroughputKeeper { config, state: KeeperState::new(now_s), is_running: false }
    }

    /// Replaces the settings. The state stays as it is.
    pub fn update_config(&mut self, cfg: ThroughputKeeperConfig)
        ensures
            final(self).config == cfg,
            final(self).state == old(self).state,
            final(self).is_running == old(self).is_running,
    {
        self.config = cfg;
    }

    /// Marks the scheduler as running. Returns whether it was at rest, so
    /// that one loop is run at most.
    pub fn start(&mut self) -> (started: bool)
        ensures
            started == !old(self).is_running,
            final(self).is_running,
            final(self).config == old(self).config,
            final(self).state == old(self).state,
    {
        let started = !self.is_running;
        self.is_running = true;
        started
    }

    /// Marks the scheduler as stopped; the running tick is the last.
    pub fn stop(&mut self)
        ensures
            !final(self).is_running,
            final(self).config == old(self).config,
            final(self).state == old(self).state,
    {
        self.is_running = false;
    }

    /// Starts a tick with the scheduler's own settings.
    pub fn tick(&mut self, input: TickInput) -> (plan: TickPlan)
        ensures
            (final(self).state, plan) == old(self).state.spec_begin_tick(old(self).config, input),
            final(self).config == old(self).config,
            final(self).is_running == old(self).is_running,
            final(self).state.cadence == KeeperCadence::Suspended ==> plan.burst_kb == 0,
    {
        self.state.begin_tick(&self.config, input)
    }

    /// Ends a tick in which a burst was tried, and gives the event to emit.
    pub fn emit_progress(&mut self, plan: &TickPlan, success: bool) -> (progress:
        KeeperProgressPayload)
        ensures
            final(self).state == old(self).state.spec_complete_burst(*plan, success),
            final(self).config == old(self).config,
            final(self).is_running == old(self).is_running,
            progress == final(self).state.spec_progress(
                old(self).config.hourly_budget_kb,
                plan.progress.next_burst_in_s,
                final(self).state.last_burst_kb,
            ),
    {
        self.state.complete_burst(&self.config, plan, success)
    }
}

} // verus!
