//! The data model: speed samples, provider profiles, throttling windows,
//! strategies, endpoints and stored settings, each with its validity rule.
//!
//! Speeds are kilobits per second, ratios are millionths, instants are
//! seconds since the Unix epoch. Fields that a store may hand back out of
//! range are signed, so that `validate` can refuse them.

use crate::clock::{unix_now, valid_timestamp, WallClock, Weekday};
use crate::fixed::{max_int, min_int, SCALE};
use crate::json::{json_numbers, number_list, parse_numbers, write_numbers};
use crate::text::{
    blank, contains, has_substring, is_blank, lowercased, push_decimal, push_two_digits, str_eq,
    to_lowercase, decimal, two_digits,
};
use vstd::prelude::*;
use vstd::string::*;

verus! {

/// The highest speed that a valid sample may report, in kilobits per second.
pub const MAX_SPEED_KBPS: i64 = 0x7fff_ffff;

/// The highest latency that a valid sample may report, in milliseconds.
pub const MAX_LATENCY_MS: u32 = 10_000;

/// Why a record was refused.
#[allow(inconsistent_fields)]
#[derive(Debug, Clone, Copy, PartialEq, Eq, Structural)]
pub enum ValidationError {
    InvalidSpeed { value: i64 },
    InvalidConfidence { value: i64 },
    InvalidLatency { value: u32 },
    InvalidHour { value: u8 },
    InvalidMinute { value: u8 },
    InvalidSeverity { value: i64 },
    InvalidTrafficIntensity { value: i64 },
    InvalidConnectionCount { value: u8 },
    EmptyName,
    EmptyRegion,
}

impl ValidationError {
    /// A sentence that names the rule that was broken.
    pub fn message(&self) -> (r: &'static str)
        ensures
            r@ == (match *self {
                ValidationError::InvalidSpeed { .. } => "Speed value is out of range"@,
                ValidationError::InvalidConfidence { .. } => "Confidence must be between 0.0 and 1.0"@,
                ValidationError::InvalidLatency { .. } => "Latency must be reasonable (0-10000ms)"@,
                ValidationError::InvalidHour { .. } => "Hour must be between 0-23"@,
                ValidationError::InvalidMinute { .. } => "Minute must be between 0-59"@,
                ValidationError::InvalidSeverity { .. } => "Severity must be between 0.0 and 1.0"@,
                ValidationError::InvalidTrafficIntensity { .. } => "Traffic intensity must be between 0.0 and 1.0"@,
                ValidationError::InvalidConnectionCount { .. } => "Connection count must be between 1-10"@,
                ValidationError::EmptyName => "Name cannot be empty"@,
                ValidationError::EmptyRegion => "Region cannot be empty"@,
            }),
    {
        match self {
            ValidationError::InvalidSpeed { .. } => "Speed value is out of range",
            ValidationError::InvalidConfidence { .. } => "Confidence must be between 0.0 and 1.0",
            ValidationError::InvalidLatency { .. } => "Latency must be reasonable (0-10000ms)",
            ValidationError::InvalidHour { .. } => "Hour must be between 0-23",
            ValidationError::InvalidMinute { .. } => "Minute must be between 0-59",
            ValidationError::InvalidSeverity { .. } => "Severity must be between 0.0 and 1.0",
            ValidationError::InvalidTrafficIntensity { .. } => "Traffic intensity must be between 0.0 and 1.0",
            ValidationError::InvalidConnectionCount { .. } => "Connection count must be between 1-10",
            ValidationError::EmptyName => "Name cannot be empty",
            ValidationError::EmptyRegion => "Region cannot be empty",
        }
    }
}

/// How aggressively traffic is disguised.
#[derive(Debug, Clone, Copy, PartialEq, Eq, Structural)]
pub enum StealthLevel {
    Low,
    Medium,
    High,
    Maximum,
}

impl StealthLevel {
    /// The level's stored name.
    pub open spec fn spec_name(self) -> Seq<char> {
        match self {
            StealthLevel::Low => "Low"@,
            StealthLevel::Medium => "Medium"@,
            StealthLevel::High => "High"@,
            StealthLevel::Maximum => "Maximum"@,
        }
    }

    /// The level that a stored name stands for; `Medium` for any other text.
    pub open spec fn spec_from_name(s: Seq<char>) -> StealthLevel {
        if s == "Low"@ {
            StealthLevel::Low
        } else if s == "High"@ {
            StealthLevel::High
        } else if s == "Maximum"@ {
            StealthLevel::Maximum
        } else {
            StealthLevel::Medium
        }
    }

    /// The level's rank, 0 for `Low` to 3 for `Maximum`.
    pub open spec fn spec_rank(self) -> int {
        match self {
            StealthLevel::Low => 0,
            StealthLevel::Medium => 1,
            StealthLevel::High => 2,
            StealthLevel::Maximum => 3,
        }
    }

    /// The level's stored name.
    pub fn to_string(&self) -> (r: String)
        ensures
            r@ == self.spec_name(),
    {
        match self {
            StealthLevel::Low => String::from_str("Low"),
            StealthLevel::Medium => String::from_str("Medium"),
            StealthLevel::High => String::from_str("High"),
            StealthLevel::Maximum => String::from_str("Maximum"),
        }
    }

    /// The level that a stored name stands for; `Medium` for any other text.
    pub fn from_string(s: &str) -> (r: StealthLevel)
        ensures
            r == StealthLevel::spec_from_name(s@),
    {
        if str_eq(s, "Low") {
            StealthLevel::Low
        } else if str_eq(s, "High") {
            StealthLevel::High
        } else if str_eq(s, "Maximum") {
            StealthLevel::Maximum
        } else {
            StealthLevel::Medium
        }
    }

    /// The level's rank, 0 for `Low` to 3 for `Maximum`.
    pub fn rank(self) -> (r: u8)
        ensures
            r == self.spec_rank(),
    {
        match self {
            StealthLevel::Low => 0,
            StealthLevel::Medium => 1,
            StealthLevel::High => 2,
            StealthLevel::Maximum => 3,
        }
    }
}

/// A stored level name reads back as the level that wrote it.
pub proof fn lemma_stealth_level_round_trip(level: StealthLevel)
    ensures
        StealthLevel::spec_from_name(level.spec_name()) == level,
{
    reveal_strlit("Low");
    reveal_strlit("Medium");
    reveal_strlit("High");
    reveal_strlit("Maximum");
    assert("Low"@.len() == 3);
    assert("Medium"@.len() == 6);
    assert("High"@.len() == 4);
    assert("Maximum"@.len() == 7);
}

/// One timestamped measurement of the connection.
#[derive(Debug, Clone, Copy, PartialEq, Eq, Structural)]
pub struct SpeedMeasurement {
    pub id: Option<i64>,
    pub timestamp: i64,
    pub download_kbps: i64,
    pub upload_kbps: i64,
    pub latency_ms: u32,
    pub optimization_active: bool,
    pub confidence: i64,
}

impl SpeedMeasurement {
    /// Refuses a speed that is negative or beyond `MAX_SPEED_KBPS`, a latency
    /// beyond `MAX_LATENCY_MS` and a confidence outside nothing to one whole,
    /// in that order.
    pub open spec fn spec_validate(self) -> Result<(), ValidationError> {
        if self.download_kbps < 0 || self.download_kbps > MAX_SPEED_KBPS {
            Err(ValidationError::InvalidSpeed { value: self.download_kbps })
        } else if self.upload_kbps < 0 || self.upload_kbps > MAX_SPEED_KBPS {
            Err(ValidationError::InvalidSpeed { value: self.upload_kbps })
        } else if self.latency_ms > MAX_LATENCY_MS {
            Err(ValidationError::InvalidLatency { value: self.latency_ms })
        } else if self.confidence < 0 || self.confidence > SCALE {
            Err(ValidationError::InvalidConfidence { value: self.confidence })
        } else {
            Ok(())
        }
    }

    /// The sample passes `validate` and its instant lies within the calendar.
    pub open spec fn well_formed(self) -> bool {
        self.spec_validate() is Ok && valid_timestamp(self.timestamp as int)
    }

    /// Download speed against 100 Mbit/s, capped at one whole.
    pub open spec fn spec_download_score(self) -> int {
        min_int(self.download_kbps * 10, SCALE as int)
    }

    /// Upload speed against 20 Mbit/s, capped at one whole.
    pub open spec fn spec_upload_score(self) -> int {
        min_int(self.upload_kbps * 50, SCALE as int)
    }

    /// One whole less a thousandth per millisecond of latency, not below zero.
    pub open spec fn spec_latency_score(self) -> int {
        max_int(SCALE - self.latency_ms * 1000, 0)
    }

    /// Half the download score, three tenths of the upload score and two
    /// tenths of the latency score, scaled by the sample's confidence.
    pub open spec fn spec_performance_score(self) -> int {
        (5 * self.spec_download_score() + 3 * self.spec_upload_score() + 2
            * self.spec_latency_score()) * self.confidence / (10 * SCALE)
    }

    /// More than 10 Mbit/s down, more than 1 Mbit/s up, under 100 ms.
    pub open spec fn spec_is_good_performance(self) -> bool {
        self.download_kbps > 10_000 && self.upload_kbps > 1_000 && self.latency_ms < 100
    }

    /// A sample taken now, with full confidence.
    pub fn new(download_kbps: i64, upload_kbps: i64, latency_ms: u32, optimization_active: bool) -> (r:
        Self)
        ensures
            r.id is None,
            r.download_kbps == download_kbps,
            r.upload_kbps == upload_kbps,
            r.latency_ms == latency_ms,
            r.optimization_active == optimization_active,
            r.confidence == SCALE,
            valid_timestamp(r.timestamp as int),
    {
        SpeedMeasurement {
            id: None,
            timestamp: unix_now(),
            download_kbps,
            upload_kbps,
            latency_ms,
            optimization_active,
            confidence: SCALE as i64,
        }
    }

    /// Refuses a speed that is negative or beyond `MAX_SPEED_KBPS`, a latency
    /// beyond `MAX_LATENCY_MS` and a confidence outside nothing to one whole,
    /// in that order.
    pub fn validate(&self) -> (r: Result<(), ValidationError>)
        ensures
            r == self.spec_validate(),
    {
        if self.download_kbps < 0 || self.download_kbps > MAX_SPEED_KBPS {
            return Err(ValidationError::InvalidSpeed { value: self.download_kbps });
        }
        if self.upload_kbps < 0 || self.upload_kbps > MAX_SPEED_KBPS {
            return Err(ValidationError::InvalidSpeed { value: self.upload_kbps });
        }
        if self.latency_ms > MAX_LATENCY_MS {
            return Err(ValidationError::InvalidLatency { value: self.latency_ms });
        }
        if self.confidence < 0 || self.confidence > SCALE as i64 {
            return Err(ValidationError::InvalidConfidence { value: self.confidence });
        }
        Ok(())
    }

    /// More than 10 Mbit/s down, more than 1 Mbit/s up, under 100 ms.
    pub fn is_good_performance(&self) -> (r: bool)
        ensures
            r == self.spec_is_good_performance(),
    {
        self.download_kbps > 10_000 && self.upload_kbps > 1_000 && self.latency_ms < 100
    }

    /// The sample's composite score, in millionths.
    pub fn performance_score(&self) -> (r: u64)
        requires
            self.spec_validate() is Ok,
        ensures
            r == self.spec_performance_score(),
            r <= SCALE,
    {
        let download: u64 = if self.download_kbps >= 100_000 {
            SCALE
        } else {
            self.download_kbps as u64 * 10
        };
        let upload: u64 = if self.upload_kbps >= 20_000 {
            SCALE
        } else {
            self.upload_kbps as u64 * 50
        };
        let latency: u64 = if self.latency_ms >= 1_000 {
            0
        } else {
            SCALE - self.latency_ms as u64 * 1_000
        };
        let blend: u64 = 5 * download + 3 * upload + 2 * latency;
        let confidence = self.confidence as u64;
        proof {
            assert(blend * confidence <= 10 * SCALE * SCALE) by (nonlinear_arith)
                requires
                    blend <= 10 * SCALE,
                    confidence <= SCALE,
            ;
            assert(blend * confidence / (10 * SCALE) <= SCALE) by (nonlinear_arith)
                requires
                    blend * confidence <= 10 * SCALE * SCALE,
                    SCALE == 1_000_000,
            ;
        }
        blend * confidence / (10 * SCALE)
    }
}

/// A valid sample's performance score lies between nothing and one whole.
pub proof fn lemma_performance_score_in_range(m: SpeedMeasurement)
    requires
        m.spec_validate() is Ok,
    ensures
        0 <= m.spec_performance_score() <= SCALE,
{
    let blend = 5 * m.spec_download_score() + 3 * m.spec_upload_score() + 2
        * m.spec_latency_score();
    let confidence = m.confidence as int;
    assert(0 <= blend * confidence <= 10 * SCALE * SCALE) by (nonlinear_arith)
        requires
            0 <= blend <= 10 * SCALE,
            0 <= confidence <= SCALE,
    ;
    assert(0 <= blend * confidence / (10 * SCALE) <= SCALE) by (nonlinear_arith)
        requires
            0 <= blend * confidence <= 10 * SCALE * SCALE,
            SCALE == 1_000_000,
    ;
}

/// A measurement as the store holds it: every column a whole number, the
/// flag as 1 or 0.
#[derive(Debug, Clone, Copy, PartialEq, Eq, Structural)]
pub struct MeasurementRow {
    pub id: Option<i64>,
    pub timestamp: i64,
    pub download_kbps: i64,
    pub upload_kbps: i64,
    pub latency_ms: i64,
    pub optimization_active: i64,
    pub confidence: i64,
}

impl SpeedMeasurement {
    /// The measurement as the store holds it.
    pub open spec fn spec_to_row(self) -> MeasurementRow {
        MeasurementRow {
            id: self.id,
            timestamp: self.timestamp,
            download_kbps: self.download_kbps,
            upload_kbps: self.upload_kbps,
            latency_ms: self.latency_ms as i64,
            optimization_active: if self.optimization_active {
                1
            } else {
                0
            },
            confidence: self.confidence,
        }
    }

    /// The measurement that a row of the store holds. A latency below
    /// nothing reads as nothing and one beyond 32 bits as the highest that
    /// they hold; any flag but 0 reads as set.
    pub open spec fn spec_from_row(row: MeasurementRow) -> SpeedMeasurement {
        SpeedMeasurement {
            id: row.id,
            timestamp: row.timestamp,
            download_kbps: row.download_kbps,
            upload_kbps: row.upload_kbps,
            latency_ms: if row.latency_ms < 0 {
                0
            } else if row.latency_ms > u32::MAX {
                u32::MAX
            } else {
                row.latency_ms as u32
            },
            optimization_active: row.optimization_active != 0,
            confidence: row.confidence,
        }
    }

    /// The measurement as the store holds it.
    pub fn to_row(&self) -> (row: MeasurementRow)
        ensures
            row == self.spec_to_row(),
    {
        MeasurementRow {
            id: self.id,
            timestamp: self.timestamp,
            download_kbps: self.download_kbps,
            upload_kbps: self.upload_kbps,
            latency_ms: self.latency_ms as i64,
            optimization_active: if self.optimization_active {
                1
            } else {
                0
            },
            confidence: self.confidence,
        }
    }

    /// The measurement that a row of the store holds.
    pub fn from_row(row: &MeasurementRow) -> (r: Self)
        ensures
            r == SpeedMeasurement::spec_from_row(*row),
    {
        SpeedMeasurement {
            id: row.id,
            timestamp: row.timestamp,
            download_kbps: row.download_kbps,
            upload_kbps: row.upload_kbps,
            latency_ms: if row.latency_ms < 0 {
                0
            } else if row.latency_ms > 0xffff_ffff {
                u32::MAX
            } else {
                row.latency_ms as u32
            },
            optimization_active: row.optimization_active != 0,
            confidence: row.confidence,
        }
    }
}

/// A measurement that is stored and read back is the measurement, with
/// every field as it was.
pub proof fn lemma_measurement_row_round_trip(m: SpeedMeasurement)
    ensures
        SpeedMeasurement::spec_from_row(m.spec_to_row()) == m,
{
}

/// An internet provider as it was detected.
#[derive(Debug, Clone)]
pub struct ISPProfile {
    pub id: Option<i64>,
    pub name: String,
    pub region: String,
    pub detection_method: String,
    pub created_at: i64,
    pub updated_at: i64,
}

/// Whether a provider's name, in lower case, holds the name of one of the
/// providers that are known to shape traffic.
pub open spec fn names_throttling_provider(lower_name: Seq<char>) -> bool {
    ||| has_substring(lower_name, "hutch"@)
    ||| has_substring(lower_name, "dialog"@)
    ||| has_substring(lower_name, "mobitel"@)
    ||| has_substring(lower_name, "airtel"@)
}

/// Whether a provider's name, given in lower case, holds the name of one
/// of the providers that are known to shape traffic.
pub fn names_throttling(lower: &str) -> (r: bool)
    ensures
        r == names_throttling_provider(lower@),
{
    contains(lower, "hutch") || contains(lower, "dialog") || contains(lower, "mobitel") || contains(
        lower,
        "airtel",
    )
}

impl ISPProfile {
    /// Refuses a blank name, then a blank region.
    pub open spec fn spec_validate(self) -> Result<(), ValidationError> {
        if blank(self.name@) {
            Err(ValidationError::EmptyName)
        } else if blank(self.region@) {
            Err(ValidationError::EmptyRegion)
        } else {
            Ok(())
        }
    }

    /// Whether the provider is one of those known to shape traffic.
    pub open spec fn spec_is_known_throttling_isp(self) -> bool {
        names_throttling_provider(lowercased(self.name@))
    }

    /// A profile created now.
    pub fn new(name: String, region: String, detection_method: String) -> (r: Self)
        ensures
            r.id is None,
            r.name == name,
            r.region == region,
            r.detection_method == detection_method,
            r.created_at == r.updated_at,
            valid_timestamp(r.created_at as int),
    {
        let now = unix_now();
        ISPProfile { id: None, name, region, detection_method, created_at: now, updated_at: now }
    }

    /// Refuses a blank name, then a blank region.
    pub fn validate(&self) -> (r: Result<(), ValidationError>)
        ensures
            r == self.spec_validate(),
    {
        if is_blank(self.name.as_str()) {
            return Err(ValidationError::EmptyName);
        }
        if is_blank(self.region.as_str()) {
            return Err(ValidationError::EmptyRegion);
        }
        Ok(())
    }

    /// Marks the profile as updated now.
    pub fn touch(&mut self)
        ensures
            final(self).id == old(self).id,
            final(self).name == old(self).name,
            final(self).region == old(self).region,
            final(self).detection_method == old(self).detection_method,
            final(self).created_at == old(self).created_at,
            valid_timestamp(final(self).updated_at as int),
    {
        self.updated_at = unix_now();
    }

    /// Whether the provider is one of those known to shape traffic.
    pub fn is_known_throttling_isp(&self) -> (r: bool)
        ensures
            r == self.spec_is_known_throttling_isp(),
    {
        let lower = to_lowercase(self.name.as_str());
        names_throttling(lower.as_str())
    }
}

/// The days that the numbers of `numbers` stand for, Monday being 1; other numbers are dropped.
pub open spec fn days_from_numbers(numbers: Seq<u8>) -> Seq<Weekday>
    decreases numbers.len(),
{
    if numbers.len() == 0 {
        Seq::empty()
    } else {
        let rest = days_from_numbers(numbers.drop_last());
        match Weekday::spec_from_number(numbers.last() as int) {
            Some(day) => rest.push(day),
            None => rest,
        }
    }
}

/// The numbers of `days`, Monday being 1.
pub open spec fn numbers_from_days(days: Seq<Weekday>) -> Seq<u8> {
    Seq::new(days.len(), |i: int| (days[i].spec_index() + 1) as u8)
}

/// Whether minute `now` of the day lies in the span from `start` to `end`,
/// both included; a span whose start is later than its end crosses midnight.
pub open spec fn minute_in_span(now: int, start: int, end: int) -> bool {
    if start > end {
        now >= start || now <= end
    } else {
        start <= now <= end
    }
}

/// The names of `days`, each followed by a comma and a space but the last.
pub open spec fn day_list(days: Seq<Weekday>) -> Seq<char>
    decreases days.len(),
{
    if days.len() == 0 {
        Seq::empty()
    } else if days.len() == 1 {
        days[0].spec_short_name()
    } else {
        day_list(days.drop_last()) + ", "@ + days.last().spec_short_name()
    }
}

/// A recurring span of the week in which the provider shapes traffic.
#[derive(Debug, Clone)]
pub struct ThrottlingPattern {
    pub id: Option<i64>,
    pub isp_profile_id: i64,
    pub start_hour: u8,
    pub start_minute: u8,
    pub end_hour: u8,
    pub end_minute: u8,
    pub days_of_week: Vec<Weekday>,
    pub severity: i64,
    pub confidence: i64,
}

impl ThrottlingPattern {
    /// Refuses, in this order: a start hour, an end hour past 23; a start
    /// minute, an end minute past 59; a severity, a confidence outside
    /// nothing to one whole.
    pub open spec fn spec_validate(self) -> Result<(), ValidationError> {
        if self.start_hour > 23 {
            Err(ValidationError::InvalidHour { value: self.start_hour })
        } else if self.end_hour > 23 {
            Err(ValidationError::InvalidHour { value: self.end_hour })
        } else if self.start_minute > 59 {
            Err(ValidationError::InvalidMinute { value: self.start_minute })
        } else if self.end_minute > 59 {
            Err(ValidationError::InvalidMinute { value: self.end_minute })
        } else if self.severity < 0 || self.severity > SCALE {
            Err(ValidationError::InvalidSeverity { value: self.severity })
        } else if self.confidence < 0 || self.confidence > SCALE {
            Err(ValidationError::InvalidConfidence { value: self.confidence })
        } else {
            Ok(())
        }
    }

    /// Whether the pattern covers the given day and minute.
    pub open spec fn spec_is_active_at(self, clock: WallClock) -> bool {
        self.days_of_week@.contains(clock.weekday) && minute_in_span(
            clock.spec_minute_of_day(),
            self.start_hour as int * 60 + self.start_minute as int,
            self.end_hour as int * 60 + self.end_minute as int,
        )
    }

    /// The size of the severity in tenths of a percent, rounded to the nearest.
    pub open spec fn spec_severity_tenths(self) -> int {
        if self.severity >= 0 {
            (self.severity + 500) / 1000
        } else {
            (500 - self.severity) / 1000
        }
    }

    /// The sign that a severity below nothing is written with.
    pub open spec fn spec_severity_sign(self) -> Seq<char> {
        if self.severity >= 0 {
            ""@
        } else {
            "-"@
        }
    }

    /// The pattern in words, such as `19:00-22:00 on Mon, Tue (severity: 80.0%)`.
    pub open spec fn spec_description(self) -> Seq<char> {
        two_digits(self.start_hour as nat) + ":"@ + two_digits(self.start_minute as nat) + "-"@
            + two_digits(self.end_hour as nat) + ":"@ + two_digits(self.end_minute as nat) + " on "@
            + day_list(self.days_of_week@) + " (severity: "@ + self.spec_severity_sign() + decimal(
            (self.spec_severity_tenths() / 10) as nat,
        ) + "."@ + decimal((self.spec_severity_tenths() % 10) as nat) + "%)"@
    }

    /// A pattern of middling confidence.
    pub fn new(
        isp_profile_id: i64,
        start_hour: u8,
        start_minute: u8,
        end_hour: u8,
        end_minute: u8,
        days_of_week: Vec<Weekday>,
        severity: i64,
    ) -> (r: Self)
        ensures
            r.id is None,
            r.isp_profile_id == isp_profile_id,
            r.start_hour == start_hour,
            r.start_minute == start_minute,
            r.end_hour == end_hour,
            r.end_minute == end_minute,
            r.days_of_week == days_of_week,
            r.severity == severity,
            r.confidence == SCALE / 2,
    {
        ThrottlingPattern {
            id: None,
            isp_profile_id,
            start_hour,
            start_minute,
            end_hour,
            end_minute,
            days_of_week,
            severity,
            confidence: (SCALE / 2) as i64,
        }
    }

    /// The pattern's days as the JSON array that is stored: the days'
    /// numbers, Monday being 1, in brackets with commas between them; a text
    /// that reads back as those numbers.
    pub fn days_of_week_json(&self) -> (r: String)
        ensures
            r@ == number_list(numbers_from_days(self.days_of_week@)),
            json_numbers(r@) == Some(numbers_from_days(self.days_of_week@)),
    {
        let mut numbers: Vec<u8> = Vec::new();
        let mut i: usize = 0;
        while i < self.days_of_week.len()
            invariant
                i <= self.days_of_week.len(),
                numbers@ == numbers_from_days(self.days_of_week@.take(i as int)),
            decreases self.days_of_week.len() - i,
        {
            numbers.push(self.days_of_week[i].number_from_monday());
            assert(numbers@ =~= numbers_from_days(self.days_of_week@.take(i + 1)));
            i = i + 1;
        }
        assert(self.days_of_week@.take(self.days_of_week.len() as int) =~= self.days_of_week@);
        write_numbers(&numbers)
    }

    /// A pattern as it is stored: the days come as a JSON array of numbers.
    /// A text that is no such array gives no days.
    pub fn from_db_row(
        id: Option<i64>,
        isp_profile_id: i64,
        start_hour: u8,
        start_minute: u8,
        end_hour: u8,
        end_minute: u8,
        days_json: &str,
        severity: i64,
        confidence: i64,
    ) -> (r: Self)
        ensures
            r.id == id,
            r.isp_profile_id == isp_profile_id,
            r.start_hour == start_hour,
            r.start_minute == start_minute,
            r.end_hour == end_hour,
            r.end_minute == end_minute,
            r.severity == severity,
            r.confidence == confidence,
            r.days_of_week@ == (match json_numbers(days_json@) {
                Some(numbers) => days_from_numbers(numbers),
                None => Seq::empty(),
            }),
    {
        let days_of_week = match parse_numbers(days_json) {
            Some(numbers) => days_of(&numbers),
            None => Vec::new(),
        };
        ThrottlingPattern {
            id,
            isp_profile_id,
            start_hour,
            start_minute,
            end_hour,
            end_minute,
            days_of_week,
            severity,
            confidence,
        }
    }

    /// Refuses, in this order: a start hour, an end hour past 23; a start
    /// minute, an end minute past 59; a severity, a confidence outside
    /// nothing to one whole.
    pub fn validate(&self) -> (r: Result<(), ValidationError>)
        ensures
            r == self.spec_validate(),
    {
        if self.start_hour > 23 {
            return Err(ValidationError::InvalidHour { value: self.start_hour });
        }
        if self.end_hour > 23 {
            return Err(ValidationError::InvalidHour { value: self.end_hour });
        }
        if self.start_minute > 59 {
            return Err(ValidationError::InvalidMinute { value: self.start_minute });
        }
        if self.end_minute > 59 {
            return Err(ValidationError::InvalidMinute { value: self.end_minute });
        }
        if self.severity < 0 || self.severity > SCALE as i64 {
            return Err(ValidationError::InvalidSeverity { value: self.severity });
        }
        if self.confidence < 0 || self.confidence > SCALE as i64 {
            return Err(ValidationError::InvalidConfidence { value: self.confidence });
        }
        Ok(())
    }

    /// Whether the pattern covers the given day and minute.
    pub fn is_active_at(&self, clock: WallClock) -> (r: bool)
        ensures
            r == self.spec_is_active_at(clock),
    {
        if !contains_day(&self.days_of_week, clock.weekday) {
            return false;
        }
        let start: u32 = self.start_hour as u32 * 60 + self.start_minute as u32;
        let end: u32 = self.end_hour as u32 * 60 + self.end_minute as u32;
        let now: u32 = clock.minute_of_day();
        if start > end {
            now >= start || now <= end
        } else {
            now >= start && now <= end
        }
    }

    /// Whether the pattern covers the present moment, UTC. A pattern that
    /// covers every minute of every day covers it whatever the clock reads,
    /// and one that covers none does not.
    pub fn is_active_now(&self) -> (r: bool)
        ensures
            r ==> exists|clock: WallClock|
                clock.hour < 24 && clock.minute < 60 && #[trigger] self.spec_is_active_at(clock),
            (forall|clock: WallClock|
                clock.hour < 24 && clock.minute < 60 ==> #[trigger] self.spec_is_active_at(clock))
                ==> r,
            self.days_of_week@.len() == 0 ==> !r,
    {
        let clock = WallClock::now();
        self.is_active_at(clock)
    }

    /// The pattern in words, such as `19:00-22:00 on Mon, Tue (severity: 80.0%)`.
    pub fn description(&self) -> (r: String)
        ensures
            r@ == self.spec_description(),
    {
        let mut out = String::new();
        push_two_digits(&mut out, self.start_hour as u64);
        out.append(":");
        push_two_digits(&mut out, self.start_minute as u64);
        out.append("-");
        push_two_digits(&mut out, self.end_hour as u64);
        out.append(":");
        push_two_digits(&mut out, self.end_minute as u64);
        out.append(" on ");
        let ghost head = out@;
        let mut i: usize = 0;
        while i < self.days_of_week.len()
            invariant
                i <= self.days_of_week.len(),
                out@ == head + day_list(self.days_of_week@.take(i as int)),
            decreases self.days_of_week.len() - i,
        {
            if i > 0 {
                out.append(", ");
            }
            out.append(self.days_of_week[i].short_name());
            proof {
                let days = self.days_of_week@.take(i + 1);
                assert(days.drop_last() =~= self.days_of_week@.take(i as int));
                assert(days.last() == self.days_of_week@[i as int]);
                if i == 0 {
                    assert(self.days_of_week@.take(0) =~= Seq::<Weekday>::empty());
                    assert(out@ =~= head + day_list(days));
                } else {
                    assert(out@ =~= head + day_list(days));
                }
            }
            i = i + 1;
        }
        assert(self.days_of_week@.take(self.days_of_week.len() as int) =~= self.days_of_week@);
        out.append(" (severity: ");
        let ghost unsigned = out@;
        let size: u64 = if self.severity >= 0 {
            proof {
                reveal_strlit("");
            }
            self.severity as u64
        } else {
            out.append("-");
            (-(self.severity as i128)) as u64
        };
        assert(out@ =~= unsigned + self.spec_severity_sign());
        let tenths: u64 = (size + 500) / 1000;
        assert(tenths == self.spec_severity_tenths());
        push_decimal(&mut out, tenths / 10);
        out.append(".");
        push_decimal(&mut out, tenths % 10);
        out.append("%)");
        assert(out@ =~= self.spec_description());
        out
    }
}

/// The days that the numbers stand for, Monday being 1; other numbers are dropped.
pub fn days_of(numbers: &Vec<u8>) -> (r: Vec<Weekday>)
    ensures
        r@ == days_from_numbers(numbers@),
{
    let mut out: Vec<Weekday> = Vec::new();
    let mut i: usize = 0;
    while i < numbers.len()
        invariant
            i <= numbers.len(),
            out@ == days_from_numbers(numbers@.take(i as int)),
        decreases numbers.len() - i,
    {
        assert(numbers@.take(i + 1).drop_last() =~= numbers@.take(i as int));
        assert(numbers@.take(i + 1).last() == numbers@[i as int]);
        match Weekday::from_number(numbers[i]) {
            Some(day) => {
                out.push(day);
            },
            None => {},
        }
        i = i + 1;
    }
    assert(numbers@.take(numbers.len() as int) =~= numbers@);
    out
}

/// Whether `day` is among `days`.
pub fn contains_day(days: &Vec<Weekday>, day: Weekday) -> (r: bool)
    ensures
        r == days@.contains(day),
{
    let mut i: usize = 0;
    while i < days.len()
        invariant
            i <= days.len(),
            forall|j: int| 0 <= j < i ==> days@[j] != day,
        decreases days.len() - i,
    {
        if days[i] == day {
            assert(days@[i as int] == day);
            return true;
        }
        i = i + 1;
    }
    false
}

/// Days written as numbers read back as the same days.
pub proof fn lemma_days_round_trip(days: Seq<Weekday>)
    ensures
        days_from_numbers(numbers_from_days(days)) == days,
    decreases days.len(),
{
    let numbers = numbers_from_days(days);
    if days.len() == 0 {
        assert(days_from_numbers(numbers) =~= days);
    } else {
        assert(numbers.drop_last() =~= numbers_from_days(days.drop_last()));
        lemma_days_round_trip(days.drop_last());
        crate::clock::lemma_weekday_number_round_trip(days.last());
        assert(days_from_numbers(numbers) =~= days.drop_last().push(days.last()));
        assert(days.drop_last().push(days.last()) =~= days);
    }
}

/// A pattern that is stored and read back has the fields it was stored with.
pub proof fn lemma_pattern_row_round_trip(pattern: ThrottlingPattern, stored_days: Seq<char>)
    requires
        json_numbers(stored_days) == Some(numbers_from_days(pattern.days_of_week@)),
    ensures
        (match json_numbers(stored_days) {
            Some(numbers) => days_from_numbers(numbers),
            None => Seq::empty(),
        }) == pattern.days_of_week@,
{
    lemma_days_round_trip(pattern.days_of_week@);
}

/// How the engines disguise and pace their traffic.
#[derive(Debug, Clone)]
pub struct OptimizationStrategy {
    pub id: Option<i64>,
    pub name: String,
    pub server_rotation_interval_minutes: u32,
    /// Shortest pause between packets, in milliseconds.
    pub packet_timing_min_ms: i64,
    /// Longest pause between packets, in milliseconds.
    pub packet_timing_max_ms: i64,
    pub connection_count: u8,
    pub traffic_intensity: i64,
    pub stealth_level: StealthLevel,
    pub effectiveness_score: Option<i64>,
    pub created_at: i64,
}

/// The score above which a strategy counts as effective, in millionths.
pub const EFFECTIVE_SCORE: i64 = 600_000;

/// The score that a strategy begins with, in millionths.
pub const INITIAL_SCORE: i64 = 600_000;

impl OptimizationStrategy {
    /// Refuses, in this order: a blank name; a connection count outside 1
    /// to 10; a traffic intensity outside nothing to one whole; timing
    /// bounds of which the lower is not below the upper; a score outside
    /// nothing to one whole.
    pub open spec fn spec_validate(self) -> Result<(), ValidationError> {
        if blank(self.name@) {
            Err(ValidationError::EmptyName)
        } else if self.connection_count == 0 || self.connection_count > 10 {
            Err(ValidationError::InvalidConnectionCount { value: self.connection_count })
        } else if self.traffic_intensity < 0 || self.traffic_intensity > SCALE {
            Err(ValidationError::InvalidTrafficIntensity { value: self.traffic_intensity })
        } else if self.packet_timing_min_ms >= self.packet_timing_max_ms {
            Err(ValidationError::InvalidSpeed { value: self.packet_timing_min_ms })
        } else if self.effectiveness_score matches Some(score) && (score < 0 || score > SCALE) {
            Err(ValidationError::InvalidConfidence { value: self.effectiveness_score->0 })
        } else {
            Ok(())
        }
    }

    /// Whether the strategy has a score above six tenths.
    pub open spec fn spec_is_effective(self) -> bool {
        self.effectiveness_score matches Some(score) && score > EFFECTIVE_SCORE
    }

    /// The strategy that is used while nothing better is known.
    pub fn default_strategy() -> (r: Self)
        ensures
            r.id is None,
            r.name@ == "Default"@,
            r.server_rotation_interval_minutes == 10,
            r.packet_timing_min_ms == 30_000,
            r.packet_timing_max_ms == 60_000,
            r.connection_count == 3,
            r.traffic_intensity == 500_000,
            r.stealth_level == StealthLevel::Medium,
            r.effectiveness_score is None,
            valid_timestamp(r.created_at as int),
    {
        OptimizationStrategy {
            id: None,
            name: String::from_str("Default"),
            server_rotation_interval_minutes: 10,
            packet_timing_min_ms: 30_000,
            packet_timing_max_ms: 60_000,
            connection_count: 3,
            traffic_intensity: 500_000,
            stealth_level: StealthLevel::Medium,
            effectiveness_score: None,
            created_at: unix_now(),
        }
    }

    /// A quieter strategy for providers that shape hard.
    pub fn high_stealth_strategy() -> (r: Self)
        ensures
            r.id is None,
            r.name@ == "High Stealth"@,
            r.server_rotation_interval_minutes == 5,
            r.packet_timing_min_ms == 45_000,
            r.packet_timing_max_ms == 90_000,
            r.connection_count == 2,
            r.traffic_intensity == 300_000,
            r.stealth_level == StealthLevel::High,
            r.effectiveness_score is None,
            valid_timestamp(r.created_at as int),
    {
        OptimizationStrategy {
            id: None,
            name: String::from_str("High Stealth"),
            server_rotation_interval_minutes: 5,
            packet_timing_min_ms: 45_000,
            packet_timing_max_ms: 90_000,
            connection_count: 2,
            traffic_intensity: 300_000,
            stealth_level: StealthLevel::High,
            effectiveness_score: None,
            created_at: unix_now(),
        }
    }

    /// The strategy to begin with for the provider called `isp_name`: the
    /// quieter one for a provider known to shape traffic, else the usual
    /// one; either with a first score of six tenths, so that it is found
    /// when the best strategy is asked for.
    pub fn initial_strategy(isp_name: &str) -> (r: Self)
        ensures
            r.id is None,
            r.effectiveness_score == Some(INITIAL_SCORE),
            valid_timestamp(r.created_at as int),
            if names_throttling_provider(lowercased(isp_name@)) {
                &&& r.name@ == "High Stealth"@
                &&& r.server_rotation_interval_minutes == 5
                &&& r.packet_timing_min_ms == 45_000
                &&& r.packet_timing_max_ms == 90_000
                &&& r.connection_count == 2
                &&& r.traffic_intensity == 300_000
                &&& r.stealth_level == StealthLevel::High
            } else {
                &&& r.name@ == "Default"@
                &&& r.server_rotation_interval_minutes == 10
                &&& r.packet_timing_min_ms == 30_000
                &&& r.packet_timing_max_ms == 60_000
                &&& r.connection_count == 3
                &&& r.traffic_intensity == 500_000
                &&& r.stealth_level == StealthLevel::Medium
            },
    {
        let lower = to_lowercase(isp_name);
        let mut strategy = if names_throttling(lower.as_str()) {
            OptimizationStrategy::high_stealth_strategy()
        } else {
            OptimizationStrategy::default_strategy()
        };
        strategy.effectiveness_score = Some(INITIAL_SCORE);
        strategy
    }

    /// Refuses, in this order: a blank name; a connection count outside 1
    /// to 10; a traffic intensity outside nothing to one whole; timing
    /// bounds of which the lower is not below the upper; a score outside
    /// nothing to one whole.
    pub fn validate(&self) -> (r: Result<(), ValidationError>)
        ensures
            r == self.spec_validate(),
    {
        if is_blank(self.name.as_str()) {
            return Err(ValidationError::EmptyName);
        }
        if self.connection_count == 0 || self.connection_count > 10 {
            return Err(ValidationError::InvalidConnectionCount { value: self.connection_count });
        }
        if self.traffic_intensity < 0 || self.traffic_intensity > SCALE as i64 {
            return Err(ValidationError::InvalidTrafficIntensity { value: self.traffic_intensity });
        }
        if self.packet_timing_min_ms >= self.packet_timing_max_ms {
            return Err(ValidationError::InvalidSpeed { value: self.packet_timing_min_ms });
        }
        if let Some(score) = self.effectiveness_score {
            if score < 0 || score > SCALE as i64 {
                return Err(ValidationError::InvalidConfidence { value: score });
            }
        }
        Ok(())
    }

    /// Whether the strategy has a score above six tenths.
    pub fn is_effective(&self) -> (r: bool)
        ensures
            r == self.spec_is_effective(),
    {
        match self.effectiveness_score {
            Some(score) => score > EFFECTIVE_SCORE,
            None => false,
        }
    }

    /// The rank of the strategy's stealth level, 0 to 3.
    pub fn stealth_level_numeric(&self) -> (r: u8)
        ensures
            r == self.stealth_level.spec_rank(),
    {
        self.stealth_level.rank()
    }
}

/// A strategy as the store holds it: every field as a plain value, the
/// stealth level by its name.
#[derive(Debug, Clone)]
pub struct StrategyRow {
    pub id: Option<i64>,
    pub name: String,
    pub server_rotation_interval_minutes: u32,
    pub packet_timing_min_ms: i64,
    pub packet_timing_max_ms: i64,
    pub connection_count: u8,
    pub traffic_intensity: i64,
    pub stealth_level: String,
    pub effectiveness_score: Option<i64>,
    pub created_at: i64,
}

impl OptimizationStrategy {
    /// The row holds the strategy.
    pub open spec fn spec_stored_as(self, row: StrategyRow) -> bool {
        &&& row.id == self.id
        &&& row.name@ == self.name@
        &&& row.server_rotation_interval_minutes == self.server_rotation_interval_minutes
        &&& row.packet_timing_min_ms == self.packet_timing_min_ms
        &&& row.packet_timing_max_ms == self.packet_timing_max_ms
        &&& row.connection_count == self.connection_count
        &&& row.traffic_intensity == self.traffic_intensity
        &&& row.stealth_level@ == self.stealth_level.spec_name()
        &&& row.effectiveness_score == self.effectiveness_score
        &&& row.created_at == self.created_at
    }

    /// The strategy is what the row reads back as.
    pub open spec fn spec_read_from(self, row: StrategyRow) -> bool {
        &&& self.id == row.id
        &&& self.name@ == row.name@
        &&& self.server_rotation_interval_minutes == row.server_rotation_interval_minutes
        &&& self.packet_timing_min_ms == row.packet_timing_min_ms
        &&& self.packet_timing_max_ms == row.packet_timing_max_ms
        &&& self.connection_count == row.connection_count
        &&& self.traffic_intensity == row.traffic_intensity
        &&& self.stealth_level == StealthLevel::spec_from_name(row.stealth_level@)
        &&& self.effectiveness_score == row.effectiveness_score
        &&& self.created_at == row.created_at
    }

    /// The two strategies agree in every field.
    pub open spec fn spec_same(self, other: OptimizationStrategy) -> bool {
        &&& self.id == other.id
        &&& self.name@ == other.name@
        &&& self.server_rotation_interval_minutes == other.server_rotation_interval_minutes
        &&& self.packet_timing_min_ms == other.packet_timing_min_ms
        &&& self.packet_timing_max_ms == other.packet_timing_max_ms
        &&& self.connection_count == other.connection_count
        &&& self.traffic_intensity == other.traffic_intensity
        &&& self.stealth_level == other.stealth_level
        &&& self.effectiveness_score == other.effectiveness_score
        &&& self.created_at == other.created_at
    }

    /// The strategy as the store holds it.
    pub fn to_row(&self) -> (row: StrategyRow)
        ensures
            self.spec_stored_as(row),
    {
        StrategyRow {
            id: self.id,
            name: self.name.clone(),
            server_rotation_interval_minutes: self.server_rotation_interval_minutes,
            packet_timing_min_ms: self.packet_timing_min_ms,
            packet_timing_max_ms: self.packet_timing_max_ms,
            connection_count: self.connection_count,
            traffic_intensity: self.traffic_intensity,
            stealth_level: self.stealth_level.to_string(),
            effectiveness_score: self.effectiveness_score,
            created_at: self.created_at,
        }
    }

    /// The strategy that a row of the store holds.
    pub fn from_row(row: &StrategyRow) -> (r: Self)
        ensures
            r.spec_read_from(*row),
    {
        OptimizationStrategy {
            id: row.id,
            name: row.name.clone(),
            server_rotation_interval_minutes: row.server_rotation_interval_minutes,
            packet_timing_min_ms: row.packet_timing_min_ms,
            packet_timing_max_ms: row.packet_timing_max_ms,
            connection_count: row.connection_count,
            traffic_intensity: row.traffic_intensity,
            stealth_level: StealthLevel::from_string(row.stealth_level.as_str()),
            effectiveness_score: row.effectiveness_score,
            created_at: row.created_at,
        }
    }
}

/// A strategy that is stored and read back agrees with itself in every field.
pub proof fn lemma_strategy_row_round_trip(
    strategy: OptimizationStrategy,
    row: StrategyRow,
    read: OptimizationStrategy,
)
    requires
        strategy.spec_stored_as(row),
        read.spec_read_from(row),
    ensures
        read.spec_same(strategy),
{
    lemma_stealth_level_round_trip(strategy.stealth_level);
}

/// An endpoint that bursts can be sent to.
#[derive(Debug, Clone)]
pub struct SpeedtestServer {
    pub id: Option<i64>,
    pub server_id: String,
    pub host: String,
    pub port: u16,
    pub name: String,
    pub country: String,
    pub sponsor: String,
    /// Distance from the user, in metres.
    pub distance_m: Option<u32>,
    /// Round-trip time, in microseconds.
    pub latency_us: Option<u64>,
    pub is_active: bool,
    pub last_used: Option<i64>,
}

/// Whether a server in the country `country` suits the region `region`,
/// both in lower case: the country's name holds the region's, or the region
/// is Sri Lanka and the country is Singapore, India or Sri Lanka.
pub open spec fn country_suits_region(country: Seq<char>, region: Seq<char>) -> bool {
    if has_substring(country, region) {
        true
    } else if has_substring(region, "sri lanka"@) || has_substring(region, "lanka"@) {
        has_substring(country, "singapore"@) || has_substring(country, "india"@) || has_substring(
            country,
            "sri lanka"@,
        )
    } else {
        false
    }
}

/// Whether a server in the country `country` suits the region `region`,
/// both given in lower case.
pub fn suits_region(country: &str, region: &str) -> (r: bool)
    ensures
        r == country_suits_region(country@, region@),
{
    if contains(country, region) {
        return true;
    }
    if contains(region, "sri lanka") || contains(region, "lanka") {
        return contains(country, "singapore") || contains(country, "india") || contains(
            country,
            "sri lanka",
        );
    }
    false
}

impl SpeedtestServer {
    /// Refuses a blank identifier, a blank host and port 0, in that order.
    pub open spec fn spec_validate(self) -> Result<(), ValidationError> {
        if blank(self.server_id@) {
            Err(ValidationError::EmptyName)
        } else if blank(self.host@) {
            Err(ValidationError::EmptyName)
        } else if self.port == 0 {
            Err(ValidationError::InvalidSpeed { value: 0 })
        } else {
            Ok(())
        }
    }

    /// Whether the server suits the region.
    pub open spec fn spec_is_suitable_for_region(self, region: Seq<char>) -> bool {
        country_suits_region(lowercased(self.country@), lowercased(region))
    }

    /// An active server of which neither distance nor latency is known.
    pub fn new(
        server_id: String,
        host: String,
        port: u16,
        name: String,
        country: String,
        sponsor: String,
    ) -> (r: Self)
        ensures
            r.id is None,
            r.server_id == server_id,
            r.host == host,
            r.port == port,
            r.name == name,
            r.country == country,
            r.sponsor == sponsor,
            r.distance_m is None,
            r.latency_us is None,
            r.is_active,
            r.last_used is None,
    {
        SpeedtestServer {
            id: None,
            server_id,
            host,
            port,
            name,
            country,
            sponsor,
            distance_m: None,
            latency_us: None,
            is_active: true,
            last_used: None,
        }
    }

    /// Refuses a blank identifier, a blank host and port 0, in that order.
    pub fn validate(&self) -> (r: Result<(), ValidationError>)
        ensures
            r == self.spec_validate(),
    {
        if is_blank(self.server_id.as_str()) {
            return Err(ValidationError::EmptyName);
        }
        if is_blank(self.host.as_str()) {
            return Err(ValidationError::EmptyName);
        }
        if self.port == 0 {
            return Err(ValidationError::InvalidSpeed { value: 0 });
        }
        Ok(())
    }

    /// Marks the server as used now. Nothing else changes.
    pub fn mark_used(&mut self)
        ensures
            final(self).last_used matches Some(t) && valid_timestamp(t as int),
            final(self).id == old(self).id,
            final(self).server_id == old(self).server_id,
            final(self).host == old(self).host,
            final(self).port == old(self).port,
            final(self).name == old(self).name,
            final(self).country == old(self).country,
            final(self).sponsor == old(self).sponsor,
            final(self).distance_m == old(self).distance_m,
            final(self).latency_us == old(self).latency_us,
            final(self).is_active == old(self).is_active,
    {
        self.last_used = Some(unix_now());
    }

    /// Whether the server suits the region.
    pub fn is_suitable_for_region(&self, region: &str) -> (r: bool)
        ensures
            r == self.spec_is_suitable_for_region(region@),
    {
        let region_lower = to_lowercase(region);
        let country_lower = to_lowercase(self.country.as_str());
        suits_region(country_lower.as_str(), region_lower.as_str())
    }

    /// A copy of the server.
    pub fn duplicate(&self) -> (r: Self)
        ensures
            r == *self,
    {
        SpeedtestServer {
            id: self.id,
            server_id: self.server_id.clone(),
            host: self.host.clone(),
            port: self.port,
            name: self.name.clone(),
            country: self.country.clone(),
            sponsor: self.sponsor.clone(),
            distance_m: self.distance_m,
            latency_us: self.latency_us,
            is_active: self.is_active,
            last_used: self.last_used,
        }
    }
}

/// The longest time that samples may be kept, in days.
pub const MAX_RETENTION_DAYS: u32 = 365;

/// The highest hourly bandwidth limit, in kilobytes.
pub const MAX_BANDWIDTH_LIMIT_KB: i64 = 1_024_000;

/// The settings that are stored with the measurements.
#[derive(Debug, Clone)]
pub struct AppConfig {
    pub id: Option<i64>,
    pub auto_start: bool,
    pub monitoring_enabled: bool,
    pub optimization_enabled: bool,
    pub data_retention_days: u32,
    /// Kilobytes per hour.
    pub bandwidth_limit_kb_per_hour: Option<i64>,
    pub notification_level: String,
    pub created_at: i64,
    pub updated_at: i64,
}

impl AppConfig {
    /// Refuses a retention outside 1 to 365 days, then a bandwidth limit
    /// that is not positive or is above the highest.
    pub open spec fn spec_validate(self) -> Result<(), ValidationError> {
        if self.data_retention_days == 0 || self.data_retention_days > MAX_RETENTION_DAYS {
            Err(ValidationError::InvalidSpeed { value: self.data_retention_days as i64 })
        } else if self.bandwidth_limit_kb_per_hour matches Some(limit) && (limit <= 0 || limit
            > MAX_BANDWIDTH_LIMIT_KB) {
            Err(ValidationError::InvalidSpeed { value: self.bandwidth_limit_kb_per_hour->0 })
        } else {
            Ok(())
        }
    }

    /// Refuses a retention outside 1 to 365 days, then a bandwidth limit
    /// that is not positive or is above the highest.
    pub fn validate(&self) -> (r: Result<(), ValidationError>)
        ensures
            r == self.spec_validate(),
    {
        if self.data_retention_days == 0 || self.data_retention_days > MAX_RETENTION_DAYS {
            return Err(ValidationError::InvalidSpeed { value: self.data_retention_days as i64 });
        }
        if let Some(limit) = self.bandwidth_limit_kb_per_hour {
            if limit <= 0 || limit > MAX_BANDWIDTH_LIMIT_KB {
                return Err(ValidationError::InvalidSpeed { value: limit });
            }
        }
        Ok(())
    }

    /// Marks the settings as updated now.
    pub fn touch(&mut self)
        ensures
            final(self).id == old(self).id,
            final(self).auto_start == old(self).auto_start,
            final(self).monitoring_enabled == old(self).monitoring_enabled,
            final(self).optimization_enabled == old(self).optimization_enabled,
            final(self).data_retention_days == old(self).data_retention_days,
            final(self).bandwidth_limit_kb_per_hour == old(self).bandwidth_limit_kb_per_hour,
            final(self).notification_level == old(self).notification_level,
            final(self).created_at == old(self).created_at,
            valid_timestamp(final(self).updated_at as int),
    {
        self.updated_at = unix_now();
    }
}

impl Default for AppConfig {
    /// Monitoring only, thirty days of samples, one megabyte per hour.
    fn default() -> (r: Self)
        ensures
            r.id is None,
            r.auto_start,
            r.monitoring_enabled,
            !r.optimization_enabled,
            r.data_retention_days == 30,
            r.bandwidth_limit_kb_per_hour == Some(1024i64),
            r.notification_level@ == "Normal"@,
            r.created_at == r.updated_at,
            r.spec_validate() is Ok,
    {
        let now = unix_now();
        AppConfig {
            id: None,
            auto_start: true,
            monitoring_enabled: true,
            optimization_enabled: false,
            data_retention_days: 30,
            bandwidth_limit_kb_per_hour: Some(1024),
            notification_level: String::from_str("Normal"),
            created_at: now,
            updated_at: now,
        }
    }
}

} // verus!
