//! The application's settings and their defaults.

use crate::error::SpeedKarmaError;
use crate::fixed::SCALE;
use vstd::prelude::*;
use vstd::string::*;

verus! {

/// When optimization switches itself on.
#[derive(Debug, Clone, Copy, PartialEq, Eq, Structural)]
pub struct AutoOptimizationConfig {
    pub enabled: bool,
    /// The least confidence, in millionths.
    pub min_confidence: i64,
    /// The least improvement, in millionths.
    pub min_improvement_factor: i64,
    pub min_data_days: u32,
}

/// Hours and days in which the application may work.
#[derive(Debug, Clone)]
pub struct TimeRestrictions {
    /// Hours of the day, 0 to 23.
    pub allowed_hours: Vec<u8>,
    /// Days of the week, Sunday being 0.
    pub allowed_days: Vec<u8>,
}

/// How the connection is watched.
#[derive(Debug, Clone)]
pub struct MonitoringConfig {
    /// Seconds between measurements.
    pub measurement_interval: u64,
    /// Kilobytes per hour.
    pub max_bandwidth_per_hour: i64,
    pub time_restrictions: Option<TimeRestrictions>,
}

/// What the user sees.
#[derive(Debug, Clone)]
pub struct UiConfig {
    pub show_notifications: bool,
    pub start_minimized: bool,
    /// `auto`, `light` or `dark`.
    pub theme: String,
}

/// How the disguised traffic is shaped.
#[derive(Debug, Clone, Copy)]
pub struct TrafficPatternConfig {
    pub rotation_interval_minutes: u32,
    /// Shortest and longest wait, in milliseconds.
    pub timing_randomization: (u64, u64),
    pub connection_count: u8,
    /// In millionths.
    pub intensity: u64,
}

/// Settings that the main window does not show.
#[derive(Debug, Clone)]
pub struct AdvancedConfig {
    pub custom_servers: Vec<String>,
    pub debug_logging: bool,
    pub isp_override: Option<String>,
    pub traffic_patterns: TrafficPatternConfig,
}

/// What the user has agreed to.
#[derive(Debug, Clone, Copy, PartialEq, Eq, Structural)]
pub struct LegalConfig {
    pub terms_accepted: bool,
}

/// All settings.
#[derive(Debug, Clone)]
pub struct AppConfig {
    pub auto_optimization: AutoOptimizationConfig,
    pub monitoring: MonitoringConfig,
    pub ui: UiConfig,
    pub advanced: AdvancedConfig,
    pub legal: LegalConfig,
}

/// Why settings are refused.
#[derive(Debug, Clone, Copy, PartialEq, Eq, Structural)]
pub enum ConfigFault {
    ConfidenceOutOfRange,
    ImprovementBelowOne,
    BandwidthNotPositive,
}

impl ConfigFault {
    /// The fault in words.
    pub open spec fn spec_message(self) -> Seq<char> {
        match self {
            ConfigFault::ConfidenceOutOfRange => "Confidence level must be between 0.0 and 1.0"@,
            ConfigFault::ImprovementBelowOne => "Improvement factor must be at least 1.0"@,
            ConfigFault::BandwidthNotPositive => "Bandwidth limit must be positive"@,
        }
    }

    /// The fault in words.
    pub fn message(self) -> (r: &'static str)
        ensures
            r@ == self.spec_message(),
    {
        match self {
            ConfigFault::ConfidenceOutOfRange => "Confidence level must be between 0.0 and 1.0",
            ConfigFault::ImprovementBelowOne => "Improvement factor must be at least 1.0",
            ConfigFault::BandwidthNotPositive => "Bandwidth limit must be positive",
        }
    }
}

impl AppConfig {
    /// The first fault of the settings, if any.
    pub open spec fn spec_fault(&self) -> Option<ConfigFault> {
        if self.auto_optimization.min_confidence < 0 || self.auto_optimization.min_confidence
            > SCALE {
            Some(ConfigFault::ConfidenceOutOfRange)
        } else if self.auto_optimization.min_improvement_factor < SCALE {
            Some(ConfigFault::ImprovementBelowOne)
        } else if self.monitoring.max_bandwidth_per_hour <= 0 {
            Some(ConfigFault::BandwidthNotPositive)
        } else {
            None
        }
    }

    /// The first fault of the settings, if any.
    pub fn fault(&self) -> (r: Option<ConfigFault>)
        ensures
            r == self.spec_fault(),
    {
        if self.auto_optimization.min_confidence < 0 || self.auto_optimization.min_confidence
            > SCALE as i64 {
            Some(ConfigFault::ConfidenceOutOfRange)
        } else if self.auto_optimization.min_improvement_factor < SCALE as i64 {
            Some(ConfigFault::ImprovementBelowOne)
        } else if self.monitoring.max_bandwidth_per_hour <= 0 {
            Some(ConfigFault::BandwidthNotPositive)
        } else {
            None
        }
    }

    /// Refuses, in this order: a confidence outside nothing to one whole,
    /// an improvement below one whole, a bandwidth that is not positive.
    pub fn validate(&self) -> (r: Result<(), SpeedKarmaError>)
        ensures
            match self.spec_fault() {
                Some(fault) => r matches Err(SpeedKarmaError::ConfigurationError(text)) && text@
                    == fault.spec_message(),
                None => r is Ok,
            },
    {
        match self.fault() {
            Some(fault) => Err(SpeedKarmaError::ConfigurationError(String::from_str(fault.message()))),
            None => Ok(()),
        }
    }
}

impl Default for AppConfig {
    /// Optimization by itself from a confidence of eight tenths and an
    /// improvement of one and a half; a measurement every five minutes; one
    /// megabyte per hour.
    fn default() -> (r: Self)
        ensures
            r.auto_optimization == (AutoOptimizationConfig {
                enabled: true,
                min_confidence: 800_000,
                min_improvement_factor: 1_500_000,
                min_data_days: 7,
            }),
            r.monitoring.measurement_interval == 300,
            r.monitoring.max_bandwidth_per_hour == 1024,
            r.monitoring.time_restrictions is None,
            r.ui.show_notifications,
            r.ui.start_minimized,
            r.ui.theme@ == "auto"@,
            r.advanced.custom_servers@.len() == 0,
            !r.advanced.debug_logging,
            r.advanced.isp_override is None,
            r.advanced.traffic_patterns.rotation_interval_minutes == 10,
            r.advanced.traffic_patterns.timing_randomization == (30_000u64, 60_000u64),
            r.advanced.traffic_patterns.connection_count == 3,
            r.advanced.traffic_patterns.intensity == 500_000,
            !r.legal.terms_accepted,
            r.spec_fault() is None,
    {
        AppConfig {
            auto_optimization: AutoOptimizationConfig {
                enabled: true,
                min_confidence: 800_000,
                min_improvement_factor: 1_500_000,
                min_data_days: 7,
            },
            monitoring: MonitoringConfig {
                measurement_interval: 300,
                max_bandwidth_per_hour: 1024,
                time_restrictions: None,
            },
            ui: UiConfig {
                show_notifications: true,
                start_minimized: true,
                theme: String::from_str("auto"),
            },
            advanced: AdvancedConfig {
                custom_servers: Vec::new(),
                debug_logging: false,
                isp_override: None,
                traffic_patterns: TrafficPatternConfig {
                    rotation_interval_minutes: 10,
                    timing_randomization: (30_000, 60_000),
                    connection_count: 3,
                    intensity: 500_000,
                },
            },
            legal: LegalConfig { terms_accepted: false },
        }
    }
}

} // verus!
