//! The one-shot speed test: where it downloads from and uploads to, and
//! what it reports; and the idle pulse of the disguise.

use crate::fixed::min_int;
use crate::text::{decimal, has_substring, push_decimal, contains};
use vstd::prelude::*;
use vstd::string::*;

verus! {

/// The bytes that one upload request carries.
pub const UPLOAD_BODY_BYTES: usize = 2_000_000;

/// The time between two progress events of a speed test, in milliseconds.
pub const PROGRESS_PERIOD_MS: u64 = 300;

/// How the speed test runs.
#[derive(Debug, Clone, Copy, PartialEq, Eq, Structural)]
pub struct SpeedtestRunnerConfig {
    pub enabled: bool,
    pub download_duration_s: u32,
    pub upload_duration_s: u32,
    pub parallel_connections: u8,
}

/// Whether the disguise is on.
#[derive(Debug, Clone, Copy, PartialEq, Eq, Structural)]
pub struct DisguiseModeConfig {
    pub enabled: bool,
}

/// A stage of a speed test.
#[derive(Debug, Clone, Copy, PartialEq, Eq, Structural)]
pub enum SpeedtestPhase {
    Download,
    Upload,
    Done,
}

/// One progress event of a speed test.
#[derive(Debug, Clone, Copy, PartialEq, Eq, Structural)]
pub struct SpeedtestProgressPayload {
    pub phase: SpeedtestPhase,
    pub down_kbps: u64,
    pub up_kbps: u64,
    pub elapsed_s: u32,
}

impl SpeedtestPhase {
    /// The phase's name in events.
    pub fn name(self) -> (r: &'static str)
        ensures
            r@ == (match self {
                SpeedtestPhase::Download => "download"@,
                SpeedtestPhase::Upload => "upload"@,
                SpeedtestPhase::Done => "done"@,
            }),
    {
        match self {
            SpeedtestPhase::Download => "download",
            SpeedtestPhase::Upload => "upload",
            SpeedtestPhase::Done => "done",
        }
    }
}

impl SpeedtestRunnerConfig {
    /// The seconds of the download stage: one at least.
    pub fn download_seconds(&self) -> (r: u32)
        ensures
            r == crate::fixed::max_int(self.download_duration_s as int, 1),
    {
        if self.download_duration_s >= 1 {
            self.download_duration_s
        } else {
            1
        }
    }

    /// The seconds of the upload stage: one at least.
    pub fn upload_seconds(&self) -> (r: u32)
        ensures
            r == crate::fixed::max_int(self.upload_duration_s as int, 1),
    {
        if self.upload_duration_s >= 1 {
            self.upload_duration_s
        } else {
            1
        }
    }

    /// The number of connections that run side by side: one at least.
    pub fn connections(&self) -> (r: u8)
        ensures
            r == crate::fixed::max_int(self.parallel_connections as int, 1),
    {
        if self.parallel_connections >= 1 {
            self.parallel_connections
        } else {
            1
        }
    }

    /// The last event of a test, with the speeds measured.
    pub fn done(&self, down_kbps: u64, up_kbps: u64) -> (r: SpeedtestProgressPayload)
        ensures
            r.phase == SpeedtestPhase::Done,
            r.down_kbps == down_kbps,
            r.up_kbps == up_kbps,
            r.elapsed_s == min_int(
                self.spec_download_seconds() + self.spec_upload_seconds(),
                u32::MAX as int,
            ),
    {
        let down = self.download_seconds();
        let up = self.upload_seconds();
        SpeedtestProgressPayload {
            phase: SpeedtestPhase::Done,
            down_kbps,
            up_kbps,
            elapsed_s: if down > u32::MAX - up {
                u32::MAX
            } else {
                down + up
            },
        }
    }

    /// The seconds of the download stage: one at least.
    pub open spec fn spec_download_seconds(&self) -> int {
        crate::fixed::max_int(self.download_duration_s as int, 1)
    }

    /// The seconds of the upload stage: one at least.
    pub open spec fn spec_upload_seconds(&self) -> int {
        crate::fixed::max_int(self.upload_duration_s as int, 1)
    }
}

/// The seconds of a stage that have passed when `remaining_s` of its `total_s` are left.
pub fn elapsed_of(total_s: u32, remaining_s: u64) -> (r: u32)
    ensures
        r == (if remaining_s >= total_s {
            0
        } else {
            total_s - remaining_s
        }),
{
    if remaining_s >= total_s as u64 {
        0
    } else {
        total_s - remaining_s as u32
    }
}

/// Whether an address is that of the fallback service.
pub open spec fn is_fallback(base: Seq<char>) -> bool {
    has_substring(base, "speed.cloudflare.com"@)
}

/// The address that stream number `seed` downloads from.
pub open spec fn download_url(base: Seq<char>, seed: u64) -> Seq<char> {
    if is_fallback(base) {
        base + "__down?bytes=16777216&seed="@ + decimal(seed as nat)
    } else {
        base + "speedtest/random4000x4000.jpg?r="@ + decimal(seed as nat)
    }
}

/// The address that uploads go to.
pub open spec fn upload_url(base: Seq<char>) -> Seq<char> {
    if is_fallback(base) {
        base + "__up"@
    } else {
        base + "speedtest/upload.php"@
    }
}

/// The address that stream number `seed` downloads from.
pub fn download_address(base: &str, seed: u64) -> (r: String)
    ensures
        r@ == download_url(base@, seed),
{
    let mut out = String::from_str(base);
    if contains(base, "speed.cloudflare.com") {
        out.append("__down?bytes=16777216&seed=");
    } else {
        out.append("speedtest/random4000x4000.jpg?r=");
    }
    push_decimal(&mut out, seed);
    out
}

/// The address that uploads go to.
pub fn upload_address(base: &str) -> (r: String)
    ensures
        r@ == upload_url(base@),
{
    let mut out = String::from_str(base);
    if contains(base, "speed.cloudflare.com") {
        out.append("__up");
    } else {
        out.append("speedtest/upload.php");
    }
    out
}

/// The seconds that the disguise waits before it looks again: ten while
/// it is off or has just pulsed, five while optimization is off.
pub fn disguise_wait_s(config: &DisguiseModeConfig, optimization_on: bool) -> (r: u64)
    ensures
        r == (if config.enabled && !optimization_on {
            5int
        } else {
            10int
        }),
{
    if config.enabled && !optimization_on {
        5
    } else {
        10
    }
}

} // verus!
