//! One burst of the cadence scheduler: where it goes and what it asks for.

use crate::entropy::{chance, random_in};
use crate::mimicry::{range_header, range_header_text};
use crate::models::StealthLevel;
use crate::text::{decimal, push_decimal};
use vstd::prelude::*;
use vstd::string::*;

verus! {

/// The number of places at which a burst's range may start.
pub const RANGE_STARTS: u64 = 2_048;

/// The shortest pause between the probe and the burst, in milliseconds.
pub const MIN_PROBE_PAUSE_MS: u64 = 20;

/// One more than the longest pause between the probe and the burst, in milliseconds.
pub const PROBE_PAUSE_LIMIT_MS: u64 = 80;

/// The address that bursts go to while no server is known.
pub open spec fn fallback_url() -> Seq<char> {
    "https://speed.cloudflare.com/__down?bytes=262144"@
}

/// The address that speed tests go to while no server is known.
pub open spec fn fallback_base() -> Seq<char> {
    "https://speed.cloudflare.com/"@
}

/// The scheme under which a server is addressed at a stealth level.
pub open spec fn scheme(level: StealthLevel) -> Seq<char> {
    if level == StealthLevel::Maximum {
        "https"@
    } else {
        "http"@
    }
}

/// The address of a server's front page.
pub open spec fn server_base(host: Seq<char>, port: u16, level: StealthLevel) -> Seq<char> {
    scheme(level) + "://"@ + host + ":"@ + decimal(port as nat) + "/"@
}

/// The address of a burst: the download path of the server with a nonce
/// of 32 bits against caches, or the fallback where no server is known.
pub open spec fn target_url(host: Option<Seq<char>>, port: u16, level: StealthLevel, nonce: u64) -> Seq<
    char,
> {
    match host {
        Some(h) => server_base(h, port, level) + "download?nocache="@ + decimal(
            (nonce % 0x1_0000_0000) as nat,
        ),
        None => fallback_url(),
    }
}

/// One burst as the caller sends it.
#[derive(Debug, Clone)]
pub struct BurstRequest {
    /// The value of the range header.
    pub range: String,
    /// Whether a header-only probe goes out before the burst.
    pub head_first: bool,
    /// The pause between the probe and the burst, in milliseconds.
    pub pause_ms: u64,
}

fn push_server_base(out: &mut String, host: &str, port: u16, level: StealthLevel)
    ensures
        final(out)@ == old(out)@ + server_base(host@, port, level),
{
    match level {
        StealthLevel::Maximum => {
            out.append("https");
        },
        _ => {
            out.append("http");
        },
    }
    out.append("://");
    out.append(host);
    out.append(":");
    push_decimal(out, port as u64);
    out.append("/");
    assert(final(out)@ =~= old(out)@ + server_base(host@, port, level));
}

/// The address of a burst.
pub fn pick_target_url(host: Option<&str>, port: u16, level: StealthLevel, nonce: u64) -> (r: String)
    ensures
        r@ == target_url(
            match host {
                Some(h) => Some(h@),
                None => None,
            },
            port,
            level,
            nonce,
        ),
{
    match host {
        Some(h) => {
            let mut out = String::new();
            push_server_base(&mut out, h, port, level);
            out.append("download?nocache=");
            push_decimal(&mut out, nonce % 0x1_0000_0000);
            assert(out@ =~= target_url(Some(h@), port, level, nonce));
            out
        },
        None => String::from_str("https://speed.cloudflare.com/__down?bytes=262144"),
    }
}

/// The address of a server's front page, or of the fallback where no server is known.
pub fn pick_server(host: Option<&str>, port: u16, level: StealthLevel) -> (r: String)
    ensures
        r@ == (match host {
            Some(h) => server_base(h@, port, level),
            None => fallback_base(),
        }),
{
    match host {
        Some(h) => {
            let mut out = String::new();
            push_server_base(&mut out, h, port, level);
            assert(out@ =~= server_base(h@, port, level));
            out
        },
        None => String::from_str("https://speed.cloudflare.com/"),
    }
}

/// The range of a burst of `size_kb` kilobytes: from a start that
/// `entropy` picks among the first 2048 bytes.
pub open spec fn burst_range(size_kb: u32, entropy: u64) -> Seq<char> {
    range_header_text((entropy % RANGE_STARTS) as u64, (size_kb as u64 * 1024) as u64)
}

/// One burst of `size_kb` kilobytes: its range, and by chance, two times
/// in five, a probe before it with a short pause.
pub fn perform_burst(size_kb: u32, entropy: u64) -> (r: BurstRequest)
    ensures
        r.range@ == burst_range(size_kb, entropy),
        MIN_PROBE_PAUSE_MS <= r.pause_ms < PROBE_PAUSE_LIMIT_MS,
{
    BurstRequest {
        range: range_header(entropy % RANGE_STARTS, size_kb as u64 * 1024),
        head_first: chance(2, 5),
        pause_ms: random_in(MIN_PROBE_PAUSE_MS, PROBE_PAUSE_LIMIT_MS),
    }
}

/// The headers that a burst and a speed test go out with, as names and values.
pub fn build_headers() -> (r: Vec<(&'static str, &'static str)>)
    ensures
        r@.len() == 7,
        r@[0].0@ == "user-agent"@,
        r@[0].1@
            == "Mozilla/5.0 (Macintosh; Intel Mac OS X 14_4) AppleWebKit/605.1.15 (KHTML, like Gecko) Version/17.4 Safari/605.1.15"@,
        r@[1].0@ == "accept"@ && r@[1].1@ == "*/*"@,
        r@[2].0@ == "accept-language"@ && r@[2].1@ == "en-US,en;q=0.9"@,
        r@[3].0@ == "accept-encoding"@ && r@[3].1@ == "identity"@,
        r@[4].0@ == "cache-control"@ && r@[4].1@ == "no-cache"@,
        r@[5].0@ == "pragma"@ && r@[5].1@ == "no-cache"@,
        r@[6].0@ == "connection"@ && r@[6].1@ == "keep-alive"@,
{
    let mut out: Vec<(&'static str, &'static str)> = Vec::new();
    out.push(
        (
            "user-agent",
            "Mozilla/5.0 (Macintosh; Intel Mac OS X 14_4) AppleWebKit/605.1.15 (KHTML, like Gecko) Version/17.4 Safari/605.1.15",
        ),
    );
    out.push(("accept", "*/*"));
    out.push(("accept-language", "en-US,en;q=0.9"));
    out.push(("accept-encoding", "identity"));
    out.push(("cache-control", "no-cache"));
    out.push(("pragma", "no-cache"));
    out.push(("connection", "keep-alive"));
    out
}

} // verus!
