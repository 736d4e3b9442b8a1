//! What a round of mimicry is made of: headers, payloads, the hand-built
//! request, the fragments it is cut into and the lookups that precede it.

use crate::entropy::{random_in, random_index};
use crate::models::StealthLevel;
use crate::stealth::{
    create_traffic_pattern, range_get_size, spec_range_get_size, spec_traffic_pattern,
};
use crate::text::{decimal, push_char_of, push_decimal};
use vstd::prelude::*;
use vstd::string::*;

verus! {

/// The shortest fragment, in bytes.
pub const MIN_FRAGMENT: u64 = 64;

/// One more than the longest fragment, in bytes.
pub const FRAGMENT_LIMIT: u64 = 256;

/// The shortest wait before a simulated lookup, in milliseconds.
pub const MIN_LOOKUP_DELAY_MS: u64 = 10;

/// One more than the longest wait before a simulated lookup, in milliseconds.
pub const LOOKUP_DELAY_LIMIT_MS: u64 = 50;

/// The number of lookups that precede a round.
pub const LOOKUPS_PER_ROUND: usize = 4;

/// One simulated lookup.
#[derive(Debug, Clone)]
pub struct DnsLookup {
    pub name: String,
    /// The wait before the lookup, in milliseconds.
    pub delay_ms: u64,
}

/// Whether `lookups` are the lookups that precede a round to `host`: the
/// host, the two fixed names and one numbered name, in this order, each
/// after a wait within the bounds; or none where replication is off.
pub open spec fn lookups_match(lookups: Seq<DnsLookup>, host: Seq<char>, enabled: bool) -> bool {
    if !enabled {
        lookups.len() == 0
    } else {
        &&& lookups.len() == LOOKUPS_PER_ROUND
        &&& lookups[0].name@ == host
        &&& lookups[1].name@ == "www.speedtest.net"@
        &&& lookups[2].name@ == "c.speedtest.net"@
        &&& exists|n: nat|
            1 <= n <= 9 && lookups[3].name@ == "ping-"@ + decimal(n) + ".speedtest.net"@
        &&& forall|i: int|
            0 <= i < lookups.len() ==> MIN_LOOKUP_DELAY_MS <= (#[trigger] lookups[i]).delay_ms
                < LOOKUP_DELAY_LIMIT_MS
    }
}

fn lookup(name: String) -> (r: DnsLookup)
    ensures
        r.name == name,
        MIN_LOOKUP_DELAY_MS <= r.delay_ms < LOOKUP_DELAY_LIMIT_MS,
{
    DnsLookup { name, delay_ms: random_in(MIN_LOOKUP_DELAY_MS, LOOKUP_DELAY_LIMIT_MS) }
}

/// The lookups to simulate before a round to `host`.
pub fn dns_lookups(host: &str, enabled: bool) -> (r: Vec<DnsLookup>)
    ensures
        lookups_match(r@, host@, enabled),
{
    let mut out: Vec<DnsLookup> = Vec::new();
    if !enabled {
        return out;
    }
    out.push(lookup(String::from_str(host)));
    out.push(lookup(String::from_str("www.speedtest.net")));
    out.push(lookup(String::from_str("c.speedtest.net")));
    let n = random_in(1, 10);
    let mut numbered = String::from_str("ping-");
    push_decimal(&mut numbered, n);
    numbered.append(".speedtest.net");
    out.push(lookup(numbered));
    assert(out@[3].name@ == "ping-"@ + decimal(n as nat) + ".speedtest.net"@);
    out
}

/// The headers of a request.
#[derive(Debug, Clone, Copy)]
pub struct HeaderSet {
    pub user_agent: &'static str,
    pub accept_encoding: &'static str,
    pub connection: &'static str,
    pub cache_control: &'static str,
    pub accept: &'static str,
    pub accept_language: &'static str,
}

/// The user agents that an obfuscated request may name.
pub open spec fn user_agent_pool() -> Seq<Seq<char>> {
    seq![
        "Mozilla/5.0 (Macintosh; Intel Mac OS X 10_15_7) AppleWebKit/537.36 (KHTML, like Gecko) Chrome/120.0.0.0 Safari/537.36"@,
        "Mozilla/5.0 (Windows NT 10.0; Win64; x64) AppleWebKit/537.36 (KHTML, like Gecko) Chrome/120.0.0.0 Safari/537.36"@,
        "Mozilla/5.0 (X11; Linux x86_64) AppleWebKit/537.36 (KHTML, like Gecko) Chrome/120.0.0.0 Safari/537.36"@,
        "Speedtest/4.6.0 (Macintosh; OS X 10.15.7) Java/1.8.0_311"@,
        "Speedtest/4.6.0 (Windows; Windows 10) Java/1.8.0_311"@,
    ]
}

/// The encodings that an obfuscated request may accept.
pub open spec fn encoding_pool() -> Seq<Seq<char>> {
    seq!["gzip, deflate, br"@, "gzip, deflate"@, "gzip"@]
}

/// What an obfuscated request may say of its connection.
pub open spec fn connection_pool() -> Seq<Seq<char>> {
    seq!["keep-alive"@, "close"@]
}

/// What an obfuscated request may say of caching.
pub open spec fn cache_pool() -> Seq<Seq<char>> {
    seq!["no-cache"@, "no-store"@, "max-age=0"@]
}

/// The headers that do not vary from request to request.
pub open spec fn common_headers_match(headers: HeaderSet) -> bool {
    &&& headers.accept@
        == "text/html,application/xhtml+xml,application/xml;q=0.9,image/avif,image/webp,image/apng,*/*;q=0.8"@
    &&& headers.accept_language@ == "en-US,en;q=0.9"@
}

/// The headers of a request that is not obfuscated.
pub open spec fn canonical_headers_match(headers: HeaderSet) -> bool {
    &&& headers.user_agent@ == user_agent_pool()[0]
    &&& headers.accept_encoding@ == encoding_pool()[0]
    &&& headers.connection@ == connection_pool()[0]
    &&& headers.cache_control@ == cache_pool()[0]
    &&& common_headers_match(headers)
}

/// The headers of the request that the picks choose from the pools.
pub open spec fn picked_headers_match(
    headers: HeaderSet,
    agent: int,
    encoding: int,
    connection: int,
    cache: int,
) -> bool {
    &&& headers.user_agent@ == user_agent_pool()[agent]
    &&& headers.accept_encoding@ == encoding_pool()[encoding]
    &&& headers.connection@ == connection_pool()[connection]
    &&& headers.cache_control@ == cache_pool()[cache]
    &&& common_headers_match(headers)
}

/// The user agent at place `pick` of the pool.
pub fn user_agent(pick: usize) -> (r: &'static str)
    requires
        pick < 5,
    ensures
        r@ == user_agent_pool()[pick as int],
{
    match pick {
        0 => "Mozilla/5.0 (Macintosh; Intel Mac OS X 10_15_7) AppleWebKit/537.36 (KHTML, like Gecko) Chrome/120.0.0.0 Safari/537.36",
        1 => "Mozilla/5.0 (Windows NT 10.0; Win64; x64) AppleWebKit/537.36 (KHTML, like Gecko) Chrome/120.0.0.0 Safari/537.36",
        2 => "Mozilla/5.0 (X11; Linux x86_64) AppleWebKit/537.36 (KHTML, like Gecko) Chrome/120.0.0.0 Safari/537.36",
        3 => "Speedtest/4.6.0 (Macintosh; OS X 10.15.7) Java/1.8.0_311",
        _ => "Speedtest/4.6.0 (Windows; Windows 10) Java/1.8.0_311",
    }
}

/// The headers that the picks choose from the pools.
pub fn pick_headers(agent: usize, encoding: usize, connection: usize, cache: usize) -> (r: HeaderSet)
    requires
        agent < 5,
        encoding < 3,
        connection < 2,
        cache < 3,
    ensures
        picked_headers_match(r, agent as int, encoding as int, connection as int, cache as int),
{
    HeaderSet {
        user_agent: user_agent(agent),
        accept_encoding: match encoding {
            0 => "gzip, deflate, br",
            1 => "gzip, deflate",
            _ => "gzip",
        },
        connection: match connection {
            0 => "keep-alive",
            _ => "close",
        },
        cache_control: match cache {
            0 => "no-cache",
            1 => "no-store",
            _ => "max-age=0",
        },
        accept: "text/html,application/xhtml+xml,application/xml;q=0.9,image/avif,image/webp,image/apng,*/*;q=0.8",
        accept_language: "en-US,en;q=0.9",
    }
}

/// The headers are those of a request: each varying header is one of its
/// pool, and without obfuscation the first of its pool.
pub open spec fn request_headers_match(headers: HeaderSet, obfuscate: bool) -> bool {
    &&& !obfuscate ==> canonical_headers_match(headers)
    &&& exists|agent: int, encoding: int, connection: int, cache: int|
        0 <= agent < 5 && 0 <= encoding < 3 && 0 <= connection < 2 && 0 <= cache < 3
            && #[trigger] picked_headers_match(headers, agent, encoding, connection, cache)
}

/// The headers of a request: with obfuscation each varying header is
/// drawn from its pool by a chance of its own, without it the first of each pool is used.
pub fn create_obfuscated_headers(obfuscate: bool) -> (r: HeaderSet)
    ensures
        request_headers_match(r, obfuscate),
{
    if obfuscate {
        let agent = random_index(5);
        let encoding = random_index(3);
        let connection = random_index(2);
        let cache = random_index(3);
        let headers = pick_headers(agent, encoding, connection, cache);
        assert(picked_headers_match(
            headers,
            agent as int,
            encoding as int,
            connection as int,
            cache as int,
        ));
        headers
    } else {
        let headers = pick_headers(0, 0, 0, 0);
        assert(picked_headers_match(headers, 0, 0, 0, 0));
        headers
    }
}

/// The characters that a payload is made of.
pub open spec fn payload_alphabet() -> Seq<char> {
    "0123456789ABCDEFGHIJKLMNOPQRSTUVWXYZabcdefghijklmnopqrstuvwxyz"@
}

/// The characters that a request token is made of.
pub open spec fn token_alphabet() -> Seq<char> {
    "0123456789abcdef"@
}

/// Every character of `s` is one of `alphabet`.
pub open spec fn drawn_from(s: Seq<char>, alphabet: Seq<char>) -> bool {
    forall|i: int| 0 <= i < s.len() ==> alphabet.contains(#[trigger] s[i])
}

/// Appends `count` characters, each drawn by chance from `alphabet`, to `out`.
pub fn push_random_chars(out: &mut String, alphabet: &str, count: usize)
    requires
        alphabet@.len() > 0,
    ensures
        final(out)@.len() == old(out)@.len() + count,
        final(out)@.subrange(0, old(out)@.len() as int) == old(out)@,
        drawn_from(final(out)@.subrange(old(out)@.len() as int, final(out)@.len() as int), alphabet@),
{
    let n = alphabet.unicode_len();
    let ghost head = out@;
    let mut i: usize = 0;
    while i < count
        invariant
            i <= count,
            n == alphabet@.len(),
            n > 0,
            out@.len() == head.len() + i,
            out@.subrange(0, head.len() as int) == head,
            drawn_from(out@.subrange(head.len() as int, out@.len() as int), alphabet@),
        decreases count - i,
    {
        let pick = random_index(n);
        let ghost c = alphabet@[pick as int];
        let ghost before = out@;
        push_char_of(out, alphabet, pick);
        proof {
            assert(out@.subrange(0, head.len() as int) =~= before.subrange(0, head.len() as int));
            let tail = out@.subrange(head.len() as int, out@.len() as int);
            let old_tail = before.subrange(head.len() as int, before.len() as int);
            assert forall|k: int| 0 <= k < tail.len() implies alphabet@.contains(
                #[trigger] tail[k],
            ) by {
                if k < old_tail.len() {
                    assert(tail[k] == old_tail[k]);
                } else {
                    assert(tail[k] == c);
                    assert(alphabet@[pick as int] == c);
                }
            }
        }
        i = i + 1;
    }
}

/// The number of random characters in a payload of the wanted size.
pub open spec fn payload_filler(size: int) -> int {
    if size >= 10 {
        size - 10
    } else {
        0
    }
}

/// `text` is a payload for the wanted size: the field name, then letters
/// and digits, ten fewer than the wanted size.
pub open spec fn is_speedtest_payload(text: Seq<char>, size: int) -> bool {
    &&& text.len() == 9 + payload_filler(size)
    &&& text.subrange(0, 9) == "content1="@
    &&& drawn_from(text.subrange(9, text.len() as int), payload_alphabet())
}

/// A payload like that of an upload test: the field name, then random
/// letters and digits, ten fewer than the wanted size.
pub fn generate_speedtest_payload(size: usize) -> (r: String)
    ensures
        is_speedtest_payload(r@, size as int),
{
    let mut out = String::from_str("content1=");
    proof {
        reveal_strlit("content1=");
        reveal_strlit("0123456789ABCDEFGHIJKLMNOPQRSTUVWXYZabcdefghijklmnopqrstuvwxyz");
    }
    let filler: usize = if size >= 10 {
        size - 10
    } else {
        0
    };
    push_random_chars(
        &mut out,
        "0123456789ABCDEFGHIJKLMNOPQRSTUVWXYZabcdefghijklmnopqrstuvwxyz",
        filler,
    );
    out
}

/// A token of `length` random hexadecimal digits.
pub fn generate_random_string(length: usize) -> (r: String)
    ensures
        r@.len() == length,
        drawn_from(r@, token_alphabet()),
{
    let mut out = String::new();
    proof {
        reveal_strlit("0123456789abcdef");
    }
    push_random_chars(&mut out, "0123456789abcdef", length);
    assert(out@.subrange(0, out@.len() as int) =~= out@);
    out
}

/// The text of a request for the latency file of `host`, with the token
/// and the headers given: the request line, the host, the five headers that
/// matter under their usual names, all six once more under lower-case names,
/// and an empty line.
pub open spec fn raw_request_text(host: Seq<char>, port: u16, token: Seq<char>, headers: HeaderSet) -> Seq<
    char,
> {
    "GET /speedtest/latency.txt?r="@ + token + " HTTP/1.1\r\n"@ + "Host: "@ + host + ":"@
        + decimal(port as nat) + "\r\n"@ + "User-Agent: "@ + headers.user_agent@ + "\r\n"@
        + "Accept-Encoding: "@ + headers.accept_encoding@ + "\r\n"@ + "Accept-Language: "@
        + headers.accept_language@ + "\r\n"@ + "Accept: "@ + headers.accept@ + "\r\n"@
        + "Connection: "@ + headers.connection@ + "\r\n"@ + "user-agent: "@ + headers.user_agent@
        + "\r\n"@ + "accept-encoding: "@ + headers.accept_encoding@ + "\r\n"@ + "connection: "@
        + headers.connection@ + "\r\n"@ + "cache-control: "@ + headers.cache_control@ + "\r\n"@
        + "accept: "@ + headers.accept@ + "\r\n"@ + "accept-language: "@ + headers.accept_language@
        + "\r\n"@ + "\r\n"@
}

/// The text of a request for the latency file of `host`.
pub fn raw_http_request(host: &str, port: u16, token: &str, headers: &HeaderSet) -> (r: String)
    ensures
        r@ == raw_request_text(host@, port, token@, *headers),
{
    let mut out = String::from_str("GET /speedtest/latency.txt?r=");
    out.append(token);
    out.append(" HTTP/1.1\r\n");
    out.append("Host: ");
    out.append(host);
    out.append(":");
    push_decimal(&mut out, port as u64);
    out.append("\r\n");
    out.append("User-Agent: ");
    out.append(headers.user_agent);
    out.append("\r\n");
    out.append("Accept-Encoding: ");
    out.append(headers.accept_encoding);
    out.append("\r\n");
    out.append("Accept-Language: ");
    out.append(headers.accept_language);
    out.append("\r\n");
    out.append("Accept: ");
    out.append(headers.accept);
    out.append("\r\n");
    out.append("Connection: ");
    out.append(headers.connection);
    out.append("\r\n");
    out.append("user-agent: ");
    out.append(headers.user_agent);
    out.append("\r\n");
    out.append("accept-encoding: ");
    out.append(headers.accept_encoding);
    out.append("\r\n");
    out.append("connection: ");
    out.append(headers.connection);
    out.append("\r\n");
    out.append("cache-control: ");
    out.append(headers.cache_control);
    out.append("\r\n");
    out.append("accept: ");
    out.append(headers.accept);
    out.append("\r\n");
    out.append("accept-language: ");
    out.append(headers.accept_language);
    out.append("\r\n");
    out.append("\r\n");
    assert(out@ =~= raw_request_text(host@, port, token@, *headers));
    out
}

/// `text` is a request for the latency file of `host` with a token of
/// eight hexadecimal digits and the headers of a request.
pub open spec fn is_raw_request(text: Seq<char>, host: Seq<char>, port: u16, obfuscate: bool) -> bool {
    exists|token: Seq<char>, headers: HeaderSet|
        token.len() == 8 && drawn_from(token, token_alphabet()) && request_headers_match(
            headers,
            obfuscate,
        ) && #[trigger] raw_request_text(host, port, token, headers) == text
}

/// The request that a raw round sends to `host`: a request text with a
/// fresh token of eight hexadecimal digits and fresh headers.
pub fn create_raw_http_request(host: &str, port: u16, obfuscate: bool) -> (r: String)
    ensures
        is_raw_request(r@, host@, port, obfuscate),
{
    let headers = create_obfuscated_headers(obfuscate);
    let token = generate_random_string(8);
    let out = raw_http_request(host, port, token.as_str(), &headers);
    assert(raw_request_text(host@, port, token@, headers) == out@);
    out
}

/// The value of a range header that asks for `size` bytes from `start` on.
pub open spec fn range_header_text(start: u64, size: u64) -> Seq<char> {
    "bytes="@ + decimal(start as nat) + "-"@ + decimal(spec_range_end(start, size) as nat)
}

/// The last byte of a range of `size` bytes from `start` on, and no
/// further than 64 bits count; a range of no bytes counts as one of one byte.
pub open spec fn spec_range_end(start: u64, size: u64) -> int {
    if size == 0 {
        start as int
    } else {
        crate::fixed::min_int(start + size - 1, u64::MAX as int)
    }
}

/// The value of a range header that asks for `size` bytes from `start` on.
pub fn range_header(start: u64, size: u64) -> (r: String)
    ensures
        r@ == range_header_text(start, size),
{
    let end = if size == 0 {
        start
    } else if start > u64::MAX - (size - 1) {
        u64::MAX
    } else {
        start + (size - 1)
    };
    let mut out = String::from_str("bytes=");
    push_decimal(&mut out, start);
    out.append("-");
    push_decimal(&mut out, end);
    out
}

/// The fragments cover the bytes without gap or overlap, and none is
/// longer than the fragment size.
pub open spec fn fragments_cover(fragments: Seq<(usize, usize)>, len: int, size: int) -> bool {
    &&& len == 0 ==> fragments.len() == 0
    &&& len > 0 ==> fragments.len() > 0 && fragments[0].0 == 0 && fragments.last().1 == len
    &&& forall|i: int|
        0 <= i < fragments.len() ==> (#[trigger] fragments[i]).0 < fragments[i].1
            && fragments[i].1 - fragments[i].0 <= size
    &&& forall|i: int|
        0 <= i < fragments.len() - 1 ==> (#[trigger] fragments[i]).1 == fragments[i + 1].0
            && fragments[i].1 - fragments[i].0 == size
}

/// The fragments that `len` bytes are cut into at `size` bytes each.
pub fn cut_fragments(len: usize, size: usize) -> (r: Vec<(usize, usize)>)
    requires
        size > 0,
    ensures
        fragments_cover(r@, len as int, size as int),
{
    let mut out: Vec<(usize, usize)> = Vec::new();
    let mut offset: usize = 0;
    while offset < len
        invariant
            offset <= len,
            size > 0,
            offset == 0 ==> out@.len() == 0,
            offset > 0 ==> out@.len() > 0 && out@[0].0 == 0 && out@.last().1 == offset,
            forall|i: int|
                0 <= i < out@.len() ==> (#[trigger] out@[i]).0 < out@[i].1 && out@[i].1
                    - out@[i].0 <= size,
            forall|i: int|
                0 <= i < out@.len() - 1 ==> (#[trigger] out@[i]).1 == out@[i + 1].0 && out@[i].1
                    - out@[i].0 == size,
            offset < len ==> forall|i: int|
                0 <= i < out@.len() ==> (#[trigger] out@[i]).1 - out@[i].0 == size,
        decreases len - offset,
    {
        let end = if len - offset <= size {
            len
        } else {
            offset + size
        };
        out.push((offset, end));
        offset = end;
    }
    out
}

/// How a request of `len` bytes is sent: whole where fragmentation is off,
/// else in fragments of a size drawn by chance within the bounds.
pub fn plan_fragments(len: usize, fragmentation: bool) -> (r: Vec<(usize, usize)>)
    ensures
        !fragmentation && len > 0 ==> r@ == seq![(0usize, len)],
        len == 0 ==> r@.len() == 0,
        fragmentation ==> exists|size: int|
            MIN_FRAGMENT <= size < FRAGMENT_LIMIT && #[trigger] fragments_cover(
                r@,
                len as int,
                size,
            ),
{
    if !fragmentation {
        let mut out: Vec<(usize, usize)> = Vec::new();
        if len > 0 {
            out.push((0, len));
        }
        assert(len > 0 ==> out@ =~= seq![(0usize, len)]);
        return out;
    }
    let size = random_in(MIN_FRAGMENT, FRAGMENT_LIMIT) as usize;
    let out = cut_fragments(len, size);
    assert(fragments_cover(out@, len as int, size as int));
    out
}

/// The wait between two fragments, in milliseconds: one to nine, by chance.
pub fn fragment_delay_ms() -> (r: u64)
    ensures
        1 <= r < 10,
{
    random_in(1, 10)
}

/// The waits around a connection attempt under timing obfuscation, in
/// milliseconds: before it, 50 to 199; after it, 100 to 499.
pub fn connect_delays_ms() -> (r: (u64, u64))
    ensures
        50 <= r.0 < 200,
        100 <= r.1 < 500,
{
    (random_in(50, 200), random_in(100, 500))
}

/// The wait after the latency probe of a pooled round, in milliseconds.
pub const PAUSE_AFTER_PROBE_MS: u64 = 500;

/// The wait after the upload of a pooled round, in milliseconds.
pub const PAUSE_AFTER_UPLOAD_MS: u64 = 300;

/// The number of range requests that end a pooled round.
pub const RANGE_STREAMS: usize = 2;

/// The first byte that a range request may start from and no more.
pub const RANGE_START_LIMIT: u64 = 8_192;

/// What a round through the pooled client sends, in this order: a
/// latency probe with a token, after a wait an upload of a payload, after
/// another wait a keep-alive, then the range requests side by side.
#[derive(Debug, Clone)]
pub struct PooledRound {
    pub probe_token: String,
    pub pause_after_probe_ms: u64,
    /// The wanted size of the payload, in bytes.
    pub payload_size: usize,
    pub payload: String,
    pub pause_after_upload_ms: u64,
    /// The values of the range headers, one for each request.
    pub ranges: Vec<String>,
}

/// `text` asks for `size` bytes from one of the first 8192 bytes on.
pub open spec fn is_round_range(text: Seq<char>, size: u64) -> bool {
    exists|start: u64| start < RANGE_START_LIMIT && #[trigger] range_header_text(start, size) == text
}

/// `round` is a pooled round of the level: a token of eight hexadecimal
/// digits; a payload for a size within the level's packet sizes; two range
/// requests of the level's size, each from one of the first 8192 bytes on.
pub open spec fn is_pooled_round(round: PooledRound, level: StealthLevel) -> bool {
    &&& round.probe_token@.len() == 8
    &&& drawn_from(round.probe_token@, token_alphabet())
    &&& round.pause_after_probe_ms == PAUSE_AFTER_PROBE_MS
    &&& spec_traffic_pattern(level).packet_size_range.0 <= round.payload_size
        <= spec_traffic_pattern(level).packet_size_range.1
    &&& is_speedtest_payload(round.payload@, round.payload_size as int)
    &&& round.pause_after_upload_ms == PAUSE_AFTER_UPLOAD_MS
    &&& round.ranges@.len() == RANGE_STREAMS
    &&& forall|i: int|
        0 <= i < round.ranges@.len() ==> is_round_range(
            (#[trigger] round.ranges@[i])@,
            spec_range_get_size(level) as u64,
        )
}

/// Plans one round through the pooled client at the given level.
pub fn pooled_round(level: StealthLevel) -> (r: PooledRound)
    ensures
        is_pooled_round(r, level),
{
    let pattern = create_traffic_pattern(level);
    let low = pattern.packet_size_range.0;
    let high = pattern.packet_size_range.1;
    let payload_size = low + random_index(high - low + 1);
    let size = range_get_size(level);
    let mut ranges: Vec<String> = Vec::new();
    let mut i: usize = 0;
    while i < RANGE_STREAMS
        invariant
            i <= RANGE_STREAMS,
            ranges@.len() == i,
            size == spec_range_get_size(level),
            forall|k: int| 0 <= k < ranges@.len() ==> is_round_range((#[trigger] ranges@[k])@, size),
        decreases RANGE_STREAMS - i,
    {
        let start = random_in(0, RANGE_START_LIMIT);
        let header = range_header(start, size);
        let ghost before = ranges@;
        ranges.push(header);
        proof {
            assert forall|k: int| 0 <= k < ranges@.len() implies is_round_range(
                (#[trigger] ranges@[k])@,
                size,
            ) by {
                if k < before.len() {
                    assert(ranges@[k] == before[k]);
                } else {
                    assert(range_header_text(start, size) == ranges@[k]@);
                }
            }
        }
        i = i + 1;
    }
    PooledRound {
        probe_token: generate_random_string(8),
        pause_after_probe_ms: PAUSE_AFTER_PROBE_MS,
        payload_size,
        payload: generate_speedtest_payload(payload_size),
        pause_after_upload_ms: PAUSE_AFTER_UPLOAD_MS,
        ranges,
    }
}

} // verus!
