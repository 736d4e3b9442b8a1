//! The stealth engine's state and its cycle: which server is in turn, when
//! to rotate, what one round of mimicry consists of.
//!
//! The engine sends nothing itself. `begin_cycle` says what the caller is
//! to do, `complete_cycle` takes the outcome.

use crate::entropy::random_in;
use crate::fixed::{min_int, sum, SCALE};
use crate::mimicry::{
    dns_lookups, drawn_from, is_raw_request, is_speedtest_payload, request_headers_match,
    token_alphabet, DnsLookup, HeaderSet,
};
use crate::models::{SpeedtestServer, StealthLevel};
use crate::servers::{nearest, regional, ServerPool};
use crate::stealth::{
    bumped, create_dpi_bypass_config, create_traffic_pattern, draw_rotation_interval,
    rotation_in_range, spec_dpi_bypass_config, spec_traffic_pattern, AdaptiveStealthState,
    DPIBypassConfig, DetectionRisk, RiskReaction, StealthError, TrafficPattern, CLOSEST_SERVERS,
    CRITICAL_PAUSE_S, DEFAULT_ROTATION_S, FAILED_CYCLE_WAIT_S, HIGH_RISK_ROTATION_S,
    MEDIUM_RISK_ROTATION_S, ROUND_EFFECTIVENESS,
};
use crate::tables::NameTable;
use vstd::prelude::*;
use vstd::string::*;

verus! {

/// Which server is in turn, and when the turn passes on.
#[derive(Debug, Clone)]
pub struct RotationState {
    pub current_server_index: usize,
    /// In seconds on the monotonic clock.
    pub last_rotation: u64,
    /// In seconds.
    pub rotation_interval: u64,
    pub servers_in_rotation: Vec<SpeedtestServer>,
}

/// What has gone to one server.
#[derive(Debug, Clone, Copy, PartialEq, Eq, Structural)]
pub struct ConnectionRecord {
    pub packet_count: u64,
    pub bytes_sent: u64,
    /// In seconds on the monotonic clock.
    pub last_activity: u64,
}

/// The engine's account of its evasion.
#[derive(Debug, Clone, Copy, PartialEq, Eq, Structural)]
pub struct DPIBypassStats {
    pub detection_risk: DetectionRisk,
    pub consecutive_failures: u32,
    pub effectiveness_score: u64,
    pub adaptation_count: u32,
    pub packet_fragmentation_enabled: bool,
    pub header_obfuscation_enabled: bool,
    pub dscp_marking: u8,
    pub dns_pattern_replication_enabled: bool,
}

/// The engine's account of its traffic.
#[derive(Debug, Clone)]
pub struct StealthStats {
    pub active_connections: usize,
    pub total_packets_sent: u64,
    pub total_bytes_sent: u64,
    pub current_server: Option<String>,
    /// In seconds.
    pub next_rotation_in: u64,
    pub stealth_level: StealthLevel,
    pub dpi_bypass_stats: DPIBypassStats,
}

/// How one round of mimicry is sent.
#[derive(Debug, Clone, Copy, PartialEq, Eq, Structural)]
pub enum MimicryMode {
    /// Over a raw connection, with a hand-built request.
    Raw,
    /// Through the pooled client: a latency probe, a small upload, a keep-alive.
    Pooled,
}

/// What the caller does in one cycle.
#[derive(Debug, Clone)]
pub struct CyclePlan {
    /// The server to send to; none where no server is in rotation, and
    /// then the cycle is over.
    pub target: Option<SpeedtestServer>,
    pub mode: MimicryMode,
    /// Seconds to pause before sending.
    pub pause_s: u64,
    /// The lookups to simulate before sending, in this order.
    pub lookups: Vec<DnsLookup>,
}

/// The stealth engine.
#[derive(Debug, Clone)]
pub struct StealthEngine {
    pub rotation_state: RotationState,
    pub active_connections: NameTable<ConnectionRecord>,
    pub stealth_level: StealthLevel,
    pub traffic_pattern: TrafficPattern,
    pub dpi_bypass_config: DPIBypassConfig,
    pub adaptive_state: AdaptiveStealthState,
    pub is_active: bool,
}

/// A number raised by another, or as high as 64 bits go.
pub open spec fn capped_sum(a: int, b: int) -> u64 {
    if a + b > u64::MAX {
        u64::MAX
    } else {
        (a + b) as u64
    }
}

fn add_capped(a: u64, b: u64) -> (r: u64)
    ensures
        r == capped_sum(a as int, b as int),
{
    if a > u64::MAX - b {
        u64::MAX
    } else {
        a + b
    }
}

/// The packet counts of a list of records.
pub open spec fn packet_counts(records: Seq<ConnectionRecord>) -> Seq<u64> {
    Seq::new(records.len(), |i: int| records[i].packet_count)
}

/// The byte counts of a list of records.
pub open spec fn byte_counts(records: Seq<ConnectionRecord>) -> Seq<u64> {
    Seq::new(records.len(), |i: int| records[i].bytes_sent)
}

/// The regional servers of a pool: those of Sri Lanka, then those of
/// Singapore, then those of India.
pub open spec fn regional_servers(servers: Seq<SpeedtestServer>) -> Seq<SpeedtestServer> {
    regional(servers, "Sri Lanka"@) + regional(servers, "Singapore"@) + regional(
        servers,
        "India"@,
    )
}

/// The servers to rotate among: the regional servers, or where there are
/// none the five nearest.
pub open spec fn suitable_servers(servers: Seq<SpeedtestServer>) -> Seq<SpeedtestServer> {
    if regional_servers(servers).len() > 0 {
        regional_servers(servers)
    } else {
        nearest(servers, CLOSEST_SERVERS as int)
    }
}

/// The names whose records show no activity for `interval` seconds at `now_s`.
pub open spec fn idle_names(
    names: Seq<String>,
    records: Seq<ConnectionRecord>,
    now_s: u64,
    interval: u64,
) -> Seq<Seq<char>>
    decreases names.len(),
{
    if names.len() == 0 || records.len() != names.len() {
        Seq::empty()
    } else {
        let rest = idle_names(names.drop_last(), records.drop_last(), now_s, interval);
        if now_s - records.last().last_activity >= interval {
            rest.push(names.last()@)
        } else {
            rest
        }
    }
}

impl RotationState {
    /// The turn lies within the list, or the list is empty.
    pub open spec fn well_formed(&self) -> bool {
        self.servers_in_rotation@.len() == 0 || self.current_server_index
            < self.servers_in_rotation@.len()
    }

    /// Whether the interval since the last rotation has run out at `now_s`.
    pub open spec fn spec_due(&self, now_s: u64) -> bool {
        now_s - self.last_rotation >= self.rotation_interval
    }
}

impl StealthEngine {
    /// The turn lies within the rotation, the table of connections is in
    /// order, the pattern and the evasion settings are those of the level,
    /// and the score is one whole at most.
    pub open spec fn well_formed(&self) -> bool {
        &&& self.rotation_state.well_formed()
        &&& self.active_connections.well_formed()
        &&& self.traffic_pattern == spec_traffic_pattern(self.stealth_level)
        &&& self.dpi_bypass_config == spec_dpi_bypass_config(self.stealth_level)
        &&& self.adaptive_state.well_formed()
    }

    /// All but the adaptive state and the rotation interval is as in `other`.
    pub open spec fn same_posture(&self, other: &Self) -> bool {
        &&& self.stealth_level == other.stealth_level
        &&& self.traffic_pattern == other.traffic_pattern
        &&& self.dpi_bypass_config == other.dpi_bypass_config
        &&& self.is_active == other.is_active
        &&& self.active_connections == other.active_connections
        &&& self.rotation_state.servers_in_rotation == other.rotation_state.servers_in_rotation
        &&& self.rotation_state.current_server_index == other.rotation_state.current_server_index
        &&& self.rotation_state.last_rotation == other.rotation_state.last_rotation
    }

    /// An engine at rest, with the posture of `level`.
    pub fn new(level: StealthLevel, now_s: u64) -> (r: Self)
        ensures
            r.well_formed(),
            !r.is_active,
            r.stealth_level == level,
            r.adaptive_state == AdaptiveStealthState::spec_new(now_s),
            r.rotation_state.servers_in_rotation@.len() == 0,
            r.rotation_state.current_server_index == 0,
            r.rotation_state.last_rotation == now_s,
            r.rotation_state.rotation_interval == DEFAULT_ROTATION_S,
            r.active_connections.spec_len() == 0,
    {
        StealthEngine {
            rotation_state: RotationState {
                current_server_index: 0,
                last_rotation: now_s,
                rotation_interval: DEFAULT_ROTATION_S,
                servers_in_rotation: Vec::new(),
            },
            active_connections: NameTable::new(),
            stealth_level: level,
            traffic_pattern: create_traffic_pattern(level),
            dpi_bypass_config: create_dpi_bypass_config(level),
            adaptive_state: AdaptiveStealthState::new(now_s),
            is_active: false,
        }
    }

    /// The servers to rotate among: the regional servers of the pool, or
    /// where there are none the five nearest; a failure where the pool is empty.
    pub fn select_suitable_servers(pool: &ServerPool) -> (r: Result<Vec<SpeedtestServer>, StealthError>)
        ensures
            match r {
                Ok(servers) => pool.servers@.len() > 0 && servers@ == suitable_servers(
                    pool.servers@,
                ) && servers@.len() > 0,
                Err(e) => e == StealthError::NoSuitableEndpoints && pool.servers@.len() == 0,
            },
    {
        let mut servers = pool.get_regional_servers("Sri Lanka");
        let mut singapore = pool.get_regional_servers("Singapore");
        let mut india = pool.get_regional_servers("India");
        servers.append(&mut singapore);
        servers.append(&mut india);
        if servers.len() > 0 {
            return Ok(servers);
        }
        let closest = pool.get_closest_servers(CLOSEST_SERVERS);
        if closest.len() == 0 {
            return Err(StealthError::NoSuitableEndpoints);
        }
        Ok(closest)
    }

    /// `after` and `r` are what starting this engine on the servers of
    /// `pool` gives: an engine that runs stays as it is; an engine at rest
    /// takes the suitable servers and a rotation interval of its level, or
    /// fails and stays as it is where the pool is empty.
    pub open spec fn spec_started(
        &self,
        after: &Self,
        pool: Seq<SpeedtestServer>,
        r: Result<(), StealthError>,
    ) -> bool {
        &&& after.well_formed()
        &&& after.stealth_level == self.stealth_level
        &&& after.adaptive_state == self.adaptive_state
        &&& after.active_connections == self.active_connections
        &&& self.is_active ==> r is Ok && *after == *self
        &&& !self.is_active ==> match r {
            Ok(_) => {
                &&& after.is_active
                &&& pool.len() > 0
                &&& after.rotation_state.servers_in_rotation@.len() > 0
                &&& after.rotation_state.servers_in_rotation@ == suitable_servers(pool)
                &&& after.rotation_state.current_server_index == (
                if self.rotation_state.current_server_index < suitable_servers(pool).len() {
                    self.rotation_state.current_server_index
                } else {
                    0
                })
                &&& rotation_in_range(
                    after.stealth_level,
                    after.rotation_state.rotation_interval as int,
                )
                &&& after.rotation_state.last_rotation == self.rotation_state.last_rotation
            },
            Err(e) => e == StealthError::NoSuitableEndpoints && pool.len() == 0 && *after
                == *self,
        }
    }

    /// Starts the engine: picks the servers to rotate among and draws the
    /// first rotation interval. An engine that runs stays as it is.
    pub fn start(&mut self, pool: &ServerPool, now_s: u64) -> (r: Result<(), StealthError>)
        requires
            old(self).well_formed(),
        ensures
            old(self).spec_started(final(self), pool.servers@, r),
    {
        if self.is_active {
            return Ok(());
        }
        match StealthEngine::select_suitable_servers(pool) {
            Ok(servers) => {
                if self.rotation_state.current_server_index >= servers.len() {
                    self.rotation_state.current_server_index = 0;
                }
                self.rotation_state.servers_in_rotation = servers;
                self.rotation_state.rotation_interval = self.calculate_rotation_interval();
                self.is_active = true;
                Ok(())
            },
            Err(e) => Err(e),
        }
    }

    /// `after` is this engine stopped: at rest, without connections; an
    /// engine at rest stays as it is.
    pub open spec fn spec_stopped(&self, after: &Self) -> bool {
        &&& after.well_formed()
        &&& !after.is_active
        &&& !self.is_active ==> *after == *self
        &&& self.is_active ==> after.active_connections.spec_len() == 0
        &&& after.stealth_level == self.stealth_level
        &&& after.adaptive_state == self.adaptive_state
        &&& after.rotation_state == self.rotation_state
    }

    /// Stops the engine and forgets its connections. An engine at rest
    /// stays as it is.
    pub fn stop(&mut self)
        requires
            old(self).well_formed(),
        ensures
            old(self).spec_stopped(final(self)),
    {
        if !self.is_active {
            return;
        }
        self.active_connections = NameTable::new();
        self.is_active = false;
    }

    /// A rotation interval for the engine's level: the level's base
    /// interval, by chance up to a quarter shorter or longer.
    pub fn calculate_rotation_interval(&self) -> (r: u64)
        ensures
            rotation_in_range(self.stealth_level, r as int),
            r > 0,
    {
        draw_rotation_interval(self.stealth_level)
    }

    /// Whether the interval since the last rotation has run out at `now_s`.
    pub fn should_rotate_servers(&self, now_s: u64) -> (r: bool)
        ensures
            r == self.rotation_state.spec_due(now_s),
    {
        now_s >= self.rotation_state.last_rotation && now_s - self.rotation_state.last_rotation
            >= self.rotation_state.rotation_interval
    }

    /// The wait before the next cycle, in milliseconds: by chance between
    /// the bounds of the level's timing range.
    pub fn calculate_next_cycle_delay(&self) -> (r: u64)
        requires
            self.well_formed(),
        ensures
            self.traffic_pattern.timing_range.0 * 1000 <= r < self.traffic_pattern.timing_range.1
                * 1000,
    {
        let shortest = self.traffic_pattern.timing_range.0 * 1000;
        let longest = self.traffic_pattern.timing_range.1 * 1000;
        shortest + random_in(0, longest - shortest)
    }

    /// The wait after a cycle, in milliseconds: half a minute after a
    /// cycle that failed, else the drawn delay.
    pub fn wait_after_cycle(&self, cycle_ok: bool) -> (r: u64)
        requires
            self.well_formed(),
        ensures
            !cycle_ok ==> r == FAILED_CYCLE_WAIT_S * 1000,
            cycle_ok ==> self.traffic_pattern.timing_range.0 * 1000 <= r
                < self.traffic_pattern.timing_range.1 * 1000,
    {
        if cycle_ok {
            self.calculate_next_cycle_delay()
        } else {
            FAILED_CYCLE_WAIT_S * 1000
        }
    }

    /// Passes the turn to the next server, draws a new rotation interval
    /// and forgets the connection to the server that was in turn.
    pub fn rotate_servers(&mut self, now_s: u64)
        requires
            old(self).well_formed(),
        ensures
            final(self).well_formed(),
            final(self).stealth_level == old(self).stealth_level,
            final(self).adaptive_state == old(self).adaptive_state,
            final(self).is_active == old(self).is_active,
            final(self).rotation_state.servers_in_rotation == old(self).rotation_state.servers_in_rotation,
            old(self).rotation_state.servers_in_rotation@.len() == 0 ==> *final(self) == *old(self),
            old(self).rotation_state.servers_in_rotation@.len() > 0 ==> {
                let servers = old(self).rotation_state.servers_in_rotation@;
                let turn = old(self).rotation_state.current_server_index as int;
                &&& final(self).rotation_state.current_server_index == (turn + 1) % (
                servers.len() as int)
                &&& final(self).rotation_state.last_rotation == now_s
                &&& rotation_in_range(
                    final(self).stealth_level,
                    final(self).rotation_state.rotation_interval as int,
                )
                &&& final(self).active_connections.spec_get(servers[turn].server_id@) is None
                &&& forall|other: Seq<char>|
                    other != servers[turn].server_id@ ==> final(self).active_connections.spec_get(
                        other,
                    ) == old(self).active_connections.spec_get(other)
            },
    {
        let count = self.rotation_state.servers_in_rotation.len();
        if count == 0 {
            return;
        }
        let turn = self.rotation_state.current_server_index;
        let ghost len = count as int;
        self.rotation_state.current_server_index = if turn + 1 == count {
            assert((turn + 1) % len == 0) by (nonlinear_arith)
                requires
                    turn + 1 == len,
                    len > 0,
            ;
            0
        } else {
            assert((turn + 1) % len == turn + 1) by (nonlinear_arith)
                requires
                    0 <= turn + 1 < len,
            ;
            turn + 1
        };
        self.rotation_state.last_rotation = now_s;
        self.rotation_state.rotation_interval = self.calculate_rotation_interval();
        let server_id = self.rotation_state.servers_in_rotation[turn].server_id.clone();
        self.active_connections.remove(server_id.as_str());
    }

    /// Notes one more packet of `bytes_sent` bytes to the server at `now_s`.
    pub fn update_connection_stats(&mut self, server_id: &str, bytes_sent: u64, now_s: u64)
        requires
            old(self).well_formed(),
        ensures
            final(self).well_formed(),
            final(self).same_but_connections(old(self)),
            final(self).active_connections.spec_get(server_id@) == Some(
                match old(self).active_connections.spec_get(server_id@) {
                    Some(record) => ConnectionRecord {
                        packet_count: capped_sum(record.packet_count as int, 1),
                        bytes_sent: capped_sum(record.bytes_sent as int, bytes_sent as int),
                        last_activity: now_s,
                    },
                    None => ConnectionRecord { packet_count: 1, bytes_sent, last_activity: now_s },
                },
            ),
            forall|other: Seq<char>|
                other != server_id@ ==> final(self).active_connections.spec_get(other) == old(self).active_connections.spec_get(other),
    {
        let record = match self.active_connections.get(server_id) {
            Some(record) => ConnectionRecord {
                packet_count: add_capped(record.packet_count, 1),
                bytes_sent: add_capped(record.bytes_sent, bytes_sent),
                last_activity: now_s,
            },
            None => ConnectionRecord { packet_count: 1, bytes_sent, last_activity: now_s },
        };
        self.active_connections.insert(String::from_str(server_id), record);
    }

    /// All but the connections is as in `other`.
    pub open spec fn same_but_connections(&self, other: &Self) -> bool {
        &&& self.stealth_level == other.stealth_level
        &&& self.traffic_pattern == other.traffic_pattern
        &&& self.dpi_bypass_config == other.dpi_bypass_config
        &&& self.is_active == other.is_active
        &&& self.adaptive_state == other.adaptive_state
        &&& self.rotation_state == other.rotation_state
    }

    /// The servers whose connections have shown no activity for the
    /// level's keep-alive interval at `now_s`, and are due a keep-alive.
    pub fn keep_alive_due(&self, now_s: u64) -> (r: Vec<String>)
        requires
            self.well_formed(),
        ensures
            r@.len() == idle_names(
                self.active_connections.names@,
                self.active_connections.values@,
                now_s,
                self.traffic_pattern.keep_alive_interval,
            ).len(),
            forall|i: int|
                0 <= i < r@.len() ==> (#[trigger] r@[i])@ == idle_names(
                    self.active_connections.names@,
                    self.active_connections.values@,
                    now_s,
                    self.traffic_pattern.keep_alive_interval,
                )[i],
    {
        let names = &self.active_connections.names;
        let records = &self.active_connections.values;
        let interval = self.traffic_pattern.keep_alive_interval;
        let mut out: Vec<String> = Vec::new();
        let mut i: usize = 0;
        while i < names.len()
            invariant
                i <= names@.len(),
                names@.len() == records@.len(),
                out@.len() == idle_names(
                    names@.take(i as int),
                    records@.take(i as int),
                    now_s,
                    interval,
                ).len(),
                forall|k: int|
                    0 <= k < out@.len() ==> (#[trigger] out@[k])@ == idle_names(
                        names@.take(i as int),
                        records@.take(i as int),
                        now_s,
                        interval,
                    )[k],
            decreases names@.len() - i,
        {
            assert(names@.take(i + 1).drop_last() =~= names@.take(i as int));
            assert(records@.take(i + 1).drop_last() =~= records@.take(i as int));
            let last = records[i].last_activity;
            if now_s >= last && now_s - last >= interval {
                out.push(names[i].clone());
            }
            i = i + 1;
        }
        assert(names@.take(names@.len() as int) =~= names@);
        assert(records@.take(records@.len() as int) =~= records@);
        out
    }

    /// The engine's account of its evasion: the risk as last judged, the
    /// run of failures, the score and the adaptations, and which settings
    /// of evasion are on.
    pub open spec fn spec_dpi_bypass_stats(&self) -> DPIBypassStats {
        DPIBypassStats {
            detection_risk: self.adaptive_state.current_risk_level,
            consecutive_failures: self.adaptive_state.consecutive_failures,
            effectiveness_score: self.adaptive_state.effectiveness_score,
            adaptation_count: self.adaptive_state.adaptation_count,
            packet_fragmentation_enabled: self.dpi_bypass_config.packet_fragmentation,
            header_obfuscation_enabled: self.dpi_bypass_config.header_obfuscation,
            dscp_marking: self.dpi_bypass_config.dscp_marking,
            dns_pattern_replication_enabled: self.dpi_bypass_config.dns_pattern_replication,
        }
    }

    /// The engine's account of its evasion.
    pub fn get_dpi_bypass_stats(&self) -> (r: DPIBypassStats)
        ensures
            r == self.spec_dpi_bypass_stats(),
    {
        DPIBypassStats {
            detection_risk: self.adaptive_state.current_risk_level,
            consecutive_failures: self.adaptive_state.consecutive_failures,
            effectiveness_score: self.adaptive_state.effectiveness_score,
            adaptation_count: self.adaptive_state.adaptation_count,
            packet_fragmentation_enabled: self.dpi_bypass_config.packet_fragmentation,
            header_obfuscation_enabled: self.dpi_bypass_config.header_obfuscation,
            dscp_marking: self.dpi_bypass_config.dscp_marking,
            dns_pattern_replication_enabled: self.dpi_bypass_config.dns_pattern_replication,
        }
    }

    /// The engine's account of its traffic at `now_s`.
    pub fn get_stealth_stats(&self, now_s: u64) -> (r: StealthStats)
        requires
            self.well_formed(),
        ensures
            r.active_connections == self.active_connections.spec_len(),
            r.total_packets_sent == min_int(
                sum(packet_counts(self.active_connections.values@)),
                u64::MAX as int,
            ),
            r.total_bytes_sent == min_int(
                sum(byte_counts(self.active_connections.values@)),
                u64::MAX as int,
            ),
            match r.current_server {
                Some(name) => self.rotation_state.servers_in_rotation@.len() > 0 && name@
                    == self.rotation_state.servers_in_rotation@[self.rotation_state.current_server_index as int].name@,
                None => self.rotation_state.servers_in_rotation@.len() == 0,
            },
            r.next_rotation_in == (if now_s - self.rotation_state.last_rotation
                >= self.rotation_state.rotation_interval {
                0
            } else if now_s < self.rotation_state.last_rotation {
                self.rotation_state.rotation_interval as int
            } else {
                self.rotation_state.rotation_interval - (now_s - self.rotation_state.last_rotation)
            }),
            r.stealth_level == self.stealth_level,
            r.dpi_bypass_stats == self.spec_dpi_bypass_stats(),
    {
        let records = &self.active_connections.values;
        let mut packets: Vec<u64> = Vec::new();
        let mut bytes: Vec<u64> = Vec::new();
        let mut i: usize = 0;
        while i < records.len()
            invariant
                i <= records@.len(),
                packets@ == packet_counts(records@.take(i as int)),
                bytes@ == byte_counts(records@.take(i as int)),
            decreases records@.len() - i,
        {
            packets.push(records[i].packet_count);
            bytes.push(records[i].bytes_sent);
            assert(packets@ =~= packet_counts(records@.take(i + 1)));
            assert(bytes@ =~= byte_counts(records@.take(i + 1)));
            i = i + 1;
        }
        assert(records@.take(records@.len() as int) =~= records@);
        let total_packets = crate::fixed::sum_of(&packets);
        let total_bytes = crate::fixed::sum_of(&bytes);
        let elapsed: u64 = if now_s >= self.rotation_state.last_rotation {
            now_s - self.rotation_state.last_rotation
        } else {
            0
        };
        StealthStats {
            active_connections: self.active_connections.len(),
            total_packets_sent: if total_packets > u64::MAX as u128 {
                u64::MAX
            } else {
                total_packets as u64
            },
            total_bytes_sent: if total_bytes > u64::MAX as u128 {
                u64::MAX
            } else {
                total_bytes as u64
            },
            current_server: if self.rotation_state.servers_in_rotation.len() > 0 {
                Some(
                    self.rotation_state.servers_in_rotation[self.rotation_state.current_server_index].name.clone(),
                )
            } else {
                None
            },
            next_rotation_in: if elapsed >= self.rotation_state.rotation_interval {
                0
            } else {
                self.rotation_state.rotation_interval - elapsed
            },
            stealth_level: self.stealth_level,
            dpi_bypass_stats: self.get_dpi_bypass_stats(),
        }
    }

    /// Takes the posture of `level` and draws a rotation interval for it.
    pub fn update_stealth_level(&mut self, level: StealthLevel)
        requires
            old(self).well_formed(),
        ensures
            final(self).well_formed(),
            final(self).stealth_level == level,
            rotation_in_range(level, final(self).rotation_state.rotation_interval as int),
            final(self).adaptive_state == old(self).adaptive_state,
            final(self).active_connections == old(self).active_connections,
            final(self).is_active == old(self).is_active,
            final(self).rotation_state.servers_in_rotation == old(self).rotation_state.servers_in_rotation,
            final(self).rotation_state.current_server_index == old(self).rotation_state.current_server_index,
            final(self).rotation_state.last_rotation == old(self).rotation_state.last_rotation,
    {
        self.stealth_level = level;
        self.traffic_pattern = create_traffic_pattern(level);
        self.dpi_bypass_config = create_dpi_bypass_config(level);
        self.rotation_state.rotation_interval = self.calculate_rotation_interval();
    }

    /// The risk of detection as things stand: the worse of what the run of
    /// failures and the effectiveness score stand for.
    pub fn assess_detection_risk(&self) -> (r: DetectionRisk)
        ensures
            r == self.adaptive_state.spec_risk(),
    {
        self.adaptive_state.risk()
    }

    /// Judges the risk and answers to it: a medium or high risk forces the
    /// rotation interval down, a critical risk calls for a pause. Every
    /// call counts as one adaptation, whether or not the risk has changed.
    pub fn adapt_stealth_strategy(&mut self, now_s: u64) -> (r: RiskReaction)
        requires
            old(self).well_formed(),
        ensures
            final(self).well_formed(),
            final(self).same_posture(old(self)),
            r == RiskReaction::spec_to(old(self).adaptive_state.spec_risk()),
            final(self).adaptive_state == (AdaptiveStealthState {
                current_risk_level: old(self).adaptive_state.spec_risk(),
                adaptation_count: bumped(old(self).adaptive_state.adaptation_count),
                last_risk_assessment: now_s,
                ..old(self).adaptive_state
            }),
            final(self).rotation_state.rotation_interval == (match r {
                RiskReaction::ForceRotation { interval_s } => interval_s,
                _ => old(self).rotation_state.rotation_interval,
            }),
    {
        let risk = self.assess_detection_risk();
        let reaction = match risk {
            DetectionRisk::Low => RiskReaction::Carry,
            DetectionRisk::Medium => {
                self.rotation_state.rotation_interval = MEDIUM_RISK_ROTATION_S;
                RiskReaction::ForceRotation { interval_s: MEDIUM_RISK_ROTATION_S }
            },
            DetectionRisk::High => {
                self.rotation_state.rotation_interval = HIGH_RISK_ROTATION_S;
                RiskReaction::ForceRotation { interval_s: HIGH_RISK_ROTATION_S }
            },
            DetectionRisk::Critical => RiskReaction::Pause { secs: CRITICAL_PAUSE_S },
        };
        self.adaptive_state.current_risk_level = risk;
        if self.adaptive_state.adaptation_count < u32::MAX {
            self.adaptive_state.adaptation_count = self.adaptive_state.adaptation_count + 1;
        }
        self.adaptive_state.last_risk_assessment = now_s;
        reaction
    }

    /// Notes the outcome of one attempt; nothing else changes the adaptive state's score.
    pub fn record_connection_result(&mut self, success: bool, effectiveness: Option<u64>)
        requires
            old(self).well_formed(),
            effectiveness matches Some(observed) ==> observed <= SCALE,
        ensures
            final(self).well_formed(),
            final(self).adaptive_state == old(self).adaptive_state.spec_record(
                success,
                effectiveness,
            ),
            final(self).same_posture(old(self)),
            final(self).rotation_state == old(self).rotation_state,
    {
        self.adaptive_state.record(success, effectiveness);
    }

    /// The headers of a request of this engine: drawn from their pools
    /// where the level obfuscates headers, else the usual ones.
    pub fn create_obfuscated_headers(&self) -> (r: HeaderSet)
        ensures
            request_headers_match(r, self.dpi_bypass_config.header_obfuscation),
    {
        crate::mimicry::create_obfuscated_headers(self.dpi_bypass_config.header_obfuscation)
    }

    /// The request that a raw round of this engine sends to `server`.
    pub fn create_raw_http_request(&self, server: &SpeedtestServer) -> (r: String)
        ensures
            is_raw_request(
                r@,
                server.host@,
                server.port,
                self.dpi_bypass_config.header_obfuscation,
            ),
    {
        crate::mimicry::create_raw_http_request(
            server.host.as_str(),
            server.port,
            self.dpi_bypass_config.header_obfuscation,
        )
    }

    /// A payload like that of an upload test, for the wanted size.
    pub fn generate_speedtest_payload(&self, size: usize) -> (r: String)
        ensures
            is_speedtest_payload(r@, size as int),
    {
        crate::mimicry::generate_speedtest_payload(size)
    }

    /// A token of `length` random hexadecimal digits.
    pub fn generate_random_string(&self, length: usize) -> (r: String)
        ensures
            r@.len() == length,
            drawn_from(r@, token_alphabet()),
    {
        crate::mimicry::generate_random_string(length)
    }

    /// The lookups that this engine simulates before a round to `server`:
    /// four where the level replicates them, else none.
    pub fn replicate_dns_patterns(&self, server: &SpeedtestServer) -> (r: Vec<DnsLookup>)
        ensures
            crate::mimicry::lookups_match(
                r@,
                server.host@,
                self.dpi_bypass_config.dns_pattern_replication,
            ),
    {
        dns_lookups(server.host.as_str(), self.dpi_bypass_config.dns_pattern_replication)
    }

    /// Starts a cycle at `now_s`: rotates where the interval has run out,
    /// then, where a server is in turn, judges the risk, answers to it and
    /// says what round of mimicry to send. With no server in rotation
    /// nothing changes and the plan is empty.
    pub fn begin_cycle(&mut self, now_s: u64) -> (plan: CyclePlan)
        requires
            old(self).well_formed(),
        ensures
            final(self).well_formed(),
            final(self).stealth_level == old(self).stealth_level,
            final(self).is_active == old(self).is_active,
            final(self).rotation_state.servers_in_rotation == old(self).rotation_state.servers_in_rotation,
            match plan.target {
                Some(server) => {
                    let servers = old(self).rotation_state.servers_in_rotation@;
                    let turn = old(self).rotation_state.current_server_index as int;
                    &&& servers.len() > 0
                    &&& server == servers[final(self).rotation_state.current_server_index as int]
                    &&& final(self).rotation_state.current_server_index == (if old(self).rotation_state.spec_due(now_s) {
                        (turn + 1) % (servers.len() as int)
                    } else {
                        turn
                    })
                    &&& final(self).adaptive_state == (AdaptiveStealthState {
                        current_risk_level: old(self).adaptive_state.spec_risk(),
                        adaptation_count: bumped(old(self).adaptive_state.adaptation_count),
                        last_risk_assessment: now_s,
                        ..old(self).adaptive_state
                    })
                    &&& final(self).rotation_state.last_rotation == (if old(self).rotation_state.spec_due(now_s) {
                        now_s
                    } else {
                        old(self).rotation_state.last_rotation
                    })
                    &&& match RiskReaction::spec_to(old(self).adaptive_state.spec_risk()) {
                        RiskReaction::ForceRotation { interval_s } => final(self).rotation_state.rotation_interval == interval_s,
                        _ => if old(self).rotation_state.spec_due(now_s) {
                            rotation_in_range(
                                old(self).stealth_level,
                                final(self).rotation_state.rotation_interval as int,
                            )
                        } else {
                            final(self).rotation_state.rotation_interval == old(self).rotation_state.rotation_interval
                        },
                    }
                    &&& forall|name: Seq<char>|
                        #![trigger final(self).active_connections.spec_get(name)]
                        final(self).active_connections.spec_get(name) == (if old(self).rotation_state.spec_due(now_s)
                            && name == servers[turn].server_id@ {
                            None
                        } else {
                            old(self).active_connections.spec_get(name)
                        })
                    &&& plan.pause_s == (if old(self).adaptive_state.spec_risk()
                        == DetectionRisk::Critical {
                        CRITICAL_PAUSE_S
                    } else {
                        0
                    })
                    &&& plan.mode == (if old(self).stealth_level == StealthLevel::Maximum {
                        MimicryMode::Raw
                    } else {
                        MimicryMode::Pooled
                    })
                    &&& crate::mimicry::lookups_match(
                        plan.lookups@,
                        server.host@,
                        old(self).dpi_bypass_config.dns_pattern_replication,
                    )
                },
                None => {
                    &&& old(self).rotation_state.servers_in_rotation@.len() == 0
                    &&& *final(self) == *old(self)
                    &&& plan.lookups@.len() == 0
                    &&& plan.pause_s == 0
                },
            },
    {
        if self.should_rotate_servers(now_s) {
            self.rotate_servers(now_s);
        }
        if self.rotation_state.servers_in_rotation.len() == 0 {
            return CyclePlan {
                target: None,
                mode: MimicryMode::Pooled,
                pause_s: 0,
                lookups: Vec::new(),
            };
        }
        let server =
            self.rotation_state.servers_in_rotation[self.rotation_state.current_server_index].duplicate();
        let reaction = self.adapt_stealth_strategy(now_s);
        let pause_s = match reaction {
            RiskReaction::Pause { secs } => secs,
            _ => 0,
        };
        let lookups = dns_lookups(
            server.host.as_str(),
            self.dpi_bypass_config.dns_pattern_replication,
        );
        CyclePlan {
            target: Some(server),
            mode: match self.stealth_level {
                StealthLevel::Maximum => MimicryMode::Raw,
                _ => MimicryMode::Pooled,
            },
            pause_s,
            lookups,
        }
    }

    /// Ends a cycle in which a round was sent: a round that went through
    /// is credited with the round effectiveness, a round that failed is
    /// noted as a failure.
    pub fn complete_cycle(&mut self, success: bool)
        requires
            old(self).well_formed(),
        ensures
            final(self).well_formed(),
            final(self).adaptive_state == old(self).adaptive_state.spec_record(
                success,
                if success {
                    Some(ROUND_EFFECTIVENESS)
                } else {
                    None
                },
            ),
            final(self).same_posture(old(self)),
            final(self).rotation_state == old(self).rotation_state,
    {
        if success {
            self.record_connection_result(true, Some(ROUND_EFFECTIVENESS));
        } else {
            self.record_connection_result(false, None);
        }
    }
}

} // verus!
