//! The pool of endpoints: which servers there are, which is next, which are
//! near.

use crate::fixed::min_int;
use crate::models::SpeedtestServer;
use crate::order::{arranged, ranked, stable_order};
use crate::text::{
    contains, eq_ignore_ascii_case, has_substring, lowercased, same_ignoring_ascii_case,
    to_lowercase,
};
use vstd::prelude::*;
use vstd::string::*;

verus! {

/// The number of failed checks after which a connection is made anew.
pub const RECONNECT_AFTER_FAILURES: u32 = 3;

/// The age of the last activity beyond which a connection is checked, in seconds.
pub const HEALTH_CHECK_AFTER_S: u64 = 60;

/// The distance at which nearness stops to count, in metres.
pub const FAR_AWAY_M: u32 = 1_000_000;

/// The health of the connection to one server.
#[derive(Debug, Clone)]
pub struct ConnectionHealth {
    pub server_id: String,
    pub is_connected: bool,
    /// The instant of the last check, in seconds on the monotonic clock.
    pub last_ping: Option<u64>,
    pub consecutive_failures: u32,
    /// In microseconds.
    pub average_latency_us: Option<u64>,
    pub connection_established_at: Option<u64>,
}

/// What a health check of a connection calls for.
#[derive(Debug, Clone, Copy, PartialEq, Eq, Structural)]
pub enum HealthAction {
    /// The connection is in order.
    Keep,
    /// The connection failed a check, but not yet often enough.
    Wait,
    /// The connection is to be dropped and made anew.
    Reconnect,
}

impl ConnectionHealth {
    /// The health of a connection that was made at `now_s` with the latency measured.
    pub fn established(server_id: String, now_s: u64, latency_us: u64) -> (r: Self)
        ensures
            r.server_id == server_id,
            r.is_connected,
            r.last_ping == Some(now_s),
            r.consecutive_failures == 0,
            r.average_latency_us == Some(latency_us),
            r.connection_established_at == Some(now_s),
    {
        ConnectionHealth {
            server_id,
            is_connected: true,
            last_ping: Some(now_s),
            consecutive_failures: 0,
            average_latency_us: Some(latency_us),
            connection_established_at: Some(now_s),
        }
    }

    /// Whether a connection whose last activity was at `last_activity_s` is due for a check.
    pub fn check_due(last_activity_s: u64, now_s: u64) -> (r: bool)
        ensures
            r == (now_s - last_activity_s > HEALTH_CHECK_AFTER_S),
    {
        now_s > last_activity_s && now_s - last_activity_s > HEALTH_CHECK_AFTER_S
    }

    /// Notes the outcome of a check at `now_s`: the latency where the
    /// server answered, or none. Returns what the outcome calls for.
    pub fn record_ping(&mut self, latency_us: Option<u64>, now_s: u64) -> (action: HealthAction)
        ensures
            final(self).server_id == old(self).server_id,
            final(self).connection_established_at == old(self).connection_established_at,
            match latency_us {
                Some(latency) => {
                    &&& final(self).is_connected
                    &&& final(self).last_ping == Some(now_s)
                    &&& final(self).consecutive_failures == 0
                    &&& final(self).average_latency_us == Some(latency)
                    &&& action == HealthAction::Keep
                },
                None => {
                    &&& !final(self).is_connected
                    &&& final(self).last_ping == old(self).last_ping
                    &&& final(self).consecutive_failures == min_int(
                        old(self).consecutive_failures + 1,
                        u32::MAX as int,
                    )
                    &&& final(self).average_latency_us == old(self).average_latency_us
                    &&& action == (if final(self).consecutive_failures >= RECONNECT_AFTER_FAILURES {
                        HealthAction::Reconnect
                    } else {
                        HealthAction::Wait
                    })
                },
            },
    {
        match latency_us {
            Some(latency) => {
                self.is_connected = true;
                self.last_ping = Some(now_s);
                self.consecutive_failures = 0;
                self.average_latency_us = Some(latency);
                HealthAction::Keep
            },
            None => {
                if self.consecutive_failures < u32::MAX {
                    self.consecutive_failures = self.consecutive_failures + 1;
                }
                self.is_connected = false;
                if self.consecutive_failures >= RECONNECT_AFTER_FAILURES {
                    HealthAction::Reconnect
                } else {
                    HealthAction::Wait
                }
            },
        }
    }
}

/// Counts over the connections of a pool.
#[derive(Debug, Clone, Copy, PartialEq, Eq, Structural)]
pub struct ConnectionStats {
    pub total_connections: usize,
    pub healthy_connections: usize,
    /// Mean of the known latencies, in microseconds.
    pub average_latency_us: Option<u64>,
    pub servers_available: usize,
}

/// The number of connections of `list` that are up.
pub open spec fn healthy(list: Seq<ConnectionHealth>) -> nat
    decreases list.len(),
{
    if list.len() == 0 {
        0
    } else {
        healthy(list.drop_last()) + (if list.last().is_connected {
            1nat
        } else {
            0nat
        })
    }
}

/// The latencies of `list` that are known, in the list's order.
pub open spec fn known_latencies(list: Seq<ConnectionHealth>) -> Seq<u64>
    decreases list.len(),
{
    if list.len() == 0 {
        Seq::empty()
    } else {
        match list.last().average_latency_us {
            Some(latency) => known_latencies(list.drop_last()).push(latency),
            None => known_latencies(list.drop_last()),
        }
    }
}

/// Counts over the connections `list` of a pool of `servers_available` servers.
pub fn connection_stats(list: &Vec<ConnectionHealth>, servers_available: usize) -> (r: ConnectionStats)
    ensures
        r.total_connections == list@.len(),
        r.healthy_connections == healthy(list@),
        r.servers_available == servers_available,
        r.average_latency_us == (if known_latencies(list@).len() == 0 {
            None
        } else {
            Some(crate::fixed::mean(known_latencies(list@)) as u64)
        }),
{
    let mut up: usize = 0;
    let mut latencies: Vec<u64> = Vec::new();
    let mut i: usize = 0;
    while i < list.len()
        invariant
            i <= list.len(),
            up == healthy(list@.take(i as int)),
            up <= i,
            latencies@ == known_latencies(list@.take(i as int)),
        decreases list.len() - i,
    {
        assert(list@.take(i + 1).drop_last() =~= list@.take(i as int));
        if list[i].is_connected {
            up = up + 1;
        }
        if let Some(latency) = list[i].average_latency_us {
            latencies.push(latency);
        }
        i = i + 1;
    }
    assert(list@.take(list.len() as int) =~= list@);
    proof {
        assert(crate::fixed::all_at_most(latencies@, u64::MAX as int));
        crate::fixed::lemma_mean_bounds(latencies@, u64::MAX as int);
    }
    ConnectionStats {
        total_connections: list.len(),
        healthy_connections: up,
        average_latency_us: if latencies.len() == 0 {
            None
        } else {
            Some(crate::fixed::mean_of(&latencies))
        },
        servers_available,
    }
}

/// The servers of `servers` whose country reads `country`, case of ASCII
/// letters aside, in the order of `servers`.
pub open spec fn regional(servers: Seq<SpeedtestServer>, country: Seq<char>) -> Seq<SpeedtestServer>
    decreases servers.len(),
{
    if servers.len() == 0 {
        Seq::empty()
    } else {
        let rest = regional(servers.drop_last(), country);
        if same_ignoring_ascii_case(servers.last().country@, country) {
            rest.push(servers.last())
        } else {
            rest
        }
    }
}

/// The key by which servers are ordered by nearness: the distance, and for
/// a server of unknown distance a key beyond any distance.
pub open spec fn nearness_key(server: SpeedtestServer) -> u64 {
    match server.distance_m {
        Some(d) => d as u64,
        None => u64::MAX,
    }
}

/// The keys by which servers are ordered by nearness: the distance in
/// metres, or the highest number for a server of unknown distance.
pub open spec fn nearness_keys(servers: Seq<SpeedtestServer>) -> Seq<u64> {
    Seq::new(servers.len(), |i: int| nearness_key(servers[i]))
}

/// How much a server is preferred for its country, whose name is given in
/// lower case: most in Sri Lanka, then Singapore, India, and Malaysia or
/// Thailand; not at all elsewhere.
pub open spec fn spec_country_priority(country: Seq<char>) -> int {
    if has_substring(country, "sri lanka"@) {
        100
    } else if has_substring(country, "singapore"@) {
        80
    } else if has_substring(country, "india"@) {
        70
    } else if has_substring(country, "malaysia"@) || has_substring(country, "thailand"@) {
        60
    } else {
        0
    }
}

/// How much a server is preferred for its country, whose name is given in
/// lower case.
pub fn country_priority(country: &str) -> (r: u64)
    ensures
        r == spec_country_priority(country@),
        r <= 100,
{
    if contains(country, "sri lanka") {
        100
    } else if contains(country, "singapore") {
        80
    } else if contains(country, "india") {
        70
    } else if contains(country, "malaysia") || contains(country, "thailand") {
        60
    } else {
        0
    }
}

/// How much a server is preferred: by its country, its nearness and
/// whether it is active.
pub open spec fn spec_priority(server: SpeedtestServer) -> int {
    let by_country = spec_country_priority(lowercased(server.country@));
    let by_distance: int = match server.distance_m {
        Some(d) => (FAR_AWAY_M - min_int(d as int, FAR_AWAY_M as int)) / 10_000,
        None => 0,
    };
    let by_activity: int = if server.is_active {
        10
    } else {
        0
    };
    by_country + by_distance + by_activity
}

/// The priorities of the servers, in their order.
pub open spec fn priorities(servers: Seq<SpeedtestServer>) -> Seq<u64> {
    Seq::new(servers.len(), |i: int| spec_priority(servers[i]) as u64)
}

/// How much a server is preferred.
pub fn get_server_priority(server: &SpeedtestServer) -> (r: u64)
    ensures
        r == spec_priority(*server),
        r <= 210,
{
    let country = to_lowercase(server.country.as_str());
    let by_country = country_priority(country.as_str());
    let by_distance: u64 = match server.distance_m {
        Some(d) => {
            let near: u32 = if d < FAR_AWAY_M {
                d
            } else {
                FAR_AWAY_M
            };
            ((FAR_AWAY_M - near) / 10_000) as u64
        },
        None => 0,
    };
    let by_activity: u64 = if server.is_active {
        10
    } else {
        0
    };
    by_country + by_distance + by_activity
}

/// What the catalogue says of one server: its identifier, host, name,
/// country and sponsor.
pub struct CatalogueEntry {
    pub server_id: Seq<char>,
    pub host: Seq<char>,
    pub name: Seq<char>,
    pub country: Seq<char>,
    pub sponsor: Seq<char>,
}

/// The servers that stand in for the catalogue, in their order.
pub open spec fn fallback_catalogue() -> Seq<CatalogueEntry> {
    seq![
        CatalogueEntry {
            server_id: "21541"@,
            host: "speedtest.dialog.lk"@,
            name: "Dialog Axiata"@,
            country: "Sri Lanka"@,
            sponsor: "Dialog Axiata PLC"@,
        },
        CatalogueEntry {
            server_id: "24037"@,
            host: "speedtest-sin1.digitalocean.com"@,
            name: "Singapore"@,
            country: "Singapore"@,
            sponsor: "DigitalOcean"@,
        },
        CatalogueEntry {
            server_id: "13623"@,
            host: "speedtest.slt.lk"@,
            name: "Sri Lanka Telecom"@,
            country: "Sri Lanka"@,
            sponsor: "Sri Lanka Telecom PLC"@,
        },
        CatalogueEntry {
            server_id: "28910"@,
            host: "speedtest-blr1.digitalocean.com"@,
            name: "Bangalore"@,
            country: "India"@,
            sponsor: "DigitalOcean"@,
        },
        CatalogueEntry {
            server_id: "15322"@,
            host: "lg-sin.fdcservers.net"@,
            name: "Singapore"@,
            country: "Singapore"@,
            sponsor: "FDC Servers"@,
        },
    ]
}

/// The server is a new one made from the entry, on port 8080.
pub open spec fn is_fallback_server(server: SpeedtestServer, entry: CatalogueEntry) -> bool {
    &&& server.id is None
    &&& server.server_id@ == entry.server_id
    &&& server.host@ == entry.host
    &&& server.port == 8080
    &&& server.name@ == entry.name
    &&& server.country@ == entry.country
    &&& server.sponsor@ == entry.sponsor
    &&& server.distance_m is None
    &&& server.latency_us is None
    &&& server.is_active
    &&& server.last_used is None
}

/// The servers that stand in for the catalogue while it cannot be fetched.
pub fn load_fallback_servers() -> (r: Vec<SpeedtestServer>)
    ensures
        r@.len() == fallback_catalogue().len() == 5,
        forall|i: int|
            0 <= i < r@.len() ==> is_fallback_server(#[trigger] r@[i], fallback_catalogue()[i]),
{
    let mut servers: Vec<SpeedtestServer> = Vec::new();
    servers.push(
        SpeedtestServer::new(
            String::from_str("21541"),
            String::from_str("speedtest.dialog.lk"),
            8080,
            String::from_str("Dialog Axiata"),
            String::from_str("Sri Lanka"),
            String::from_str("Dialog Axiata PLC"),
        ),
    );
    servers.push(
        SpeedtestServer::new(
            String::from_str("24037"),
            String::from_str("speedtest-sin1.digitalocean.com"),
            8080,
            String::from_str("Singapore"),
            String::from_str("Singapore"),
            String::from_str("DigitalOcean"),
        ),
    );
    servers.push(
        SpeedtestServer::new(
            String::from_str("13623"),
            String::from_str("speedtest.slt.lk"),
            8080,
            String::from_str("Sri Lanka Telecom"),
            String::from_str("Sri Lanka"),
            String::from_str("Sri Lanka Telecom PLC"),
        ),
    );
    servers.push(
        SpeedtestServer::new(
            String::from_str("28910"),
            String::from_str("speedtest-blr1.digitalocean.com"),
            8080,
            String::from_str("Bangalore"),
            String::from_str("India"),
            String::from_str("DigitalOcean"),
        ),
    );
    servers.push(
        SpeedtestServer::new(
            String::from_str("15322"),
            String::from_str("lg-sin.fdcservers.net"),
            8080,
            String::from_str("Singapore"),
            String::from_str("Singapore"),
            String::from_str("FDC Servers"),
        ),
    );
    servers
}

/// The servers of `servers` as `order` lists them.
pub fn arrange(servers: &Vec<SpeedtestServer>, order: &Vec<usize>, limit: usize) -> (r: Vec<
    SpeedtestServer,
>)
    requires
        forall|i: int| 0 <= i < order@.len() ==> (#[trigger] order@[i]) < servers@.len(),
    ensures
        r@ == arranged(servers@, order@).take(min_int(limit as int, order@.len() as int)),
        r@.len() == min_int(limit as int, order@.len() as int),
{
    let mut out: Vec<SpeedtestServer> = Vec::new();
    let mut i: usize = 0;
    while i < order.len() && i < limit
        invariant
            i <= order.len(),
            i <= limit,
            forall|k: int| 0 <= k < order@.len() ==> (#[trigger] order@[k]) < servers@.len(),
            out@.len() == i,
            forall|k: int| 0 <= k < i ==> #[trigger] out@[k] == servers@[order@[k] as int],
        decreases order.len() - i,
    {
        out.push(servers[order[i]].duplicate());
        i = i + 1;
    }
    assert(out@ =~= arranged(servers@, order@).take(min_int(limit as int, order@.len() as int)));
    out
}

/// The `count` nearest servers, the nearest first; servers of unknown
/// distance last, and servers of equal distance in their order.
pub open spec fn nearest(servers: Seq<SpeedtestServer>, count: int) -> Seq<SpeedtestServer> {
    ranked(servers, nearness_keys(servers), false).take(min_int(count, servers.len() as int))
}

/// How many servers are tried to reach `target` connections among
/// `available` servers: twice the target, and no more than there are.
pub fn connection_attempts(target: usize, available: usize) -> (r: usize)
    ensures
        r == min_int(target * 2, available as int),
{
    if target > available / 2 {
        available
    } else if target * 2 <= available {
        target * 2
    } else {
        available
    }
}

/// Whether the attempts go on after `tried` servers with `connected` successes.
pub fn attempts_go_on(target: usize, available: usize, tried: usize, connected: usize) -> (r: bool)
    ensures
        r == (connected < target && tried < min_int(target * 2, available as int)),
{
    connected < target && tried < connection_attempts(target, available)
}

/// The pool of servers.
#[derive(Debug, Clone)]
pub struct ServerPool {
    pub servers: Vec<SpeedtestServer>,
    pub current_index: usize,
    /// Latitude and longitude, in millionths of a degree.
    pub user_location: Option<(i64, i64)>,
}

impl ServerPool {
    /// The place of the next server lies within the list, or the list is empty.
    pub open spec fn well_formed(&self) -> bool {
        self.servers@.len() == 0 || self.current_index < self.servers@.len()
    }

    /// A pool without servers.
    pub fn new() -> (r: Self)
        ensures
            r.well_formed(),
            r.servers@.len() == 0,
            r.current_index == 0,
            r.user_location is None,
    {
        ServerPool { servers: Vec::new(), current_index: 0, user_location: None }
    }

    /// The next server in turn; none where the pool is empty.
    pub fn next_server(&mut self) -> (r: Option<SpeedtestServer>)
        requires
            old(self).well_formed(),
        ensures
            final(self).well_formed(),
            final(self).servers == old(self).servers,
            final(self).user_location == old(self).user_location,
            match r {
                Some(server) => {
                    &&& old(self).servers@.len() > 0
                    &&& server == old(self).servers@[old(self).current_index as int]
                    &&& final(self).current_index == (old(self).current_index + 1) % (old(self).servers@.len() as int)
                },
                None => old(self).servers@.len() == 0 && final(self).current_index == old(self).current_index,
            },
    {
        if self.servers.len() == 0 {
            return None;
        }
        let server = self.servers[self.current_index].duplicate();
        let ghost len = self.servers@.len() as int;
        let ghost turn = self.current_index as int;
        self.current_index = if self.current_index + 1 == self.servers.len() {
            assert((turn + 1) % len == 0) by (nonlinear_arith)
                requires
                    turn + 1 == len,
                    len > 0,
            ;
            0
        } else {
            assert((turn + 1) % len == turn + 1) by (nonlinear_arith)
                requires
                    0 <= turn + 1 < len,
            ;
            self.current_index + 1
        };
        Some(server)
    }

    /// The servers whose country reads `country`, case of ASCII letters aside.
    pub fn get_regional_servers(&self, country: &str) -> (r: Vec<SpeedtestServer>)
        ensures
            r@ == regional(self.servers@, country@),
    {
        let mut out: Vec<SpeedtestServer> = Vec::new();
        let mut i: usize = 0;
        while i < self.servers.len()
            invariant
                i <= self.servers.len(),
                out@ == regional(self.servers@.take(i as int), country@),
            decreases self.servers.len() - i,
        {
            assert(self.servers@.take(i + 1).drop_last() =~= self.servers@.take(i as int));
            if eq_ignore_ascii_case(self.servers[i].country.as_str(), country) {
                out.push(self.servers[i].duplicate());
            }
            i = i + 1;
        }
        assert(self.servers@.take(self.servers.len() as int) =~= self.servers@);
        out
    }

    /// The `count` nearest servers, the nearest first; servers of unknown
    /// distance last, and servers of equal distance in the order of the pool.
    pub fn get_closest_servers(&self, count: usize) -> (r: Vec<SpeedtestServer>)
        ensures
            r@ == nearest(self.servers@, count as int),
            r@.len() == min_int(count as int, self.servers@.len() as int),
    {
        let mut keys: Vec<u64> = Vec::new();
        let mut i: usize = 0;
        while i < self.servers.len()
            invariant
                i <= self.servers.len(),
                keys@ == nearness_keys(self.servers@.take(i as int)),
            decreases self.servers.len() - i,
        {
            let key: u64 = match self.servers[i].distance_m {
                Some(d) => d as u64,
                None => u64::MAX,
            };
            keys.push(key);
            assert(keys@ =~= nearness_keys(self.servers@.take(i + 1)));
            i = i + 1;
        }
        assert(self.servers@.take(self.servers.len() as int) =~= self.servers@);
        let order = stable_order(&keys, false);
        arrange(&self.servers, &order, count)
    }

    /// Orders the servers by falling priority; servers of equal priority keep their order.
    pub fn prioritize(&mut self)
        ensures
            final(self).user_location == old(self).user_location,
            final(self).current_index == old(self).current_index,
            final(self).servers@ == ranked(
                old(self).servers@,
                priorities(old(self).servers@),
                true,
            ),
    {
        let mut keys: Vec<u64> = Vec::new();
        let mut i: usize = 0;
        while i < self.servers.len()
            invariant
                i <= self.servers.len(),
                keys@ == priorities(self.servers@.take(i as int)),
            decreases self.servers.len() - i,
        {
            keys.push(get_server_priority(&self.servers[i]));
            assert(keys@ =~= priorities(self.servers@.take(i + 1)));
            i = i + 1;
        }
        assert(self.servers@.take(self.servers.len() as int) =~= self.servers@);
        let order = stable_order(&keys, true);
        let sorted = arrange(&self.servers, &order, self.servers.len());
        assert(sorted@ =~= arranged(self.servers@, order@));
        self.servers = sorted;
    }

    /// Sets where the user is, in millionths of a degree.
    pub fn set_user_location(&mut self, latitude: i64, longitude: i64)
        ensures
            final(self).user_location == Some((latitude, longitude)),
            final(self).servers == old(self).servers,
            final(self).current_index == old(self).current_index,
    {
        self.user_location = Some((latitude, longitude));
    }

    /// The number of servers.
    pub fn servers_count(&self) -> (r: usize)
        ensures
            r == self.servers@.len(),
    {
        self.servers.len()
    }

    /// Replaces the servers; the turn starts over.
    pub fn set_servers(&mut self, servers: Vec<SpeedtestServer>)
        ensures
            final(self).servers == servers,
            final(self).current_index == 0,
            final(self).user_location == old(self).user_location,
            final(self).well_formed(),
    {
        self.servers = servers;
        self.current_index = 0;
    }
}

} // verus!
