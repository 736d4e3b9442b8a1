//! The schema of the store, as a list of numbered migrations.

use vstd::prelude::*;
use vstd::string::*;

verus! {

/// The number of migrations.
pub const MIGRATIONS: usize = 7;

/// One step of the schema.
#[derive(Debug, Clone)]
pub struct Migration {
    pub version: i32,
    pub name: String,
    pub sql: String,
    pub applied_at: Option<i64>,
}

/// The keeper of the schema of one database.
#[derive(Debug, Clone)]
pub struct MigrationManager {
    pub database_url: String,
}

/// The name of migration `version`.
pub open spec fn migration_name(version: int) -> Seq<char> {
    if version == 1 {
        "create_speed_measurements_table"@
    } else if version == 2 {
        "create_isp_profiles_table"@
    } else if version == 3 {
        "create_throttling_patterns_table"@
    } else if version == 4 {
        "create_optimization_strategies_table"@
    } else if version == 5 {
        "create_speedtest_servers_table"@
    } else if version == 6 {
        "create_app_config_table"@
    } else {
        "add_indexes_for_performance"@
    }
}

/// The statement that creates the table of samples.
pub open spec fn speed_measurements_table_sql() -> Seq<char> {
    "CREATE TABLE IF NOT EXISTS speed_measurements (id INTEGER PRIMARY KEY AUTOINCREMENT, timestamp INTEGER NOT NULL, download_kbps INTEGER NOT NULL, upload_kbps INTEGER NOT NULL, latency_ms INTEGER NOT NULL, optimization_active BOOLEAN NOT NULL, confidence INTEGER NOT NULL DEFAULT 1000000, created_at DATETIME DEFAULT CURRENT_TIMESTAMP);"@
}

/// The statement that creates the table of providers.
pub open spec fn isp_profiles_table_sql() -> Seq<char> {
    "CREATE TABLE IF NOT EXISTS isp_profiles (id INTEGER PRIMARY KEY AUTOINCREMENT, name TEXT NOT NULL, region TEXT NOT NULL, detection_method TEXT NOT NULL, created_at INTEGER NOT NULL, updated_at INTEGER NOT NULL);"@
}

/// The statement that creates the table of throttling patterns.
pub open spec fn throttling_patterns_table_sql() -> Seq<char> {
    "CREATE TABLE IF NOT EXISTS throttling_patterns (id INTEGER PRIMARY KEY AUTOINCREMENT, isp_profile_id INTEGER NOT NULL, start_hour INTEGER NOT NULL, start_minute INTEGER NOT NULL, end_hour INTEGER NOT NULL, end_minute INTEGER NOT NULL, days_of_week TEXT NOT NULL, severity INTEGER NOT NULL, confidence INTEGER NOT NULL, created_at DATETIME DEFAULT CURRENT_TIMESTAMP, FOREIGN KEY (isp_profile_id) REFERENCES isp_profiles (id));"@
}

/// The statement that creates the table of strategies.
pub open spec fn optimization_strategies_table_sql() -> Seq<char> {
    "CREATE TABLE IF NOT EXISTS optimization_strategies (id INTEGER PRIMARY KEY AUTOINCREMENT, name TEXT NOT NULL, server_rotation_interval_minutes INTEGER NOT NULL, packet_timing_min_ms INTEGER NOT NULL, packet_timing_max_ms INTEGER NOT NULL, connection_count INTEGER NOT NULL, traffic_intensity INTEGER NOT NULL, stealth_level TEXT NOT NULL, effectiveness_score INTEGER, created_at INTEGER NOT NULL);"@
}

/// The statement that creates the table of servers.
pub open spec fn speedtest_servers_table_sql() -> Seq<char> {
    "CREATE TABLE IF NOT EXISTS speedtest_servers (id INTEGER PRIMARY KEY AUTOINCREMENT, server_id TEXT NOT NULL UNIQUE, host TEXT NOT NULL, port INTEGER NOT NULL, name TEXT NOT NULL, country TEXT NOT NULL, sponsor TEXT NOT NULL, distance_m INTEGER, latency_us INTEGER, is_active BOOLEAN NOT NULL DEFAULT 1, last_used INTEGER, created_at DATETIME DEFAULT CURRENT_TIMESTAMP);"@
}

/// The statement that creates the table of settings.
pub open spec fn app_config_table_sql() -> Seq<char> {
    "CREATE TABLE IF NOT EXISTS app_config (id INTEGER PRIMARY KEY AUTOINCREMENT, auto_start BOOLEAN NOT NULL DEFAULT 1, monitoring_enabled BOOLEAN NOT NULL DEFAULT 1, optimization_enabled BOOLEAN NOT NULL DEFAULT 0, data_retention_days INTEGER NOT NULL DEFAULT 30, bandwidth_limit_kb_per_hour INTEGER, notification_level TEXT NOT NULL DEFAULT 'Normal', created_at INTEGER NOT NULL, updated_at INTEGER NOT NULL);"@
}

/// The statements that create the indexes.
pub open spec fn performance_indexes_sql() -> Seq<char> {
    "CREATE INDEX IF NOT EXISTS idx_speed_measurements_timestamp ON speed_measurements(timestamp); CREATE INDEX IF NOT EXISTS idx_speed_measurements_optimization_active ON speed_measurements(optimization_active); CREATE INDEX IF NOT EXISTS idx_throttling_patterns_isp_profile_id ON throttling_patterns(isp_profile_id); CREATE INDEX IF NOT EXISTS idx_speedtest_servers_country ON speedtest_servers(country); CREATE INDEX IF NOT EXISTS idx_speedtest_servers_is_active ON speedtest_servers(is_active);"@
}

/// The statements of migration `version`.
pub open spec fn migration_sql(version: int) -> Seq<char> {
    if version == 1 {
        speed_measurements_table_sql()
    } else if version == 2 {
        isp_profiles_table_sql()
    } else if version == 3 {
        throttling_patterns_table_sql()
    } else if version == 4 {
        optimization_strategies_table_sql()
    } else if version == 5 {
        speedtest_servers_table_sql()
    } else if version == 6 {
        app_config_table_sql()
    } else {
        performance_indexes_sql()
    }
}

/// The statement that creates the table of migrations.
pub open spec fn migrations_table_sql() -> Seq<char> {
    "CREATE TABLE IF NOT EXISTS schema_migrations (version INTEGER PRIMARY KEY, name TEXT NOT NULL, applied_at DATETIME NOT NULL DEFAULT CURRENT_TIMESTAMP)"@
}

/// The migrations of `all` whose version is not among `applied`, in the order of `all`.
pub open spec fn pending(all: Seq<Migration>, applied: Seq<i32>) -> Seq<int>
    decreases all.len(),
{
    if all.len() == 0 {
        Seq::empty()
    } else {
        let rest = pending(all.drop_last(), applied);
        if applied.contains(all.last().version) {
            rest
        } else {
            rest.push(all.len() - 1)
        }
    }
}

fn applied_contains(applied: &Vec<i32>, version: i32) -> (r: bool)
    ensures
        r == applied@.contains(version),
{
    let mut i: usize = 0;
    while i < applied.len()
        invariant
            i <= applied.len(),
            forall|j: int| 0 <= j < i ==> applied@[j] != version,
        decreases applied.len() - i,
    {
        if applied[i] == version {
            assert(applied@[i as int] == version);
            return true;
        }
        i = i + 1;
    }
    false
}

impl MigrationManager {
    /// The keeper of the schema of the database at `database_url`.
    pub fn new(database_url: String) -> (r: Self)
        ensures
            r.database_url == database_url,
    {
        MigrationManager { database_url }
    }

    /// The statement that creates the table of measurements.
    pub fn get_speed_measurements_table_sql(&self) -> (r: String)
        ensures
            r@ == speed_measurements_table_sql(),
    {
        String::from_str(
            "CREATE TABLE IF NOT EXISTS speed_measurements (id INTEGER PRIMARY KEY AUTOINCREMENT, timestamp INTEGER NOT NULL, download_kbps INTEGER NOT NULL, upload_kbps INTEGER NOT NULL, latency_ms INTEGER NOT NULL, optimization_active BOOLEAN NOT NULL, confidence INTEGER NOT NULL DEFAULT 1000000, created_at DATETIME DEFAULT CURRENT_TIMESTAMP);",
        )
    }

    /// The statement that creates the table of provider profiles.
    pub fn get_isp_profiles_table_sql(&self) -> (r: String)
        ensures
            r@ == isp_profiles_table_sql(),
    {
        String::from_str(
            "CREATE TABLE IF NOT EXISTS isp_profiles (id INTEGER PRIMARY KEY AUTOINCREMENT, name TEXT NOT NULL, region TEXT NOT NULL, detection_method TEXT NOT NULL, created_at INTEGER NOT NULL, updated_at INTEGER NOT NULL);",
        )
    }

    /// The statement that creates the table of throttling patterns.
    pub fn get_throttling_patterns_table_sql(&self) -> (r: String)
        ensures
            r@ == throttling_patterns_table_sql(),
    {
        String::from_str(
            "CREATE TABLE IF NOT EXISTS throttling_patterns (id INTEGER PRIMARY KEY AUTOINCREMENT, isp_profile_id INTEGER NOT NULL, start_hour INTEGER NOT NULL, start_minute INTEGER NOT NULL, end_hour INTEGER NOT NULL, end_minute INTEGER NOT NULL, days_of_week TEXT NOT NULL, severity INTEGER NOT NULL, confidence INTEGER NOT NULL, created_at DATETIME DEFAULT CURRENT_TIMESTAMP, FOREIGN KEY (isp_profile_id) REFERENCES isp_profiles (id));",
        )
    }

    /// The statement that creates the table of strategies.
    pub fn get_optimization_strategies_table_sql(&self) -> (r: String)
        ensures
            r@ == optimization_strategies_table_sql(),
    {
        String::from_str(
            "CREATE TABLE IF NOT EXISTS optimization_strategies (id INTEGER PRIMARY KEY AUTOINCREMENT, name TEXT NOT NULL, server_rotation_interval_minutes INTEGER NOT NULL, packet_timing_min_ms INTEGER NOT NULL, packet_timing_max_ms INTEGER NOT NULL, connection_count INTEGER NOT NULL, traffic_intensity INTEGER NOT NULL, stealth_level TEXT NOT NULL, effectiveness_score INTEGER, created_at INTEGER NOT NULL);",
        )
    }

    /// The statement that creates the table of servers.
    pub fn get_speedtest_servers_table_sql(&self) -> (r: String)
        ensures
            r@ == speedtest_servers_table_sql(),
    {
        String::from_str(
            "CREATE TABLE IF NOT EXISTS speedtest_servers (id INTEGER PRIMARY KEY AUTOINCREMENT, server_id TEXT NOT NULL UNIQUE, host TEXT NOT NULL, port INTEGER NOT NULL, name TEXT NOT NULL, country TEXT NOT NULL, sponsor TEXT NOT NULL, distance_m INTEGER, latency_us INTEGER, is_active BOOLEAN NOT NULL DEFAULT 1, last_used INTEGER, created_at DATETIME DEFAULT CURRENT_TIMESTAMP);",
        )
    }

    /// The statement that creates the table of settings.
    pub fn get_app_config_table_sql(&self) -> (r: String)
        ensures
            r@ == app_config_table_sql(),
    {
        String::from_str(
            "CREATE TABLE IF NOT EXISTS app_config (id INTEGER PRIMARY KEY AUTOINCREMENT, auto_start BOOLEAN NOT NULL DEFAULT 1, monitoring_enabled BOOLEAN NOT NULL DEFAULT 1, optimization_enabled BOOLEAN NOT NULL DEFAULT 0, data_retention_days INTEGER NOT NULL DEFAULT 30, bandwidth_limit_kb_per_hour INTEGER, notification_level TEXT NOT NULL DEFAULT 'Normal', created_at INTEGER NOT NULL, updated_at INTEGER NOT NULL);",
        )
    }

    /// The statements that create the indexes.
    pub fn get_performance_indexes_sql(&self) -> (r: String)
        ensures
            r@ == performance_indexes_sql(),
    {
        String::from_str(
            "CREATE INDEX IF NOT EXISTS idx_speed_measurements_timestamp ON speed_measurements(timestamp); CREATE INDEX IF NOT EXISTS idx_speed_measurements_optimization_active ON speed_measurements(optimization_active); CREATE INDEX IF NOT EXISTS idx_throttling_patterns_isp_profile_id ON throttling_patterns(isp_profile_id); CREATE INDEX IF NOT EXISTS idx_speedtest_servers_country ON speedtest_servers(country); CREATE INDEX IF NOT EXISTS idx_speedtest_servers_is_active ON speedtest_servers(is_active);",
        )
    }

    /// The statement that creates the table in which the applied migrations are noted.
    pub fn get_migrations_table_sql(&self) -> (r: String)
        ensures
            r@ == migrations_table_sql(),
    {
        String::from_str(
            "CREATE TABLE IF NOT EXISTS schema_migrations (version INTEGER PRIMARY KEY, name TEXT NOT NULL, applied_at DATETIME NOT NULL DEFAULT CURRENT_TIMESTAMP)",
        )
    }

    /// All migrations, in the order of their versions, from 1 on.
    pub fn get_all_migrations(&self) -> (r: Vec<Migration>)
        ensures
            r@.len() == MIGRATIONS,
            forall|i: int|
                0 <= i < r@.len() ==> (#[trigger] r@[i]).version == i + 1 && r@[i].name@
                    == migration_name(i + 1) && r@[i].sql@ == migration_sql(i + 1)
                    && r@[i].applied_at is None,
    {
        let mut out: Vec<Migration> = Vec::new();
        out.push(
            Migration {
                version: 1,
                name: String::from_str("create_speed_measurements_table"),
                sql: self.get_speed_measurements_table_sql(),
                applied_at: None,
            },
        );
        out.push(
            Migration {
                version: 2,
                name: String::from_str("create_isp_profiles_table"),
                sql: self.get_isp_profiles_table_sql(),
                applied_at: None,
            },
        );
        out.push(
            Migration {
                version: 3,
                name: String::from_str("create_throttling_patterns_table"),
                sql: self.get_throttling_patterns_table_sql(),
                applied_at: None,
            },
        );
        out.push(
            Migration {
                version: 4,
                name: String::from_str("create_optimization_strategies_table"),
                sql: self.get_optimization_strategies_table_sql(),
                applied_at: None,
            },
        );
        out.push(
            Migration {
                version: 5,
                name: String::from_str("create_speedtest_servers_table"),
                sql: self.get_speedtest_servers_table_sql(),
                applied_at: None,
            },
        );
        out.push(
            Migration {
                version: 6,
                name: String::from_str("create_app_config_table"),
                sql: self.get_app_config_table_sql(),
                applied_at: None,
            },
        );
        out.push(
            Migration {
                version: 7,
                name: String::from_str("add_indexes_for_performance"),
                sql: self.get_performance_indexes_sql(),
                applied_at: None,
            },
        );
        out
    }

    /// The places in `all` of the migrations that are still to be applied:
    /// those whose version is not among `applied`, in the order of `all`.
    pub fn pending_migrations(&self, all: &Vec<Migration>, applied: &Vec<i32>) -> (r: Vec<usize>)
        ensures
            r@.len() == pending(all@, applied@).len(),
            forall|i: int| 0 <= i < r@.len() ==> #[trigger] r@[i] == pending(all@, applied@)[i],
            forall|i: int| 0 <= i < r@.len() ==> (#[trigger] r@[i]) < all@.len(),
    {
        let mut out: Vec<usize> = Vec::new();
        let mut i: usize = 0;
        while i < all.len()
            invariant
                i <= all.len(),
                out@.len() == pending(all@.take(i as int), applied@).len(),
                forall|k: int|
                    0 <= k < out@.len() ==> #[trigger] out@[k] == pending(
                        all@.take(i as int),
                        applied@,
                    )[k],
                forall|k: int| 0 <= k < out@.len() ==> (#[trigger] out@[k]) < i,
            decreases all.len() - i,
        {
            assert(all@.take(i + 1).drop_last() =~= all@.take(i as int));
            if !applied_contains(applied, all[i].version) {
                out.push(i);
            }
            i = i + 1;
        }
        assert(all@.take(all.len() as int) =~= all@);
        out
    }
}

} // verus!
