use vstd::prelude::*;

use crate::value::MetricValue;

verus! {

// ---------------------------------------------------------------------------
// Configuration
// ---------------------------------------------------------------------------

/// Data retention policies for the different aggregation levels.
#[derive(Debug, Clone, PartialEq, Eq, Structural)]
pub struct RetentionPolicy {
    /// How long to keep raw (unaggregated) metrics data, in days.
    pub raw_data_days: u32,
    /// How long to keep hourly aggregated data, in days.
    pub hourly_aggregates_days: u32,
    /// How long to keep daily aggregated data, in days.
    pub daily_aggregates_days: u32,
    /// Maximum number of data points to store per resource-metric combination.
    pub max_data_points_per_metric: Option<u64>,
}

/// The default retention: raw data for a week, hourly aggregates for a
/// month, daily aggregates for a year, at most 10000 points per metric.
pub open spec fn default_retention() -> RetentionPolicy {
    RetentionPolicy {
        raw_data_days: 7,
        hourly_aggregates_days: 30,
        daily_aggregates_days: 365,
        max_data_points_per_metric: Some(10_000),
    }
}

impl Default for RetentionPolicy {
    fn default() -> (p: Self)
        ensures
            p == default_retention(),
    {
        RetentionPolicy {
            raw_data_days: 7,
            hourly_aggregates_days: 30,
            daily_aggregates_days: 365,
            max_data_points_per_metric: Some(10_000),
        }
    }
}

impl RetentionPolicy {
    /// The default retention policy.
    pub fn new() -> (p: Self)
        ensures
            p == default_retention(),
    {
        RetentionPolicy::default()
    }

    /// Sets the raw data retention period; nothing else changes.
    pub fn raw_data_days(self, days: u32) -> (p: Self)
        ensures
            p == (RetentionPolicy { raw_data_days: days, ..self }),
    {
        RetentionPolicy { raw_data_days: days, ..self }
    }

    /// Sets the hourly aggregates retention period; nothing else changes.
    pub fn hourly_aggregates_days(self, days: u32) -> (p: Self)
        ensures
            p == (RetentionPolicy { hourly_aggregates_days: days, ..self }),
    {
        RetentionPolicy { hourly_aggregates_days: days, ..self }
    }

    /// Sets the daily aggregates retention period; nothing else changes.
    pub fn daily_aggregates_days(self, days: u32) -> (p: Self)
        ensures
            p == (RetentionPolicy { daily_aggregates_days: days, ..self }),
    {
        RetentionPolicy { daily_aggregates_days: days, ..self }
    }

    /// Sets the maximum number of data points per metric; nothing else changes.
    pub fn max_data_points(self, max: u64) -> (p: Self)
        ensures
            p == (RetentionPolicy { max_data_points_per_metric: Some(max), ..self }),
    {
        RetentionPolicy { max_data_points_per_metric: Some(max), ..self }
    }
}

/// Configuration of the metrics store.
#[derive(Debug, Clone)]
pub struct MetricsStoreConfig {
    /// Path to the SQLite database file.
    pub database_path: String,
    /// Maximum number of connections in the pool.
    pub max_connections: u32,
    /// Data retention policies.
    pub retention_policy: RetentionPolicy,
    /// Whether to aggregate data automatically.
    pub enable_aggregation: bool,
    /// Interval for running maintenance tasks (cleanup, aggregation), in hours.
    pub maintenance_interval_hours: u64,
}

/// The default database path.
pub const DEFAULT_DATABASE_PATH: &'static str = "./lighthouse_metrics.db";

impl MetricsStoreConfig {
    /// The default configuration: database "./lighthouse_metrics.db", 10
    /// connections, default retention, aggregation on, maintenance every 6 hours.
    pub open spec fn is_default(self) -> bool {
        &&& self.database_path@ == DEFAULT_DATABASE_PATH@
        &&& self.max_connections == 10
        &&& self.retention_policy == default_retention()
        &&& self.enable_aggregation
        &&& self.maintenance_interval_hours == 6
    }

    /// A builder with nothing set.
    pub fn builder() -> (b: MetricsStoreConfigBuilder)
        ensures
            b@.is_empty(),
    {
        MetricsStoreConfigBuilder::default()
    }
}

impl Default for MetricsStoreConfig {
    fn default() -> (c: Self)
        ensures
            c.is_default(),
    {
        MetricsStoreConfig {
            database_path: DEFAULT_DATABASE_PATH.to_string(),
            max_connections: 10,
            retention_policy: RetentionPolicy::default(),
            enable_aggregation: true,
            maintenance_interval_hours: 6,
        }
    }
}

/// Builder for `MetricsStoreConfig`: what is not set takes the default.
#[derive(Debug)]
pub struct MetricsStoreConfigBuilder {
    database_path: Option<String>,
    max_connections: Option<u32>,
    retention_policy: Option<RetentionPolicy>,
    enable_aggregation: Option<bool>,
    maintenance_interval_hours: Option<u64>,
}

/// The settings a store configuration builder has received.
pub struct StoreChoices {
    pub database_path: Option<Seq<char>>,
    pub max_connections: Option<u32>,
    pub retention_policy: Option<RetentionPolicy>,
    pub enable_aggregation: Option<bool>,
    pub maintenance_interval_hours: Option<u64>,
}

impl StoreChoices {
    /// Nothing is set.
    pub open spec fn is_empty(self) -> bool {
        &&& self.database_path is None
        &&& self.max_connections is None
        &&& self.retention_policy is None
        &&& self.enable_aggregation is None
        &&& self.maintenance_interval_hours is None
    }
}

/// One call of a setter of the store configuration builder, by what it sets.
pub enum StoreSetting {
    DatabasePath(Seq<char>),
    MaxConnections(u32),
    Retention(RetentionPolicy),
    Aggregation(bool),
    MaintenanceHours(u64),
}

/// The settings after one setter call: its own setting is replaced, the
/// others are kept.
pub open spec fn apply_setting(c: StoreChoices, s: StoreSetting) -> StoreChoices {
    match s {
        StoreSetting::DatabasePath(p) => StoreChoices { database_path: Some(p), ..c },
        StoreSetting::MaxConnections(n) => StoreChoices { max_connections: Some(n), ..c },
        StoreSetting::Retention(r) => StoreChoices { retention_policy: Some(r), ..c },
        StoreSetting::Aggregation(e) => StoreChoices { enable_aggregation: Some(e), ..c },
        StoreSetting::MaintenanceHours(h) => StoreChoices { maintenance_interval_hours: Some(h), ..c },
    }
}

/// The settings after a sequence of setter calls, made in order.
pub open spec fn apply_settings(c: StoreChoices, s: Seq<StoreSetting>) -> StoreChoices
    decreases s.len(),
{
    if s.len() == 0 {
        c
    } else {
        apply_setting(apply_settings(c, s.drop_last()), s.last())
    }
}

/// The path of the last `database_path` call in the sequence, if any.
pub open spec fn last_database_path(s: Seq<StoreSetting>) -> Option<Seq<char>>
    decreases s.len(),
{
    if s.len() == 0 {
        None
    } else {
        match s.last() {
            StoreSetting::DatabasePath(p) => Some(p),
            _ => last_database_path(s.drop_last()),
        }
    }
}

/// The argument of the last `max_connections` call in the sequence, if any.
pub open spec fn last_max_connections(s: Seq<StoreSetting>) -> Option<u32>
    decreases s.len(),
{
    if s.len() == 0 {
        None
    } else {
        match s.last() {
            StoreSetting::MaxConnections(n) => Some(n),
            _ => last_max_connections(s.drop_last()),
        }
    }
}

/// The argument of the last `retention_policy` call in the sequence, if any.
pub open spec fn last_retention(s: Seq<StoreSetting>) -> Option<RetentionPolicy>
    decreases s.len(),
{
    if s.len() == 0 {
        None
    } else {
        match s.last() {
            StoreSetting::Retention(r) => Some(r),
            _ => last_retention(s.drop_last()),
        }
    }
}

/// The argument of the last `enable_aggregation` call in the sequence, if any.
pub open spec fn last_aggregation(s: Seq<StoreSetting>) -> Option<bool>
    decreases s.len(),
{
    if s.len() == 0 {
        None
    } else {
        match s.last() {
            StoreSetting::Aggregation(e) => Some(e),
            _ => last_aggregation(s.drop_last()),
        }
    }
}

/// The argument of the last `maintenance_interval_hours` call in the
/// sequence, if any.
pub open spec fn last_maintenance_hours(s: Seq<StoreSetting>) -> Option<u64>
    decreases s.len(),
{
    if s.len() == 0 {
        None
    } else {
        match s.last() {
            StoreSetting::MaintenanceHours(h) => Some(h),
            _ => last_maintenance_hours(s.drop_last()),
        }
    }
}

/// The configuration built from the settings: each as set, or its default.
pub open spec fn built_from(c: MetricsStoreConfig, ch: StoreChoices) -> bool {
    &&& c.database_path@ == match ch.database_path {
        Some(p) => p,
        None => DEFAULT_DATABASE_PATH@,
    }
    &&& c.max_connections == match ch.max_connections {
        Some(n) => n,
        None => 10u32,
    }
    &&& c.retention_policy == match ch.retention_policy {
        Some(p) => p,
        None => default_retention(),
    }
    &&& c.enable_aggregation == match ch.enable_aggregation {
        Some(e) => e,
        None => true,
    }
    &&& c.maintenance_interval_hours == match ch.maintenance_interval_hours {
        Some(h) => h,
        None => 6u64,
    }
}

proof fn lemma_settings_last_wins(start: StoreChoices, s: Seq<StoreSetting>)
    requires
        start.is_empty(),
    ensures
        apply_settings(start, s).database_path == last_database_path(s),
        apply_settings(start, s).max_connections == last_max_connections(s),
        apply_settings(start, s).retention_policy == last_retention(s),
        apply_settings(start, s).enable_aggregation == last_aggregation(s),
        apply_settings(start, s).maintenance_interval_hours == last_maintenance_hours(s),
    decreases s.len(),
{
    if s.len() > 0 {
        lemma_settings_last_wins(start, s.drop_last());
    }
}

/// Whatever setters are called on a fresh builder, in whatever order and how
/// often, each setting of the built configuration is the argument of the
/// last call of its setter, or its default when its setter was never called.
pub proof fn law_builder_last_setting_wins(
    start: StoreChoices,
    settings: Seq<StoreSetting>,
    c: MetricsStoreConfig,
)
    requires
        start.is_empty(),
        built_from(c, apply_settings(start, settings)),
    ensures
        c.database_path@ == match last_database_path(settings) {
            Some(p) => p,
            None => DEFAULT_DATABASE_PATH@,
        },
        c.max_connections == match last_max_connections(settings) {
            Some(n) => n,
            None => 10u32,
        },
        c.retention_policy == match last_retention(settings) {
            Some(p) => p,
            None => default_retention(),
        },
        c.enable_aggregation == match last_aggregation(settings) {
            Some(e) => e,
            None => true,
        },
        c.maintenance_interval_hours == match last_maintenance_hours(settings) {
            Some(h) => h,
            None => 6u64,
        },
{
    lemma_settings_last_wins(start, settings);
}

/// A builder on which no setter is called builds the default configuration.
pub proof fn law_unset_builder_builds_default(start: StoreChoices, c: MetricsStoreConfig)
    requires
        start.is_empty(),
        built_from(c, start),
    ensures
        c.is_default(),
{
}

impl View for MetricsStoreConfigBuilder {
    type V = StoreChoices;

    closed spec fn view(&self) -> StoreChoices {
        StoreChoices {
            database_path: match self.database_path {
                Some(p) => Some(p@),
                None => None,
            },
            max_connections: self.max_connections,
            retention_policy: self.retention_policy,
            enable_aggregation: self.enable_aggregation,
            maintenance_interval_hours: self.maintenance_interval_hours,
        }
    }
}

impl Default for MetricsStoreConfigBuilder {
    fn default() -> (b: Self)
        ensures
            b@.is_empty(),
    {
        MetricsStoreConfigBuilder {
            database_path: None,
            max_connections: None,
            retention_policy: None,
            enable_aggregation: None,
            maintenance_interval_hours: None,
        }
    }
}

impl MetricsStoreConfigBuilder {
    /// Sets the database path; nothing else changes.
    pub fn database_path(self, path: &str) -> (b: Self)
        ensures
            b@ == apply_setting(self@, StoreSetting::DatabasePath(path@)),
    {
        MetricsStoreConfigBuilder { database_path: Some(path.to_string()), ..self }
    }

    /// Sets the maximum number of database connections; nothing else changes.
    pub fn max_connections(self, max: u32) -> (b: Self)
        ensures
            b@ == apply_setting(self@, StoreSetting::MaxConnections(max)),
    {
        MetricsStoreConfigBuilder { max_connections: Some(max), ..self }
    }

    /// Sets the retention policy; nothing else changes.
    pub fn retention_policy(self, policy: RetentionPolicy) -> (b: Self)
        ensures
            b@ == apply_setting(self@, StoreSetting::Retention(policy)),
    {
        MetricsStoreConfigBuilder { retention_policy: Some(policy), ..self }
    }

    /// Turns automatic aggregation on or off; nothing else changes.
    pub fn enable_aggregation(self, enable: bool) -> (b: Self)
        ensures
            b@ == apply_setting(self@, StoreSetting::Aggregation(enable)),
    {
        MetricsStoreConfigBuilder { enable_aggregation: Some(enable), ..self }
    }

    /// Sets the maintenance interval in hours; nothing else changes.
    pub fn maintenance_interval_hours(self, hours: u64) -> (b: Self)
        ensures
            b@ == apply_setting(self@, StoreSetting::MaintenanceHours(hours)),
    {
        MetricsStoreConfigBuilder { maintenance_interval_hours: Some(hours), ..self }
    }

    /// The configuration: each setting as set, or its default.
    pub fn build(self) -> (c: MetricsStoreConfig)
        ensures
            built_from(c, self@),
    {
        let default = MetricsStoreConfig::default();
        MetricsStoreConfig {
            database_path: match self.database_path {
                Some(p) => p,
                None => default.database_path,
            },
            max_connections: match self.max_connections {
                Some(n) => n,
                None => default.max_connections,
            },
            retention_policy: match self.retention_policy {
                Some(p) => p,
                None => default.retention_policy,
            },
            enable_aggregation: match self.enable_aggregation {
                Some(e) => e,
                None => default.enable_aggregation,
            },
            maintenance_interval_hours: match self.maintenance_interval_hours {
                Some(h) => h,
                None => default.maintenance_interval_hours,
            },
        }
    }
}

// ---------------------------------------------------------------------------
// Data
// ---------------------------------------------------------------------------

/// Aggregation levels of stored metrics.
#[derive(Debug, Clone, Copy, PartialEq, Eq, Structural)]
pub enum AggregationLevel {
    /// Raw, unaggregated data points.
    Raw,
    /// Hourly aggregated data.
    Hourly,
    /// Daily aggregated data.
    Daily,
}

/// A stored data point.
#[derive(Debug, Clone, Copy)]
pub struct HistoricalDataPoint {
    /// When the data point was recorded (Unix seconds).
    pub timestamp: i64,
    /// The metric value.
    pub value: MetricValue,
    /// Aggregation level.
    pub aggregation: AggregationLevel,
}

/// Direction of a trend.
#[derive(Debug, Clone, Copy, PartialEq, Eq, Structural)]
pub enum TrendDirection {
    /// Metric is increasing over time.
    Increasing,
    /// Metric is decreasing over time.
    Decreasing,
    /// Metric is stable (no significant trend).
    Stable,
    /// Insufficient data to determine a trend.
    Unknown,
}

/// Statistics about the metrics store.
#[derive(Debug, Clone, Copy, PartialEq, Eq, Structural)]
pub struct StoreStatistics {
    /// Number of raw data points stored.
    pub raw_data_points: u64,
    /// Number of hourly aggregates stored.
    pub hourly_aggregates: u64,
    /// Number of daily aggregates stored.
    pub daily_aggregates: u64,
    /// Number of unique resources tracked.
    pub unique_resources: u64,
    /// Database file size in bytes.
    pub database_size_bytes: u64,
}

/// Query parameters for historical metrics.
#[derive(Debug, Clone)]
pub struct MetricsQuery {
    /// Resource to query.
    pub resource_id: String,
    /// Specific metric name (all metrics when absent).
    pub metric_name: Option<String>,
    /// Start of the time range (Unix seconds).
    pub start_time: i64,
    /// End of the time range (Unix seconds).
    pub end_time: i64,
    /// Desired aggregation level (raw when absent).
    pub aggregation: Option<AggregationLevel>,
    /// Maximum number of data points to return.
    pub limit: Option<u64>,
}

// ---------------------------------------------------------------------------
// Query planning
// ---------------------------------------------------------------------------

/// A value bound to a parameter of an SQL statement.
#[derive(Debug, Clone)]
pub enum BindValue {
    Text(String),
    Integer(i64),
}

/// An SQL statement with the values for its parameters, in order, and the
/// aggregation level of the rows it reads.
#[derive(Debug)]
pub struct QueryPlan {
    pub sql: String,
    pub binds: Vec<BindValue>,
    pub aggregation: AggregationLevel,
}

pub const RAW_BY_METRIC_SQL: &'static str = "\n                    SELECT metric_name, metric_value, timestamp\n                    FROM raw_metrics \n                    WHERE resource_id = ? AND metric_name = ? \n                    AND timestamp BETWEEN ? AND ?\n                    ORDER BY timestamp ";

pub const RAW_ALL_SQL: &'static str = "\n                    SELECT metric_name, metric_value, timestamp\n                    FROM raw_metrics \n                    WHERE resource_id = ? \n                    AND timestamp BETWEEN ? AND ?\n                    ORDER BY timestamp ";

pub const AGGREGATED_BY_METRIC_SQL: &'static str = "\n                    SELECT metric_name, mean_value as metric_value, timestamp\n                    FROM aggregated_metrics \n                    WHERE resource_id = ? AND metric_name = ? \n                    AND aggregation_level = ?\n                    AND timestamp BETWEEN ? AND ?\n                    ORDER BY timestamp ";

pub const AGGREGATED_ALL_SQL: &'static str = "\n                    SELECT metric_name, mean_value as metric_value, timestamp\n                    FROM aggregated_metrics \n                    WHERE resource_id = ? \n                    AND aggregation_level = ?\n                    AND timestamp BETWEEN ? AND ?\n                    ORDER BY timestamp ";

pub const LIMIT_SQL: &'static str = "LIMIT ?";

pub const SQL_END: &'static str = "\n                ";

/// The aggregation level a query reads: raw when none is asked for.
pub open spec fn query_level(q: MetricsQuery) -> AggregationLevel {
    match q.aggregation {
        Some(l) => l,
        None => AggregationLevel::Raw,
    }
}

/// The SQL text for a query: raw rows or aggregated rows, of one metric or
/// of all, ordered by time, limited when a limit is given.
pub open spec fn query_sql(q: MetricsQuery) -> Seq<char> {
    let body = if query_level(q) == AggregationLevel::Raw {
        if q.metric_name is Some {
            RAW_BY_METRIC_SQL@
        } else {
            RAW_ALL_SQL@
        }
    } else {
        if q.metric_name is Some {
            AGGREGATED_BY_METRIC_SQL@
        } else {
            AGGREGATED_ALL_SQL@
        }
    };
    body + (if q.limit is Some {
        LIMIT_SQL@
    } else {
        Seq::<char>::empty()
    }) + SQL_END@
}

/// The name of an aggregation level in the database.
pub open spec fn level_name(l: AggregationLevel) -> Seq<char> {
    match l {
        AggregationLevel::Hourly => "hourly"@,
        AggregationLevel::Daily => "daily"@,
        AggregationLevel::Raw => "raw"@,
    }
}

/// The view of a bound value: text by its characters, integers as they are.
pub open spec fn bind_view(b: BindValue) -> Result<Seq<char>, i64> {
    match b {
        BindValue::Text(s) => Ok(s@),
        BindValue::Integer(i) => Err(i),
    }
}

/// The parameters of a query's statement, in order: the resource, the metric
/// when there is one, the aggregation level for aggregated rows, the start
/// and end times, and the limit when there is one.
pub open spec fn query_binds(q: MetricsQuery) -> Seq<Result<Seq<char>, i64>> {
    seq![Ok(q.resource_id@)] + (match q.metric_name {
        Some(m) => seq![Ok(m@)],
        None => Seq::empty(),
    }) + (if query_level(q) != AggregationLevel::Raw {
        seq![Ok(level_name(query_level(q)))]
    } else {
        Seq::empty()
    }) + seq![Err(q.start_time), Err(q.end_time)] + (match q.limit {
        Some(l) => seq![Err(l as i64)],
        None => Seq::empty(),
    })
}

/// The levels carry the names under which the store writes their rows:
/// "hourly" and "daily" for the aggregates ("raw" for raw data), and two
/// different levels never share a name.
pub proof fn law_level_names(a: AggregationLevel, b: AggregationLevel)
    ensures
        level_name(AggregationLevel::Hourly) == "hourly"@,
        level_name(AggregationLevel::Daily) == "daily"@,
        level_name(AggregationLevel::Raw) == "raw"@,
        a != b ==> level_name(a) != level_name(b),
{
    reveal_strlit("hourly");
    reveal_strlit("daily");
    reveal_strlit("raw");
    if a != b {
        assert(level_name(a).len() != level_name(b).len() || level_name(a)[0] != level_name(b)[0]);
    }
}

/// A query for aggregated rows binds, right after the resource and the
/// metric (when there is one), the name of the level asked for: "hourly" for
/// hourly aggregates and "daily" for daily ones; a raw query binds no level,
/// only the resource, the metric, the two times and the limit.
pub proof fn law_query_binds_level_asked_for(q: MetricsQuery)
    ensures
        ({
            let at: int = if q.metric_name is Some {
                2
            } else {
                1
            };
            &&& q.aggregation == Some(AggregationLevel::Hourly) ==> query_binds(q)[at] == Ok::<
                Seq<char>,
                i64,
            >("hourly"@)
            &&& q.aggregation == Some(AggregationLevel::Daily) ==> query_binds(q)[at] == Ok::<
                Seq<char>,
                i64,
            >("daily"@)
            &&& query_level(q) == AggregationLevel::Raw ==> query_binds(q)[at] == Err::<
                Seq<char>,
                i64,
            >(q.start_time)
            &&& query_binds(q).len() == at + (if query_level(q) == AggregationLevel::Raw {
                2int
            } else {
                3int
            }) + (if q.limit is Some {
                1int
            } else {
                0int
            })
        }),
{
    law_level_names(AggregationLevel::Hourly, AggregationLevel::Daily);
}

impl MetricsQuery {
    /// The SQL statement that reads the query's data points, with its
    /// parameters and the aggregation level of the rows.
    pub fn plan(&self) -> (p: QueryPlan)
        ensures
            p.sql@ == query_sql(*self),
            p.binds@.map_values(|b: BindValue| bind_view(b)) == query_binds(*self),
            p.aggregation == query_level(*self),
    {
        let level = match self.aggregation {
            Some(l) => l,
            None => AggregationLevel::Raw,
        };
        let body = if level == AggregationLevel::Raw {
            if self.metric_name.is_some() {
                RAW_BY_METRIC_SQL
            } else {
                RAW_ALL_SQL
            }
        } else {
            if self.metric_name.is_some() {
                AGGREGATED_BY_METRIC_SQL
            } else {
                AGGREGATED_ALL_SQL
            }
        };
        let mut sql = body.to_string();
        if self.limit.is_some() {
            sql.append(LIMIT_SQL);
        }
        sql.append(SQL_END);
        let ghost limit_part = if self.limit is Some {
            LIMIT_SQL@
        } else {
            Seq::<char>::empty()
        };
        proof {
            assert(sql@ =~= body@ + limit_part + SQL_END@);
        }

        let mut binds: Vec<BindValue> = Vec::new();
        binds.push(BindValue::Text(self.resource_id.clone()));
        match &self.metric_name {
            Some(m) => binds.push(BindValue::Text(m.clone())),
            None => {},
        }
        if level != AggregationLevel::Raw {
            let name = match level {
                AggregationLevel::Hourly => "hourly",
                AggregationLevel::Daily => "daily",
                AggregationLevel::Raw => "raw",
            };
            binds.push(BindValue::Text(name.to_string()));
        }
        binds.push(BindValue::Integer(self.start_time));
        binds.push(BindValue::Integer(self.end_time));
        match self.limit {
            Some(l) => binds.push(BindValue::Integer(l as i64)),
            None => {},
        }
        proof {
            assert(binds@.map_values(|b: BindValue| bind_view(b)) =~= query_binds(*self));
        }
        QueryPlan { sql, binds, aggregation: level }
    }
}

// ---------------------------------------------------------------------------
// Data quality
// ---------------------------------------------------------------------------

/// Metrics are expected every 5 minutes.
pub const EXPECTED_INTERVAL_MINUTES: u64 = 5;

/// How many data points are expected from `start_time` to `end_time` (Unix
/// seconds) when one arrives every 5 minutes, both ends counted, and how many
/// of them are missing when `actual` arrived: none when the span is shorter
/// than a minute.
pub open spec fn missing_points(start_time: i64, end_time: i64, actual: nat) -> Option<(nat, nat)> {
    let span = end_time - start_time;
    if span < 60 {
        None
    } else {
        let expected = (span / 60) / (EXPECTED_INTERVAL_MINUTES as int) + 1;
        let missing = if actual < expected {
            expected - actual
        } else {
            0
        };
        Some((missing as nat, expected as nat))
    }
}

/// Over a span of at least a minute, one data point is expected at the start
/// and one more for every whole 5 minutes: the expected count less one is the
/// number of whole 300-second steps in the span. The missing count is what
/// the actual count falls short of the expected one, and none when it does
/// not.
pub proof fn law_expected_points_per_five_minutes(start_time: i64, end_time: i64, actual: nat)
    requires
        end_time - start_time >= 60,
    ensures
        missing_points(start_time, end_time, actual) matches Some((missing, expected)) && {
            &&& (expected - 1) * 300 <= end_time - start_time < expected * 300
            &&& expected >= 1
            &&& (actual < expected ==> missing + actual == expected)
            &&& (actual >= expected ==> missing == 0)
        },
{
    let span: int = end_time - start_time;
    let q: int = (span / 60) / 5;
    assert(q * 300 <= span < q * 300 + 300) by {
        assert(span / 60 * 60 <= span < span / 60 * 60 + 60);
        assert(q * 5 <= span / 60 < q * 5 + 5);
    }
}

/// Five more minutes of span expect exactly one more data point, and no
/// span expects fewer points than a shorter one.
pub proof fn law_expected_points_grow_with_span(start_time: i64, end1: i64, end2: i64, actual: nat)
    requires
        end1 - start_time >= 60,
        end1 <= end2,
    ensures
        missing_points(start_time, end1, actual) matches Some((m1, e1)) && missing_points(
            start_time,
            end2,
            actual,
        ) matches Some((m2, e2)) && {
            &&& e1 <= e2
            &&& m1 <= m2
            &&& (end2 == end1 + 300 ==> e2 == e1 + 1)
        },
{
    law_expected_points_per_five_minutes(start_time, end1, actual);
    law_expected_points_per_five_minutes(start_time, end2, actual);
}

/// The missing and expected data points over a time range (see
/// `missing_points`), as (missing, expected).
pub fn missing_data_points(start_time: i64, end_time: i64, actual: usize) -> (r: Option<(u64, u64)>)
    ensures
        match missing_points(start_time, end_time, actual as nat) {
            Some((missing, expected)) => r matches Some(c) && c.0 == missing && c.1 == expected,
            None => r is None,
        },
{
    let span: i128 = end_time as i128 - start_time as i128;
    if span < 60 {
        return None;
    }
    let minutes: i128 = span / 60;
    let expected: u64 = (minutes / 5) as u64 + 1;
    let actual64: u64 = actual as u64;
    let missing: u64 = if actual64 < expected {
        expected - actual64
    } else {
        0
    };
    Some((missing, expected))
}

} // verus!
