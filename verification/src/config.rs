//! Server configuration: the decisions that turn the values of environment
//! variables into settings. Reading the variables is left to the caller.
use crate::text::{
    decimal, join, owned, push_str, split_by, split_once_at, split_once_by, split_on,
    split_terminator_by, split_terminator_on, str_eq, chars_of, string_of,
};
use vstd::prelude::*;

verus! {

// ---------------------------------------------------------------------------
// Publish limits
// ---------------------------------------------------------------------------

#[derive(Debug)]
pub struct PublishLimitsConfig {
    /// Maximum size in bytes of an uploaded crate file.
    pub upload_size: u32,
    /// Maximum size in bytes of a crate file once decompressed.
    pub unpack_size: u64,
    /// Maximum number of dependencies a crate can have.
    pub dependencies: usize,
    /// Maximum number of features a crate can have or that a feature itself can
    /// enable.
    pub features: usize,
}

impl Default for PublishLimitsConfig {
    fn default() -> (c: Self)
        ensures
            c.upload_size == 10 * 1024 * 1024,
            c.unpack_size == 512 * 1024 * 1024,
            c.dependencies == 500,
            c.features == 300,
    {
        PublishLimitsConfig {
            upload_size: 10 * 1024 * 1024,
            unpack_size: 512 * 1024 * 1024,
            dependencies: 500,
            features: 300,
        }
    }
}

impl PublishLimitsConfig {
    /// Smaller limits suitable for use in tests.
    pub fn for_testing() -> (c: Self)
        ensures
            c.upload_size == 128 * 1024,
            c.unpack_size == 128 * 1024,
            c.dependencies == 10,
            c.features == 10,
    {
        PublishLimitsConfig {
            upload_size: 128 * 1024,
            unpack_size: 128 * 1024,
            dependencies: 10,
            features: 10,
        }
    }
}

// ---------------------------------------------------------------------------
// Allowed origins
// ---------------------------------------------------------------------------

/// The origins accepted for requests with an `Origin` header
/// (`WEB_ALLOWED_ORIGINS`, comma-separated).
#[derive(Clone, Debug, Default)]
pub struct AllowedOrigins(pub Vec<String>);

impl AllowedOrigins {
    pub fn from_str(s: &str) -> (r: Self)
        ensures
            r.0.deep_view() == split_on(s@, ','),
    {
        AllowedOrigins(split_by(s, ','))
    }

    /// Whether `value` is one of the allowed origins.
    pub fn contains(&self, value: &str) -> (r: bool)
        ensures
            r == self.0.deep_view().contains(value@),
    {
        let mut i: usize = 0;
        while i < self.0.len()
            invariant
                i <= self.0.len(),
                forall|j: int| 0 <= j < i ==> self.0.deep_view()[j] != value@,
            decreases self.0.len() - i,
        {
            if str_eq(self.0[i].as_str(), value) {
                assert(self.0.deep_view()[i as int] == value@);
                return true;
            }
            i = i + 1;
        }
        false
    }
}

// ---------------------------------------------------------------------------
// Blocked traffic
// ---------------------------------------------------------------------------

/// Whether the `regex` crate accepts this text as a regular expression.
pub uninterp spec fn regex_compiles(pattern: Seq<char>) -> bool;

/// `regex::Regex::new(pattern).is_ok()`.
#[verifier::external_body]
fn compiles_as_regex(pattern: &str) -> (r: bool)
    ensures
        r == regex_compiles(pattern@),
{
    regex::Regex::new(pattern).is_ok()
}

/// A header value to block: a regular expression, written between slashes,
/// or an exact string.
#[derive(Debug, Clone, PartialEq, Eq)]
pub enum BlockCriteria {
    Regex(String),
    Exact(String),
}

impl BlockCriteria {
    /// The regular expression or the exact string.
    pub fn as_str(&self) -> (s: &str)
        ensures
            s@ == match self {
                BlockCriteria::Regex(r) => r@,
                BlockCriteria::Exact(e) => e@,
            },
    {
        match self {
            BlockCriteria::Regex(r) => r.as_str(),
            BlockCriteria::Exact(e) => e.as_str(),
        }
    }
}

/// Whether a value is written as a regular expression: `/pattern/`.
pub open spec fn is_slashed(v: Seq<char>) -> bool {
    v.len() >= 2 && v[0] == '/' && v.last() == '/'
}

/// The criteria that one value gives, or `None` where it is a regular
/// expression that does not compile.
pub open spec fn criteria_of(v: Seq<char>) -> Option<(bool, Seq<char>)> {
    if is_slashed(v) {
        let inner = v.subrange(1, v.len() - 1);
        if regex_compiles(inner) {
            Some((true, inner))
        } else {
            None
        }
    } else {
        Some((false, v))
    }
}

pub open spec fn criteria_view(c: BlockCriteria) -> (bool, Seq<char>) {
    match c {
        BlockCriteria::Regex(r) => (true, r@),
        BlockCriteria::Exact(e) => (false, e@),
    }
}

/// The criteria of a list of values, skipping those that give none.
pub open spec fn criteria_list(values: Seq<Seq<char>>) -> Seq<(bool, Seq<char>)>
    decreases values.len(),
{
    if values.len() == 0 {
        Seq::empty()
    } else {
        let rest = criteria_list(values.drop_last());
        match criteria_of(values.last()) {
            Some(c) => rest.push(c),
            None => rest,
        }
    }
}

fn parse_criteria(value: &str) -> (r: Option<BlockCriteria>)
    ensures
        match (r, criteria_of(value@)) {
            (Some(c), Some(v)) => criteria_view(c) == v,
            (None, None) => true,
            _ => false,
        },
{
    let v = chars_of(value);
    if v.len() >= 2 && v[0] == '/' && v[v.len() - 1] == '/' {
        let inner = string_of(&v, 1, v.len() - 1);
        if compiles_as_regex(inner.as_str()) {
            Some(BlockCriteria::Regex(inner))
        } else {
            None
        }
    } else {
        Some(BlockCriteria::Exact(owned(value)))
    }
}

/// The pairs of a header name and the name of the environment variable that
/// holds the values to block, from the comma-separated `HEADER=VARIABLE`
/// entries of `BLOCKED_TRAFFIC`. Entries without `=` are skipped.
pub open spec fn traffic_patterns(entries: Seq<Seq<char>>) -> Seq<(Seq<char>, Seq<char>)>
    decreases entries.len(),
{
    if entries.len() == 0 {
        Seq::empty()
    } else {
        let rest = traffic_patterns(entries.drop_last());
        match split_once_at(entries.last(), '=') {
            Some(p) => rest.push(p),
            None => rest,
        }
    }
}

pub open spec fn pairs_view(v: Seq<(String, String)>) -> Seq<(Seq<char>, Seq<char>)> {
    v.map_values(|p: (String, String)| (p.0@, p.1@))
}

/// Extracts from the `BLOCKED_TRAFFIC` value a comma-separated list of pairs
/// of a header name, an equals sign, and the name of another environment
/// variable that holds the values of that header that should be blocked.
/// Entries without `=` are skipped, so that one misconfigured entry does not
/// keep the others from taking effect.
pub fn parse_traffic_patterns(patterns: &str) -> (r: Vec<(String, String)>)
    ensures
        pairs_view(r@) == traffic_patterns(split_terminator_on(patterns@, ',')),
{
    let entries = split_terminator_by(patterns, ',');
    let ghost all = entries.deep_view();
    let mut out: Vec<(String, String)> = Vec::new();
    let mut i: usize = 0;
    while i < entries.len()
        invariant
            i <= entries.len(),
            all == entries.deep_view(),
            pairs_view(out@) == traffic_patterns(all.take(i as int)),
        decreases entries.len() - i,
    {
        assert(all.take(i + 1).drop_last() =~= all.take(i as int));
        match split_once_by(entries[i].as_str(), '=') {
            Some(p) => {
                out.push(p);
                assert(pairs_view(out@) =~= traffic_patterns(all.take(i + 1)));
            },
            None => {
            },
        }
        i = i + 1;
    }
    assert(all.take(entries.len() as int) =~= all);
    out
}

/// Parses the comma-separated values to block for one header: `/regex/`
/// entries become regular expressions, others exact strings. Values whose
/// regular expression does not compile are skipped, so that one
/// misconfigured entry does not keep the others from taking effect.
pub fn parse_traffic_pattern_values(header: &str, value_list: &str) -> (r: Vec<BlockCriteria>)
    ensures
        r@.map_values(|c: BlockCriteria| criteria_view(c)) == criteria_list(
            split_on(value_list@, ','),
        ),
{
    let values = split_by(value_list, ',');
    let ghost all = values.deep_view();
    let mut out: Vec<BlockCriteria> = Vec::new();
    let mut i: usize = 0;
    while i < values.len()
        invariant
            i <= values.len(),
            all == values.deep_view(),
            out@.map_values(|c: BlockCriteria| criteria_view(c)) == criteria_list(
                all.take(i as int),
            ),
        decreases values.len() - i,
    {
        assert(all.take(i + 1).drop_last() =~= all.take(i as int));
        match parse_criteria(values[i].as_str()) {
            Some(c) => {
                out.push(c);
                assert(out@.map_values(|c: BlockCriteria| criteria_view(c)) =~= criteria_list(
                    all.take(i + 1),
                ));
            },
            None => {
            },
        }
        i = i + 1;
    }
    assert(all.take(values.len() as int) =~= all);
    out
}


// ---------------------------------------------------------------------------
// Settings with defaults
// ---------------------------------------------------------------------------

/// The environment the server runs in.
#[derive(Debug, Clone, Copy, PartialEq, Eq)]
pub enum Env {
    Development,
    Test,
    Production,
}

pub struct Base {
    pub env: Env,
}

impl Base {
    /// The base settings: production where `HEROKU` is set.
    pub fn from_values(heroku_set: bool) -> (b: Self)
        ensures
            b.env == (if heroku_set { Env::Production } else { Env::Development }),
    {
        Base { env: if heroku_set { Env::Production } else { Env::Development } }
    }
}

pub struct BalanceCapacityConfig {
    pub report_only: bool,
    pub log_total_at_count: usize,
    pub log_at_percentage: usize,
    pub throttle_at_percentage: usize,
    pub dl_only_at_percentage: usize,
}

impl BalanceCapacityConfig {
    /// The capacity settings from `WEB_CAPACITY_*`: 50 connections, then 50,
    /// 70 and 80 percent of the database capacity, where a value is not given.
    pub fn from_values(
        report_only: bool,
        log_total_at_count: Option<usize>,
        log_at_percentage: Option<usize>,
        throttle_at_percentage: Option<usize>,
        dl_only_at_percentage: Option<usize>,
    ) -> (c: Self)
        ensures
            c.report_only == report_only,
            c.log_total_at_count == log_total_at_count.unwrap_or(50),
            c.log_at_percentage == log_at_percentage.unwrap_or(50),
            c.throttle_at_percentage == throttle_at_percentage.unwrap_or(70),
            c.dl_only_at_percentage == dl_only_at_percentage.unwrap_or(80),
    {
        BalanceCapacityConfig {
            report_only,
            log_total_at_count: log_total_at_count.unwrap_or(50),
            log_at_percentage: log_at_percentage.unwrap_or(50),
            throttle_at_percentage: throttle_at_percentage.unwrap_or(70),
            dl_only_at_percentage: dl_only_at_percentage.unwrap_or(80),
        }
    }
}

#[derive(Debug, Default)]
pub struct FeaturesConfig {
    /// Require new GitHub users to complete the explicit signup flow.
    pub explicit_signup_enabled: bool,
    /// Fetch the git index only when the worker's cached clone is stale.
    pub git_index_lazy_fetch_enabled: bool,
}

impl FeaturesConfig {
    /// The feature flags; each is off unless given.
    pub fn from_values(explicit_signup_enabled: Option<bool>, git_index_lazy_fetch_enabled: Option<
        bool,
    >) -> (c: Self)
        ensures
            c.explicit_signup_enabled == explicit_signup_enabled.unwrap_or(false),
            c.git_index_lazy_fetch_enabled == git_index_lazy_fetch_enabled.unwrap_or(false),
    {
        FeaturesConfig {
            explicit_signup_enabled: explicit_signup_enabled.unwrap_or(false),
            git_index_lazy_fetch_enabled: git_index_lazy_fetch_enabled.unwrap_or(false),
        }
    }
}

#[derive(Debug)]
pub struct FrontendConfig {
    /// Should the server serve the frontend assets in the `dist` directory?
    pub serve_dist: bool,
    /// Should the server serve the frontend `index.html` for all non-API requests?
    pub serve_html: bool,
    /// Maximum number of items that the HTML render cache can hold.
    pub html_render_cache_max_capacity: u64,
}

impl FrontendConfig {
    /// Serves assets and HTML, with a render cache of 1024 items unless given.
    pub fn from_values(html_render_cache_cap: Option<u64>) -> (c: Self)
        ensures
            c.serve_dist,
            c.serve_html,
            c.html_render_cache_max_capacity == html_render_cache_cap.unwrap_or(1024),
    {
        FrontendConfig {
            serve_dist: true,
            serve_html: true,
            html_render_cache_max_capacity: html_render_cache_cap.unwrap_or(1024),
        }
    }
}

#[derive(Debug, Default)]
pub struct MetricsConfig {
    /// Whether OTLP metrics export was selected.
    pub otlp_enabled: bool,
}

impl MetricsConfig {
    /// OTLP export is selected when either the general or the metrics
    /// endpoint variable is present.
    pub fn from_values(otlp_endpoint_set: bool, metrics_endpoint_set: bool) -> (c: Self)
        ensures
            c.otlp_enabled == (otlp_endpoint_set || metrics_endpoint_set),
    {
        MetricsConfig { otlp_enabled: otlp_endpoint_set || metrics_endpoint_set }
    }
}

/// The limits of one rate-limited action.
#[derive(Debug, Clone, Copy, PartialEq, Eq)]
pub struct RateLimiterConfig {
    pub rate_seconds: u64,
    pub burst: i32,
}

/// The configured value of one action, and the action's defaults.
pub struct RateLimitSetting {
    pub action: String,
    pub rate_seconds: Option<u64>,
    pub burst: Option<i32>,
    pub default_rate_seconds: u64,
    pub default_burst: i32,
}

#[derive(Debug, Default)]
pub struct RateLimitsConfig {
    /// Per-action rate limiter configuration, in the order of the actions.
    pub actions: Vec<(String, RateLimiterConfig)>,
    /// Maximum number of new versions a user can publish per day.
    pub new_versions_daily: Option<u32>,
}

impl RateLimitsConfig {
    /// Each action's configured rate and burst, falling back to its defaults.
    pub fn from_values(settings: &Vec<RateLimitSetting>, new_versions_daily: Option<u32>) -> (c:
        Self)
        ensures
            c.new_versions_daily == new_versions_daily,
            c.actions.len() == settings.len(),
            forall|i: int|
                0 <= i < settings.len() ==> {
                    &&& (#[trigger] c.actions@[i]).0@ == settings@[i].action@
                    &&& c.actions@[i].1.rate_seconds == settings@[i].rate_seconds.unwrap_or(
                        settings@[i].default_rate_seconds,
                    )
                    &&& c.actions@[i].1.burst == settings@[i].burst.unwrap_or(
                        settings@[i].default_burst,
                    )
                },
    {
        let mut actions: Vec<(String, RateLimiterConfig)> = Vec::new();
        let mut i: usize = 0;
        while i < settings.len()
            invariant
                i <= settings.len(),
                actions.len() == i,
                forall|j: int|
                    0 <= j < i ==> {
                        &&& (#[trigger] actions@[j]).0@ == settings@[j].action@
                        &&& actions@[j].1.rate_seconds == settings@[j].rate_seconds.unwrap_or(
                            settings@[j].default_rate_seconds,
                        )
                        &&& actions@[j].1.burst == settings@[j].burst.unwrap_or(
                            settings@[j].default_burst,
                        )
                    },
            decreases settings.len() - i,
        {
            let s = &settings[i];
            let limits = RateLimiterConfig {
                rate_seconds: s.rate_seconds.unwrap_or(s.default_rate_seconds),
                burst: s.burst.unwrap_or(s.default_burst),
            };
            actions.push((owned(s.action.as_str()), limits));
            i = i + 1;
        }
        RateLimitsConfig { actions, new_versions_daily }
    }
}

/// Where the server listens.
#[derive(Debug, Clone, Copy, PartialEq, Eq)]
pub struct BindConfig {
    /// IPv4 address the server binds to.
    pub ip: [u8; 4],
    /// Port the server binds to.
    pub port: u16,
}

impl BindConfig {
    /// Binds to `0.0.0.0` on Heroku or in the dev Docker container,
    /// `127.0.0.1` otherwise; port 8888 unless `PORT` is given.
    pub fn from_values(docker: bool, heroku: bool, port: Option<u16>) -> (c: Self)
        ensures
            c.ip@ == (if heroku || docker {
                seq![0u8, 0, 0, 0]
            } else {
                seq![127u8, 0, 0, 1]
            }),
            c.port == port.unwrap_or(8888),
    {
        let ip = if heroku || docker {
            [0, 0, 0, 0]
        } else {
            [127, 0, 0, 1]
        };
        let c = BindConfig { ip, port: port.unwrap_or(8888) };
        assert(c.ip@ =~= (if heroku || docker {
            seq![0u8, 0, 0, 0]
        } else {
            seq![127u8, 0, 0, 1]
        }));
        c
    }
}

/// The Datadog site that data goes to unless `DD_SITE` is given.
pub fn default_datadog_site() -> (s: String)
    ensures
        s@ == "datadoghq.com"@,
{
    owned("datadoghq.com")
}

pub struct DatadogConfig {
    /// Datadog API key used to submit data; submissions are disabled without one.
    pub api_key: Option<String>,
    /// Datadog site to submit data to.
    pub site: String,
}

impl Default for DatadogConfig {
    fn default() -> (c: Self)
        ensures
            c.api_key is None,
            c.site@ == "datadoghq.com"@,
    {
        DatadogConfig { api_key: None, site: default_datadog_site() }
    }
}

impl DatadogConfig {
    pub fn from_values(api_key: Option<String>, site: Option<String>) -> (c: Self)
        ensures
            c.api_key == api_key,
            c.site@ == match site {
                Some(s) => s@,
                None => "datadoghq.com"@,
            },
    {
        let site = match site {
            Some(s) => s,
            None => default_datadog_site(),
        };
        DatadogConfig { api_key, site }
    }

    /// Whether a Datadog client is to be built: only with an API key.
    pub fn client_enabled(&self) -> (r: bool)
        ensures
            r == self.api_key is Some,
    {
        self.api_key.is_some()
    }
}

/// The value of an optional setting that counts only when it is not empty.
pub fn non_empty(value: Option<String>) -> (r: Option<String>)
    ensures
        match value {
            Some(v) => if v@.len() > 0 {
                r == Some(v)
            } else {
                r is None
            },
            None => r is None,
        },
{
    match value {
        Some(v) => if v.as_str().is_empty() {
            None
        } else {
            Some(v)
        },
        None => None,
    }
}

/// The name of a prefixed queue variable: `{prefix}_{suffix}`.
pub fn prefixed_var_name(prefix: &str, suffix: &str) -> (s: String)
    ensures
        s@ == prefix@ + "_"@ + suffix@,
{
    let mut s = owned(prefix);
    push_str(&mut s, "_");
    push_str(&mut s, suffix);
    s
}

// ---------------------------------------------------------------------------
// Database pools
// ---------------------------------------------------------------------------

#[derive(Debug)]
pub struct DbPoolConfig {
    pub url: String,
    pub read_only_mode: bool,
    pub pool_size: usize,
    pub min_idle: Option<u32>,
}

pub struct DatabasePools {
    /// Settings for the primary database.
    pub primary: DbPoolConfig,
    /// An optional follower database. Always read-only.
    pub replica: Option<DbPoolConfig>,
    /// Milliseconds to wait for unacknowledged TCP packets.
    pub tcp_timeout_ms: u64,
    /// Seconds to wait for a connection from the pool.
    pub connection_timeout_secs: u64,
    /// Seconds to wait for a query response.
    pub statement_timeout_secs: u64,
    /// Number of threads for asynchronous operations.
    pub helper_threads: usize,
    /// Whether all database connections must be encrypted with TLS.
    pub enforce_tls: bool,
}

/// The values of the database variables, as read from the environment.
pub struct DatabaseSettings {
    pub database_url: String,
    pub read_only_replica_url: Option<String>,
    pub read_only_mode: bool,
    pub primary_pool_size: Option<usize>,
    pub replica_pool_size: Option<usize>,
    pub primary_min_idle: Option<u32>,
    pub replica_min_idle: Option<u32>,
    pub tcp_timeout_ms: Option<u64>,
    pub timeout_secs: Option<u64>,
    pub helper_threads: Option<usize>,
    pub db_offline: Option<String>,
}

/// `DB_OFFLINE=leader` without `READ_ONLY_REPLICA_URL`, with the text that
/// loading the pools panics with.
#[derive(Debug, Clone, Copy, PartialEq, Eq)]
pub struct MissingReplicaUrl;

impl MissingReplicaUrl {
    pub fn message(&self) -> (s: String)
        ensures
            s@ == "Must set `READ_ONLY_REPLICA_URL` when using `DB_OFFLINE=leader`."@,
    {
        owned("Must set `READ_ONLY_REPLICA_URL` when using `DB_OFFLINE=leader`.")
    }
}

pub const DEFAULT_POOL_SIZE: usize = 3;

/// Which database the server treats as down.
pub open spec fn offline_is(s: DatabaseSettings, which: Seq<char>) -> bool {
    s.db_offline matches Some(v) && v@ == which
}

/// `DB_OFFLINE=leader` without `READ_ONLY_REPLICA_URL`: the primary would
/// have no URL, and loading the pools panics.
pub open spec fn leader_offline_without_replica_spec(s: DatabaseSettings) -> bool {
    offline_is(s, "leader"@) && s.read_only_replica_url is None
}

/// Whether the settings say `DB_OFFLINE=leader` without a replica URL.
pub fn leader_offline_without_replica(s: &DatabaseSettings) -> (r: bool)
    ensures
        r == leader_offline_without_replica_spec(*s),
{
    match &s.db_offline {
        Some(v) => str_eq(v.as_str(), "leader") && s.read_only_replica_url.is_none(),
        None => false,
    }
}

impl DatabasePools {
    /// Whether the primary database is used read-only.
    pub fn are_all_read_only(&self) -> (r: bool)
        ensures
            r == self.primary.read_only_mode,
    {
        self.primary.read_only_mode
    }

    /// The pools that the settings describe. With `DB_OFFLINE=leader` the
    /// follower serves, read-only, as the primary; with `DB_OFFLINE=follower`
    /// no replica is configured; otherwise the follower, if any, is a
    /// read-only replica. `DB_OFFLINE=leader` without a replica URL is a
    /// configuration on which loading panics (see
    /// [`leader_offline_without_replica`] and [`MissingReplicaUrl`]).
    pub fn from_settings(settings: DatabaseSettings, production: bool) -> (p: Self)
        requires
            !leader_offline_without_replica_spec(settings),
        ensures
            ({
                &&& p.tcp_timeout_ms == settings.tcp_timeout_ms.unwrap_or(15000)
                &&& p.connection_timeout_secs == settings.timeout_secs.unwrap_or(30)
                &&& p.statement_timeout_secs == settings.timeout_secs.unwrap_or(30)
                &&& p.helper_threads == settings.helper_threads.unwrap_or(3)
                &&& p.enforce_tls == production
                &&& p.primary.pool_size == settings.primary_pool_size.unwrap_or(DEFAULT_POOL_SIZE)
                &&& p.primary.min_idle == settings.primary_min_idle
                &&& if offline_is(settings, "leader"@) {
                    &&& p.primary.url@ == settings.read_only_replica_url->0@
                    &&& p.primary.read_only_mode
                    &&& p.replica is None
                } else if offline_is(settings, "follower"@) {
                    &&& p.primary.url@ == settings.database_url@
                    &&& p.primary.read_only_mode == settings.read_only_mode
                    &&& p.replica is None
                } else {
                    &&& p.primary.url@ == settings.database_url@
                    &&& p.primary.read_only_mode == settings.read_only_mode
                    &&& match settings.read_only_replica_url {
                        Some(u) => p.replica matches Some(rep) && rep.url@ == u@
                            && rep.read_only_mode && rep.pool_size
                            == settings.replica_pool_size.unwrap_or(DEFAULT_POOL_SIZE)
                            && rep.min_idle == settings.replica_min_idle,
                        None => p.replica is None,
                    }
                }
            }),
    {
        let tcp_timeout_ms = settings.tcp_timeout_ms.unwrap_or(15 * 1000);
        let connection_timeout_secs = settings.timeout_secs.unwrap_or(30);
        let statement_timeout_secs = connection_timeout_secs;
        let helper_threads = settings.helper_threads.unwrap_or(3);
        let primary_pool_size = settings.primary_pool_size.unwrap_or(DEFAULT_POOL_SIZE);
        let replica_pool_size = settings.replica_pool_size.unwrap_or(DEFAULT_POOL_SIZE);
        let DatabaseSettings {
            database_url,
            read_only_replica_url,
            read_only_mode,
            primary_min_idle,
            replica_min_idle,
            db_offline,
            ..
        } = settings;
        let (leader, follower) = match &db_offline {
            Some(v) => (str_eq(v.as_str(), "leader"), str_eq(v.as_str(), "follower")),
            None => (false, false),
        };
        if leader {
            let url = read_only_replica_url.unwrap();
            DatabasePools {
                primary: DbPoolConfig {
                    url,
                    read_only_mode: true,
                    pool_size: primary_pool_size,
                    min_idle: primary_min_idle,
                },
                replica: None,
                tcp_timeout_ms,
                connection_timeout_secs,
                statement_timeout_secs,
                helper_threads,
                enforce_tls: production,
            }
        } else if follower {
            DatabasePools {
                primary: DbPoolConfig {
                    url: database_url,
                    read_only_mode,
                    pool_size: primary_pool_size,
                    min_idle: primary_min_idle,
                },
                replica: None,
                tcp_timeout_ms,
                connection_timeout_secs,
                statement_timeout_secs,
                helper_threads,
                enforce_tls: production,
            }
        } else {
            let replica = match read_only_replica_url {
                Some(url) => Some(
                    DbPoolConfig {
                        url,
                        read_only_mode: true,
                        pool_size: replica_pool_size,
                        min_idle: replica_min_idle,
                    },
                ),
                None => None,
            };
            DatabasePools {
                primary: DbPoolConfig {
                    url: database_url,
                    read_only_mode,
                    pool_size: primary_pool_size,
                    min_idle: primary_min_idle,
                },
                replica,
                tcp_timeout_ms,
                connection_timeout_secs,
                statement_timeout_secs,
                helper_threads,
                enforce_tls: production,
            }
        }
    }
}

// ---------------------------------------------------------------------------
// Queues, log storage, Fastly and server-wide settings
// ---------------------------------------------------------------------------

/// A required variable that is not set, by its name.
#[derive(Debug, Clone, PartialEq, Eq)]
pub struct MissingVar(pub String);

/// A queue backed by SQS, or a mock where no queue URL is configured.
#[derive(Debug, Clone, PartialEq, Eq)]
pub enum QueueConfig {
    SQS { access_key: String, secret_key: String, queue_url: String, region: String },
    Mock,
}

/// The values of the four variables of a queue (`{prefix}_URL`,
/// `{prefix}_ACCESS_KEY`, `{prefix}_SECRET_KEY`, `{prefix}_REGION`).
pub struct QueueVars {
    pub url: Option<String>,
    pub access_key: Option<String>,
    pub secret_key: Option<String>,
    pub region: Option<String>,
}

/// The queue settings of the variables with `prefix`: a mock without a URL;
/// with one, the other three variables are required, in the order access
/// key, secret key, region.
pub open spec fn queue_from_vars(prefix: Seq<char>, v: QueueVars) -> Result<QueueConfig, Seq<char>> {
    match v.url {
        None => Ok(QueueConfig::Mock),
        Some(url) => if v.access_key is None {
            Err(prefix + "_"@ + "ACCESS_KEY"@)
        } else if v.secret_key is None {
            Err(prefix + "_"@ + "SECRET_KEY"@)
        } else if v.region is None {
            Err(prefix + "_"@ + "REGION"@)
        } else {
            Ok(
                QueueConfig::SQS {
                    access_key: v.access_key->0,
                    secret_key: v.secret_key->0,
                    queue_url: url,
                    region: v.region->0,
                },
            )
        },
    }
}

pub open spec fn queue_result_view(r: Result<QueueConfig, MissingVar>) -> Result<QueueConfig, Seq<char>> {
    match r {
        Ok(c) => Ok(c),
        Err(MissingVar(name)) => Err(name@),
    }
}

impl QueueConfig {
    /// The queue settings from the values of its variables (see
    /// [`queue_from_vars`]); the error names the missing variable.
    pub fn from_values(prefix: &str, vars: QueueVars) -> (r: Result<Self, MissingVar>)
        ensures
            queue_result_view(r) == queue_from_vars(prefix@, vars),
    {
        let ghost v0 = vars;
        let QueueVars { url, access_key, secret_key, region } = vars;
        let queue_url = match url {
            None => return Ok(QueueConfig::Mock),
            Some(u) => u,
        };
        let access_key = match access_key {
            None => return Err(MissingVar(prefixed_var_name(prefix, "ACCESS_KEY"))),
            Some(a) => a,
        };
        let secret_key = match secret_key {
            None => return Err(MissingVar(prefixed_var_name(prefix, "SECRET_KEY"))),
            Some(s) => s,
        };
        let region = match region {
            None => return Err(MissingVar(prefixed_var_name(prefix, "REGION"))),
            Some(r) => r,
        };
        Ok(QueueConfig::SQS { access_key, secret_key, queue_url, region })
    }
}

/// Where CDN logs are read from.
#[derive(Debug, Clone, PartialEq, Eq)]
pub enum CdnLogStorageConfig {
    S3 { access_key: String, secret_key: String },
    Local { path: String },
    Memory,
}

impl CdnLogStorageConfig {
    pub fn s3(access_key: String, secret_key: String) -> (c: Self)
        ensures
            c == (CdnLogStorageConfig::S3 { access_key, secret_key }),
    {
        CdnLogStorageConfig::S3 { access_key, secret_key }
    }

    pub fn local(path: String) -> (c: Self)
        ensures
            c == (CdnLogStorageConfig::Local { path }),
    {
        CdnLogStorageConfig::Local { path }
    }

    pub fn memory() -> (c: Self)
        ensures
            c == CdnLogStorageConfig::Memory,
    {
        CdnLogStorageConfig::Memory
    }

    /// S3 where `AWS_ACCESS_KEY` is set (`AWS_SECRET_KEY` is then required);
    /// otherwise the `local_uploads` directory where it exists, and memory
    /// where it does not.
    pub fn from_values(
        access_key: Option<String>,
        secret_key: Option<String>,
        local_uploads: String,
        local_uploads_exists: bool,
    ) -> (r: Result<Self, MissingVar>)
        ensures
            match access_key {
                Some(a) => match secret_key {
                    Some(s) => r == Ok::<Self, MissingVar>(
                        CdnLogStorageConfig::S3 { access_key: a, secret_key: s },
                    ),
                    None => r matches Err(MissingVar(name)) && name@ == "AWS_SECRET_KEY"@,
                },
                None => r == Ok::<Self, MissingVar>(
                    if local_uploads_exists {
                        CdnLogStorageConfig::Local { path: local_uploads }
                    } else {
                        CdnLogStorageConfig::Memory
                    },
                ),
            },
    {
        match access_key {
            Some(a) => match secret_key {
                Some(s) => Ok(CdnLogStorageConfig::s3(a, s)),
                None => Err(MissingVar(owned("AWS_SECRET_KEY"))),
            },
            None => if local_uploads_exists {
                Ok(CdnLogStorageConfig::local(local_uploads))
            } else {
                Ok(CdnLogStorageConfig::memory())
            },
        }
    }
}

/// The Fastly API client settings.
#[derive(Debug, Clone, PartialEq, Eq)]
pub struct FastlyConfig {
    /// API token used to authenticate Fastly requests (`FASTLY_API_TOKEN`).
    pub api_token: String,
    /// Service ID for `static.crates.io` (`FASTLY_SERVICE_ID_STATIC`).
    pub service_id_static: Option<String>,
}

impl FastlyConfig {
    /// The client settings, present only with an API token.
    pub fn from_values(api_token: Option<String>, service_id_static: Option<String>) -> (r: Option<
        Self,
    >)
        ensures
            match api_token {
                Some(t) => r == Some(FastlyConfig { api_token: t, service_id_static }),
                None => r is None,
            },
    {
        match api_token {
            Some(t) => Some(FastlyConfig { api_token: t, service_id_static }),
            None => None,
        }
    }
}

/// The days an ownership invitation stays valid.
pub const OWNERSHIP_INVITATIONS_EXPIRATION_DAYS: i64 = 30;

/// Server-wide settings with defaults.
#[derive(Debug, Clone, PartialEq, Eq)]
pub struct ServerSettings {
    /// `DOMAIN_NAME`, `crates.io` by default.
    pub domain_name: String,
    /// The audience of Trusted Publishing tokens (`TRUSTPUB_AUDIENCE`), the
    /// domain name by default.
    pub trustpub_audience: String,
    /// Disables token creation, with this message, where non-empty.
    pub disable_token_creation: Option<String>,
    /// Banner message to display on all pages, where non-empty.
    pub banner_message: Option<String>,
    /// Page offsets larger than this value are refused (200 by default).
    pub max_allowed_page_offset: u32,
    /// The user agent of the CDN (`Amazon CloudFront` by default).
    pub cdn_user_agent: String,
}

impl ServerSettings {
    pub fn from_values(
        domain_name: Option<String>,
        trustpub_audience: Option<String>,
        disable_token_creation: Option<String>,
        banner_message: Option<String>,
        max_allowed_page_offset: Option<u32>,
        cdn_user_agent: Option<String>,
    ) -> (c: Self)
        ensures
            c.domain_name@ == match domain_name {
                Some(d) => d@,
                None => "crates.io"@,
            },
            c.trustpub_audience@ == match trustpub_audience {
                Some(a) => a@,
                None => c.domain_name@,
            },
            c.disable_token_creation == match disable_token_creation {
                Some(m) => if m@.len() > 0 { Some(m) } else { None },
                None => None,
            },
            c.banner_message == match banner_message {
                Some(m) => if m@.len() > 0 { Some(m) } else { None },
                None => None,
            },
            c.max_allowed_page_offset == max_allowed_page_offset.unwrap_or(200),
            c.cdn_user_agent@ == match cdn_user_agent {
                Some(u) => u@,
                None => "Amazon CloudFront"@,
            },
    {
        let domain_name = match domain_name {
            Some(d) => d,
            None => owned("crates.io"),
        };
        let trustpub_audience = match trustpub_audience {
            Some(a) => a,
            None => owned(domain_name.as_str()),
        };
        let cdn_user_agent = match cdn_user_agent {
            Some(u) => u,
            None => owned("Amazon CloudFront"),
        };
        ServerSettings {
            domain_name,
            trustpub_audience,
            disable_token_creation: non_empty(disable_token_creation),
            banner_message: non_empty(banner_message),
            max_allowed_page_offset: max_allowed_page_offset.unwrap_or(200),
            cdn_user_agent,
        }
    }
}

} // verus!
