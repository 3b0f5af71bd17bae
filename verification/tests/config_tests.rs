use crates_io_logic::config::{
    CdnLogStorageConfig, FastlyConfig, MissingVar, QueueConfig, QueueVars, ServerSettings,
    default_datadog_site, non_empty, parse_traffic_pattern_values, parse_traffic_patterns,
    prefixed_var_name, AllowedOrigins, BalanceCapacityConfig, Base, BindConfig, BlockCriteria,
    DatabasePools, DatabaseSettings, DatadogConfig, Env, FeaturesConfig, FrontendConfig,
    MetricsConfig, PublishLimitsConfig, RateLimitSetting, RateLimitsConfig, DEFAULT_POOL_SIZE,
    leader_offline_without_replica, MissingReplicaUrl,
};

fn pairs(v: &[(&str, &str)]) -> Vec<(String, String)> {
    v.iter().map(|(a, b)| (a.to_string(), b.to_string())).collect()
}

#[test]
fn parse_traffic_patterns_splits_on_comma_and_looks_for_equal_sign() {
    let pattern_string_1 = "Foo=BAR,Bar=BAZ";
    let pattern_string_2 = "Baz=QUX";
    let pattern_string_3 = "";

    let patterns_1 = parse_traffic_patterns(pattern_string_1);
    assert_eq!(pairs(&[("Foo", "BAR"), ("Bar", "BAZ")]), patterns_1);

    let patterns_2 = parse_traffic_patterns(pattern_string_2);
    assert_eq!(pairs(&[("Baz", "QUX")]), patterns_2);

    assert!(parse_traffic_patterns(pattern_string_3).is_empty());
}

#[test]
fn parse_traffic_patterns_skips_entries_missing_equals_sign() {
    let pattern_string = "Foo=BAR,no-equals,Baz=QUX";

    let patterns = parse_traffic_patterns(pattern_string);
    assert_eq!(pairs(&[("Foo", "BAR"), ("Baz", "QUX")]), patterns);
}

#[test]
fn parse_traffic_patterns_splits_at_first_equals_and_ignores_trailing_comma() {
    let patterns = parse_traffic_patterns("A=B=C,");
    assert_eq!(pairs(&[("A", "B=C")]), patterns);
}

#[test]
fn parse_traffic_pattern_values_splits_on_comma_even_if_escaping_is_attempted() {
    let pattern = "web-tool 1.2.3,fancy-crate\\, run by fancy-author v4.5.6,/.*foo.*/";

    let values = parse_traffic_pattern_values("User-Agent", pattern);
    assert_eq!(
        vec![
            "web-tool 1.2.3",
            "fancy-crate\\",
            " run by fancy-author v4.5.6",
            ".*foo.*",
        ],
        values.iter().map(|r| r.as_str()).collect::<Vec<_>>()
    );
}

#[test]
fn parse_traffic_pattern_values_skips_invalid_regexes() {
    let pattern = "/valid-regex/,/[invalid-regex/,exact-string";

    let values = parse_traffic_pattern_values("User-Agent", pattern);
    assert_eq!(
        vec!["valid-regex", "exact-string"],
        values.iter().map(|r| r.as_str()).collect::<Vec<_>>()
    );
}

#[test]
fn parse_traffic_pattern_values_tells_regexes_from_exact_strings() {
    let values = parse_traffic_pattern_values("User-Agent", "/a+/,/,b");
    assert_eq!(
        values,
        vec![
            BlockCriteria::Regex("a+".to_string()),
            BlockCriteria::Exact("/".to_string()),
            BlockCriteria::Exact("b".to_string()),
        ]
    );
    assert_eq!(
        parse_traffic_pattern_values("User-Agent", ""),
        vec![BlockCriteria::Exact(String::new())]
    );
}

#[test]
fn publish_limits_defaults_and_testing_values() {
    let d = PublishLimitsConfig::default();
    assert_eq!(d.upload_size, 10 * 1024 * 1024);
    assert_eq!(d.unpack_size, 512 * 1024 * 1024);
    assert_eq!(d.dependencies, 500);
    assert_eq!(d.features, 300);
    let t = PublishLimitsConfig::for_testing();
    assert_eq!(t.upload_size, 128 * 1024);
    assert_eq!(t.unpack_size, 128 * 1024);
    assert_eq!(t.dependencies, 10);
    assert_eq!(t.features, 10);
}

#[test]
fn allowed_origins_split_on_comma() {
    let origins = AllowedOrigins::from_str("https://a.example,https://b.example");
    assert_eq!(origins.0, vec!["https://a.example", "https://b.example"]);
    assert!(origins.contains("https://b.example"));
    assert!(!origins.contains("https://c.example"));
    assert!(!origins.contains("https://a.example,"));
}

#[test]
fn base_and_feature_settings() {
    assert_eq!(Base::from_values(true).env, Env::Production);
    assert_eq!(Base::from_values(false).env, Env::Development);
    let f = FeaturesConfig::from_values(None, Some(true));
    assert!(!f.explicit_signup_enabled);
    assert!(f.git_index_lazy_fetch_enabled);
    let fr = FrontendConfig::from_values(None);
    assert!(fr.serve_dist && fr.serve_html);
    assert_eq!(fr.html_render_cache_max_capacity, 1024);
    assert_eq!(FrontendConfig::from_values(Some(7)).html_render_cache_max_capacity, 7);
    assert!(MetricsConfig::from_values(false, true).otlp_enabled);
    assert!(!MetricsConfig::from_values(false, false).otlp_enabled);
}

#[test]
fn balance_capacity_defaults() {
    let c = BalanceCapacityConfig::from_values(true, None, Some(10), None, None);
    assert!(c.report_only);
    assert_eq!(c.log_total_at_count, 50);
    assert_eq!(c.log_at_percentage, 10);
    assert_eq!(c.throttle_at_percentage, 70);
    assert_eq!(c.dl_only_at_percentage, 80);
}

#[test]
fn rate_limits_fall_back_to_defaults() {
    let settings = vec![
        RateLimitSetting {
            action: "publish-new".to_string(),
            rate_seconds: None,
            burst: Some(3),
            default_rate_seconds: 600,
            default_burst: 5,
        },
        RateLimitSetting {
            action: "yank".to_string(),
            rate_seconds: Some(1),
            burst: None,
            default_rate_seconds: 60,
            default_burst: 100,
        },
    ];
    let c = RateLimitsConfig::from_values(&settings, Some(500));
    assert_eq!(c.new_versions_daily, Some(500));
    assert_eq!(c.actions.len(), 2);
    assert_eq!(c.actions[0].0, "publish-new");
    assert_eq!(c.actions[0].1.rate_seconds, 600);
    assert_eq!(c.actions[0].1.burst, 3);
    assert_eq!(c.actions[1].1.rate_seconds, 1);
    assert_eq!(c.actions[1].1.burst, 100);
}

#[test]
fn bind_address_depends_on_environment() {
    let local = BindConfig::from_values(false, false, None);
    assert_eq!(local.ip, [127, 0, 0, 1]);
    assert_eq!(local.port, 8888);
    let heroku = BindConfig::from_values(false, true, Some(5000));
    assert_eq!(heroku.ip, [0, 0, 0, 0]);
    assert_eq!(heroku.port, 5000);
    assert_eq!(BindConfig::from_values(true, false, None).ip, [0, 0, 0, 0]);
}

#[test]
fn datadog_settings() {
    assert_eq!(default_datadog_site(), "datadoghq.com");
    let d = DatadogConfig::default();
    assert!(d.api_key.is_none());
    assert!(!d.client_enabled());
    let c = DatadogConfig::from_values(Some("key".to_string()), Some("datadoghq.eu".to_string()));
    assert!(c.client_enabled());
    assert_eq!(c.site, "datadoghq.eu");
    assert_eq!(DatadogConfig::from_values(None, None).site, "datadoghq.com");
}

#[test]
fn optional_settings_ignore_empty_values() {
    assert_eq!(non_empty(Some(String::new())), None);
    assert_eq!(non_empty(Some("x".to_string())), Some("x".to_string()));
    assert_eq!(non_empty(None), None);
    assert_eq!(prefixed_var_name("BACKGROUND_JOB", "URL"), "BACKGROUND_JOB_URL");
}

fn settings() -> DatabaseSettings {
    DatabaseSettings {
        database_url: "postgres://primary".to_string(),
        read_only_replica_url: Some("postgres://replica".to_string()),
        read_only_mode: false,
        primary_pool_size: None,
        replica_pool_size: Some(7),
        primary_min_idle: Some(2),
        replica_min_idle: None,
        tcp_timeout_ms: None,
        timeout_secs: Some(5),
        helper_threads: None,
        db_offline: None,
    }
}

#[test]
fn database_pools_with_replica() {
    let p = DatabasePools::from_settings(settings(), true);
    assert_eq!(p.primary.url, "postgres://primary");
    assert!(!p.primary.read_only_mode);
    assert!(!p.are_all_read_only());
    assert_eq!(p.primary.pool_size, DEFAULT_POOL_SIZE);
    assert_eq!(p.primary.min_idle, Some(2));
    let r = p.replica.unwrap();
    assert_eq!(r.url, "postgres://replica");
    assert!(r.read_only_mode);
    assert_eq!(r.pool_size, 7);
    assert_eq!(p.tcp_timeout_ms, 15000);
    assert_eq!(p.connection_timeout_secs, 5);
    assert_eq!(p.statement_timeout_secs, 5);
    assert_eq!(p.helper_threads, 3);
    assert!(p.enforce_tls);
}

#[test]
fn database_pools_with_leader_offline() {
    let mut s = settings();
    s.db_offline = Some("leader".to_string());
    assert!(!leader_offline_without_replica(&s));
    let p = DatabasePools::from_settings(s, false);
    assert_eq!(p.primary.url, "postgres://replica");
    assert!(p.are_all_read_only());
    assert!(p.replica.is_none());
    assert!(!p.enforce_tls);

    let mut s = settings();
    s.db_offline = Some("leader".to_string());
    s.read_only_replica_url = None;
    assert!(leader_offline_without_replica(&s));
    assert_eq!(
        MissingReplicaUrl.message(),
        "Must set `READ_ONLY_REPLICA_URL` when using `DB_OFFLINE=leader`."
    );
}

#[test]
fn database_pools_with_follower_offline() {
    let mut s = settings();
    s.db_offline = Some("follower".to_string());
    assert!(!leader_offline_without_replica(&s));
    let p = DatabasePools::from_settings(s, false);
    assert_eq!(p.primary.url, "postgres://primary");
    assert!(p.replica.is_none());
}

fn vars(url: bool, access: bool, secret: bool, region: bool) -> QueueVars {
    let v = |b: bool, s: &str| if b { Some(s.to_string()) } else { None };
    QueueVars {
        url: v(url, "https://sqs.example/queue"),
        access_key: v(access, "AK"),
        secret_key: v(secret, "SK"),
        region: v(region, "us-west-1"),
    }
}

#[test]
fn queue_settings_need_all_variables_with_a_url() {
    assert_eq!(
        QueueConfig::from_values("CDN_LOG_QUEUE", vars(false, false, false, false)),
        Ok(QueueConfig::Mock)
    );
    assert_eq!(
        QueueConfig::from_values("CDN_LOG_QUEUE", vars(true, true, true, true)),
        Ok(QueueConfig::SQS {
            access_key: "AK".to_string(),
            secret_key: "SK".to_string(),
            queue_url: "https://sqs.example/queue".to_string(),
            region: "us-west-1".to_string(),
        })
    );
    assert_eq!(
        QueueConfig::from_values("CDN_LOG_QUEUE", vars(true, false, false, true)),
        Err(MissingVar("CDN_LOG_QUEUE_ACCESS_KEY".to_string()))
    );
    assert_eq!(
        QueueConfig::from_values("Q", vars(true, true, false, false)),
        Err(MissingVar("Q_SECRET_KEY".to_string()))
    );
    assert_eq!(
        QueueConfig::from_values("Q", vars(true, true, true, false)),
        Err(MissingVar("Q_REGION".to_string()))
    );
}

#[test]
fn cdn_log_storage_choice() {
    assert_eq!(
        CdnLogStorageConfig::from_values(Some("a".into()), Some("s".into()), "/tmp/x".into(), true),
        Ok(CdnLogStorageConfig::s3("a".into(), "s".into()))
    );
    assert_eq!(
        CdnLogStorageConfig::from_values(Some("a".into()), None, "/tmp/x".into(), true),
        Err(MissingVar("AWS_SECRET_KEY".to_string()))
    );
    assert_eq!(
        CdnLogStorageConfig::from_values(None, None, "/tmp/x".into(), true),
        Ok(CdnLogStorageConfig::local("/tmp/x".into()))
    );
    assert_eq!(
        CdnLogStorageConfig::from_values(None, None, "/tmp/x".into(), false),
        Ok(CdnLogStorageConfig::memory())
    );
}

#[test]
fn fastly_and_server_settings() {
    assert_eq!(FastlyConfig::from_values(None, Some("svc".into())), None);
    let f = FastlyConfig::from_values(Some("tok".into()), None).unwrap();
    assert_eq!(f.api_token, "tok");
    assert_eq!(f.service_id_static, None);

    let s = ServerSettings::from_values(None, None, Some(String::new()), Some("Down".into()), None, None);
    assert_eq!(s.domain_name, "crates.io");
    assert_eq!(s.trustpub_audience, "crates.io");
    assert_eq!(s.disable_token_creation, None);
    assert_eq!(s.banner_message, Some("Down".to_string()));
    assert_eq!(s.max_allowed_page_offset, 200);
    assert_eq!(s.cdn_user_agent, "Amazon CloudFront");
    let s = ServerSettings::from_values(Some("staging.crates.io".into()), None, None, None, Some(5), Some("UA".into()));
    assert_eq!(s.trustpub_audience, "staging.crates.io");
    assert_eq!(s.max_allowed_page_offset, 5);
    assert_eq!(s.cdn_user_agent, "UA");
}
