use lighthouse::callbacks::CallbackContext;
use lighthouse::engine::{
    evaluate_policy, policy_cooldown, CommandReply, CooldownTracker, EngineCommand, EngineState,
};
use lighthouse::error::LighthouseError;
use lighthouse::persistence::{
    missing_data_points, AggregationLevel, BindValue, MetricsQuery, MetricsStoreConfig,
    RetentionPolicy,
};
use lighthouse::policies::evaluation::{is_in_window, is_schedule_active, is_schedule_active_at};
use lighthouse::policies::{
    advanced_multi_tier_policy, always_active_schedule, business_hours_scaling_policy,
    business_hours_schedule, composite_and_policy, composite_majority_policy, composite_or_policy,
    composite_weighted_policy, cpu_scaling_policy, time_based_policy, time_schedule,
    weekend_schedule,
};
use lighthouse::predictive::{ForecastModel, PredictiveConfig};
use lighthouse::strmap::StrMap;
use lighthouse::types::{
    CompositeLogic, LighthouseConfig, ResourceConfig, ResourceMetrics, ScaleDirection, ScaleFactor,
    ScaleReason, ScalingPolicy, ScalingThreshold,
};
use lighthouse::utils::{multi_metrics, multi_metrics_at, single_metric_at};
use lighthouse::value::MetricValue;

fn v(x: f64) -> MetricValue {
    MetricValue::from_bits(x.to_bits())
}

fn s(x: &str) -> String {
    x.to_string()
}

fn metrics(id: &str, ty: &str, values: &[(&str, f64)]) -> ResourceMetrics {
    let mut m = StrMap::new();
    for (k, x) in values {
        m.insert(k.to_string(), v(*x));
    }
    ResourceMetrics { resource_id: s(id), resource_type: s(ty), timestamp: 1, metrics: m }
}

fn config_with(key: &str, ty: &str, policies: Vec<ScalingPolicy>) -> LighthouseConfig {
    LighthouseConfig::builder()
        .add_resource_config(
            key,
            ResourceConfig {
                resource_type: s(ty),
                policies,
                default_policy: None,
                settings: StrMap::new(),
            },
        )
        .build()
}

// ----- values -------------------------------------------------------------

#[test]
fn metric_value_compares_like_ieee() {
    let cases = [0.0, -0.0, 1.5, -1.5, 80.0, 1e-300, -1e300, f64::INFINITY, f64::NEG_INFINITY, f64::NAN];
    for a in cases {
        for b in cases {
            assert_eq!(v(a).gt(&v(b)), a > b, "{} > {}", a, b);
            assert_eq!(v(a).lt(&v(b)), a < b, "{} < {}", a, b);
        }
        assert_eq!(v(a).nan(), a.is_nan());
    }
}

#[test]
fn metric_value_clamp_matches_f64_clamp() {
    for x in [-3.0, -0.0, 0.0, 0.3, 1.0, 7.5, f64::INFINITY, f64::NEG_INFINITY] {
        assert_eq!(v(x).clamp(&v(0.0), &v(1.0)).bits, x.clamp(0.0, 1.0).to_bits());
    }
    assert!(v(f64::NAN).clamp(&v(0.0), &v(1.0)).nan());
}

// ----- maps ---------------------------------------------------------------

#[test]
fn strmap_insert_replaces_and_keeps_order() {
    let mut m = StrMap::new();
    m.insert(s("b"), 1u64);
    m.insert(s("a"), 2u64);
    m.insert(s("b"), 3u64);
    assert_eq!(m.len(), 2);
    assert_eq!(m.get(&s("b")), Some(&3));
    assert_eq!(m.get(&s("a")), Some(&2));
    assert_eq!(m.get(&s("c")), None);
    assert!(m.contains_key(&s("a")));
    assert_eq!(m.keys(), vec![s("b"), s("a")]);
    assert_eq!(m.entry_at(1), (&s("a"), &2));
    let c = m.clone();
    assert_eq!(c.keys(), vec![s("b"), s("a")]);
}

#[test]
fn multi_metrics_keeps_last_value_of_a_name() {
    let m = multi_metrics("id", "t", vec![("cpu", v(1.0)), ("mem", v(2.0)), ("cpu", v(3.0))]);
    assert_eq!(m.metrics.len(), 2);
    assert_eq!(m.metrics.get(&s("cpu")), Some(&v(3.0)));
    assert_eq!(m.resource_id, "id");
    assert_eq!(m.resource_type, "t");
}

// ----- policy evaluation --------------------------------------------------

#[test]
fn evaluate_policy_scales_up_above_threshold() {
    let m = metrics("web", "t", &[("cpu_percent", 85.0)]);
    let p = cpu_scaling_policy(v(80.0), v(20.0), v(1.5), 300);
    let a = evaluate_policy(&m, &p, 77).unwrap();
    assert_eq!(a.direction, ScaleDirection::Up);
    assert_eq!(a.scale_factor, Some(ScaleFactor::Times(v(1.5))));
    assert_eq!(a.resource_id, "web");
    assert_eq!(a.resource_type, "t");
    assert_eq!(a.timestamp, 77);
    assert_eq!(a.confidence, v(0.8));
    assert_eq!(a.target_capacity, None);
    assert_eq!(a.metadata.len(), 0);
    match a.reason {
        ScaleReason::ExceededScaleUp { metric_name, value, threshold } => {
            assert_eq!(metric_name, "cpu_percent");
            assert_eq!(value, v(85.0));
            assert_eq!(threshold, v(80.0));
        }
        _ => panic!("wrong reason"),
    }
}

#[test]
fn evaluate_policy_scales_down_below_threshold() {
    let m = metrics("web", "t", &[("cpu_percent", 10.0)]);
    let p = cpu_scaling_policy(v(80.0), v(20.0), v(2.0), 300);
    let a = evaluate_policy(&m, &p, 5).unwrap();
    assert_eq!(a.direction, ScaleDirection::Down);
    assert_eq!(a.scale_factor, Some(ScaleFactor::Inverse(v(2.0))));
    assert!(matches!(a.reason, ScaleReason::BelowScaleDown { .. }));
}

#[test]
fn evaluate_policy_inside_band_or_missing_or_nan_gives_nothing() {
    let p = cpu_scaling_policy(v(80.0), v(20.0), v(1.5), 300);
    assert!(evaluate_policy(&metrics("w", "t", &[("cpu_percent", 50.0)]), &p, 0).is_none());
    assert!(evaluate_policy(&metrics("w", "t", &[("cpu_percent", 80.0)]), &p, 0).is_none());
    assert!(evaluate_policy(&metrics("w", "t", &[("cpu_percent", 20.0)]), &p, 0).is_none());
    assert!(evaluate_policy(&metrics("w", "t", &[("memory", 99.0)]), &p, 0).is_none());
    assert!(evaluate_policy(&metrics("w", "t", &[("cpu_percent", f64::NAN)]), &p, 0).is_none());
}

#[test]
fn evaluate_policy_first_triggering_threshold_decides() {
    let m = metrics("w", "t", &[("cpu_percent", 50.0), ("memory_percent", 5.0)]);
    let p = lighthouse::policies::multi_metric_policy(
        "multi",
        (v(80.0), v(20.0)),
        (v(75.0), v(30.0)),
        v(1.5),
        300,
    );
    let a = evaluate_policy(&m, &p, 0).unwrap();
    assert_eq!(a.direction, ScaleDirection::Down);
    match a.reason {
        ScaleReason::BelowScaleDown { metric_name, .. } => assert_eq!(metric_name, "memory_percent"),
        _ => panic!("wrong reason"),
    }
}

#[test]
fn policy_cooldown_is_longest_threshold_cooldown() {
    let t = |c: u64| ScalingThreshold {
        metric_name: s("m"),
        scale_up_threshold: v(1.0),
        scale_down_threshold: v(0.0),
        scale_factor: v(1.0),
        cooldown_seconds: c,
        confidence: None,
    };
    assert_eq!(policy_cooldown(&vec![t(5), t(30), t(10)]), 30);
    assert_eq!(policy_cooldown(&vec![]), 0);
}

// ----- cooldowns ----------------------------------------------------------

#[test]
fn cooldown_tracker_waits_out_cooldown() {
    let mut t = CooldownTracker::new();
    assert!(t.is_cooled_down_at(&s("r"), 100, 0));
    assert!(t.is_cooled_down(&s("r"), 100));
    t.record_scale_action_at(&s("r"), 1000);
    assert!(!t.is_cooled_down_at(&s("r"), 100, 1099));
    assert!(t.is_cooled_down_at(&s("r"), 100, 1100));
    assert!(!t.is_cooled_down_at(&s("r"), 100, 500));
    assert!(!t.is_cooled_down_at(&s("r"), u64::MAX, u64::MAX));
    assert!(t.is_cooled_down_at(&s("other"), 100, 1000));
    t.record_scale_action(&s("x"));
    assert!(!t.is_cooled_down(&s("x"), 1_000_000));
}

// ----- engine -------------------------------------------------------------

#[test]
fn engine_lifecycle_recommends_and_tracks() {
    let config = LighthouseConfig::builder()
        .evaluation_interval(1)
        .add_resource_config(
            "test",
            ResourceConfig {
                resource_type: s("test-type"),
                policies: vec![cpu_scaling_policy(v(80.0), v(20.0), v(1.5), 1)],
                default_policy: Some(s("cpu-scaling")),
                settings: StrMap::new(),
            },
        )
        .build();
    let mut e = EngineState::new(config);
    e.set_running(true);
    assert!(e.status().is_running);
    let m = lighthouse::utils::single_metric("test", "test-type", "cpu_percent", v(85.0));
    let r = e.handle_command(EngineCommand::UpdateMetrics(Some(m)), 10).unwrap();
    assert!(matches!(r, CommandReply::Done));
    match e.handle_command(EngineCommand::GetRecommendation { resource_id: s("test") }, 10).unwrap() {
        CommandReply::Recommendation(Some(a)) => assert_eq!(a.direction, ScaleDirection::Up),
        _ => panic!("expected a recommendation"),
    }
    match e.handle_command(EngineCommand::GetStatus, 10).unwrap() {
        CommandReply::Status(st) => assert!(st.resources_tracked >= 1),
        _ => panic!("expected a status"),
    }
    let shut = e.handle_command(EngineCommand::Shutdown, 10);
    assert!(matches!(shut, Ok(CommandReply::Stop)));
    assert!(!e.status().is_running);
    assert_eq!(e.status().resources_tracked, 1);
}

#[test]
fn engine_reports_actions_held_back_by_cooldown() {
    let slow = cpu_scaling_policy(v(80.0), v(20.0), v(1.5), 300);
    let fast = cpu_scaling_policy(v(90.0), v(20.0), v(3.0), 10);
    let cfg = config_with("t", "t", vec![slow, fast]);
    let mut e = EngineState::new(cfg);
    e.update_metrics(Some(metrics("r", "t", &[("cpu_percent", 95.0)])));
    assert!(e.held_back_at(&s("r"), 1000).is_empty());
    e.record_execution(&s("r"), 1000);
    // The slow policy is still cooling down at 1020 and is held back; the
    // fast one has cooled down and is the recommendation.
    let held = e.held_back_at(&s("r"), 1020);
    assert_eq!(held.len(), 1);
    assert_eq!(held[0].direction, ScaleDirection::Up);
    assert_eq!(held[0].scale_factor, Some(ScaleFactor::Times(v(1.5))));
    assert_eq!(held[0].resource_id, "r");
    let a = e.get_recommendation_at(&s("r"), 1020).unwrap();
    assert_eq!(a.scale_factor, Some(ScaleFactor::Times(v(3.0))));
    // At 1005 both are cooling down: both are held back, none is recommended.
    let both = e.held_back_at(&s("r"), 1005);
    assert_eq!(both.len(), 2);
    assert_eq!(both[1].scale_factor, Some(ScaleFactor::Times(v(3.0))));
    assert!(e.get_recommendation_at(&s("r"), 1005).is_none());
    assert!(e.held_back_at(&s("unknown"), 1005).is_empty());
}

#[test]
fn metrics_stamped_with_given_time() {
    let m = single_metric_at("db", "database", "cpu", v(42.0), 1234);
    assert_eq!(m.resource_id, "db");
    assert_eq!(m.resource_type, "database");
    assert_eq!(m.timestamp, 1234);
    assert_eq!(m.metrics.len(), 1);
    assert_eq!(m.metrics.get(&s("cpu")), Some(&v(42.0)));
    let n = multi_metrics_at("web", "service", vec![("cpu", v(1.0)), ("mem", v(2.0)), ("cpu", v(3.0))], 99);
    assert_eq!(n.timestamp, 99);
    assert_eq!(n.metrics.len(), 2);
    assert_eq!(n.metrics.get(&s("cpu")), Some(&v(3.0)));
    assert_eq!(n.metrics.get(&s("mem")), Some(&v(2.0)));
}

#[test]
fn engine_cooldown_blocks_repeated_scaling() {
    let cfg = config_with("t", "t", vec![cpu_scaling_policy(v(80.0), v(20.0), v(1.5), 300)]);
    let mut e = EngineState::new(cfg);
    e.update_metrics(Some(metrics("r", "t", &[("cpu_percent", 95.0)])));
    assert!(e.get_recommendation_at(&s("r"), 1000).is_some());
    e.record_execution(&s("r"), 1000);
    assert_eq!(e.status().total_recommendations, 1);
    assert!(e.get_recommendation_at(&s("r"), 1299).is_none());
    assert!(e.get_recommendation_at(&s("r"), 1300).is_some());
}

#[test]
fn engine_skips_cooling_policy_for_next_one() {
    let slow = cpu_scaling_policy(v(80.0), v(20.0), v(1.5), 300);
    let fast = cpu_scaling_policy(v(90.0), v(20.0), v(3.0), 10);
    let cfg = config_with("t", "t", vec![slow, fast]);
    let mut e = EngineState::new(cfg);
    e.update_metrics(Some(metrics("r", "t", &[("cpu_percent", 95.0)])));
    e.record_execution(&s("r"), 1000);
    let a = e.get_recommendation_at(&s("r"), 1020).unwrap();
    assert_eq!(a.scale_factor, Some(ScaleFactor::Times(v(3.0))));
}

#[test]
fn engine_ignores_disabled_policies_and_unknown_resources() {
    let mut p = cpu_scaling_policy(v(80.0), v(20.0), v(1.5), 0);
    p.enabled = false;
    let cfg = config_with("t", "t", vec![p]);
    let mut e = EngineState::new(cfg);
    e.update_metrics(Some(metrics("r", "t", &[("cpu_percent", 95.0)])));
    assert!(e.get_recommendation_at(&s("r"), 5).is_none());
    assert!(e.get_recommendation_at(&s("nobody"), 5).is_none());
    e.update_metrics(Some(metrics("q", "other", &[("cpu_percent", 95.0)])));
    assert!(e.get_recommendation_at(&s("q"), 5).is_none());
}

#[test]
fn engine_update_metrics_replaces_and_counts() {
    let mut e = EngineState::new(LighthouseConfig::default());
    e.update_metrics(Some(metrics("a", "t", &[("x", 1.0)])));
    e.update_metrics(Some(metrics("b", "t", &[("x", 1.0)])));
    e.update_metrics(Some(metrics("a", "t", &[("x", 2.0)])));
    e.update_metrics(None);
    assert_eq!(e.status().resources_tracked, 2);
    let ids = e.begin_evaluation(42);
    assert_eq!(ids, vec![s("a"), s("b")]);
    assert_eq!(e.status().last_evaluation, Some(42));
}

#[test]
fn engine_update_config_takes_effect() {
    let mut e = EngineState::new(LighthouseConfig::default());
    e.update_metrics(Some(metrics("r", "t", &[("cpu_percent", 95.0)])));
    assert!(e.get_recommendation_at(&s("r"), 5).is_none());
    let cfg = config_with("t", "t", vec![cpu_scaling_policy(v(80.0), v(20.0), v(1.5), 0)]);
    let r = e.handle_command(EngineCommand::UpdateConfig(cfg), 5).unwrap();
    assert!(matches!(r, CommandReply::Done));
    assert!(e.get_recommendation_at(&s("r"), 5).is_some());
    assert_eq!(e.config().resource_configs.len(), 1);
}

#[test]
fn config_lookup_by_name_then_by_declared_type() {
    let cfg = LighthouseConfig::builder()
        .add_resource_config(
            "named",
            ResourceConfig { resource_type: s("declared"), policies: vec![], default_policy: None, settings: StrMap::new() },
        )
        .add_resource_config(
            "declared",
            ResourceConfig { resource_type: s("x"), policies: vec![], default_policy: None, settings: StrMap::new() },
        )
        .build();
    assert_eq!(cfg.config_for_type(&s("declared")).unwrap().resource_type, "x");
    assert_eq!(cfg.config_for_type(&s("named")).unwrap().resource_type, "declared");
    assert!(cfg.config_for_type(&s("none")).is_none());
}

#[test]
fn config_builder_defaults_and_settings() {
    let c = LighthouseConfig::default();
    assert_eq!(c.evaluation_interval_seconds, 30);
    assert!(c.enable_logging);
    assert_eq!(c.resource_configs.len(), 0);
    let c = LighthouseConfig::builder()
        .global_setting("environment", "staging")
        .global_setting("environment", "production")
        .enable_logging(false)
        .evaluation_interval(5)
        .build();
    assert_eq!(c.global_settings.get(&s("environment")), Some(&s("production")));
    assert_eq!(c.global_settings.len(), 1);
    assert!(!c.enable_logging);
    assert_eq!(c.evaluation_interval_seconds, 5);
}

#[test]
fn callback_context_has_no_metadata() {
    let c = CallbackContext::at(9);
    assert_eq!(c.timestamp, 9);
    assert_eq!(c.metadata.len(), 0);
}

#[test]
fn error_constructors_keep_their_text() {
    match LighthouseError::callback_failed("op", "boom") {
        LighthouseError::CallbackFailed { operation, message } => {
            assert_eq!(operation, "op");
            assert_eq!(message, "boom");
        }
        _ => panic!(),
    }
    assert!(matches!(LighthouseError::policy_evaluation("p", "m"), LighthouseError::PolicyEvaluation { .. }));
    assert!(matches!(LighthouseError::engine_not_running("m"), LighthouseError::EngineNotRunning { .. }));
    assert!(matches!(LighthouseError::unexpected("m"), LighthouseError::Unexpected { .. }));
}

// ----- composite and scheduled policies ----------------------------------

#[test]
fn composite_builders_set_logic() {
    let ps = || vec![cpu_scaling_policy(v(80.0), v(20.0), v(1.5), 1)];
    assert!(matches!(composite_and_policy("a", ps()).logic, CompositeLogic::AllMustTrigger));
    assert!(matches!(composite_or_policy("a", ps()).logic, CompositeLogic::AnyCanTrigger));
    assert!(matches!(composite_majority_policy("a", ps()).logic, CompositeLogic::Majority));
    let w = composite_weighted_policy("w", ps(), vec![v(1.0)]);
    assert!(w.enabled && w.schedule.is_none());
    assert_eq!(w.name, "w");
}

#[test]
fn advanced_multi_tier_policy_shape() {
    let c = advanced_multi_tier_policy("tier", (v(80.0), v(20.0)), (v(75.0), v(30.0)), (v(1000.0), v(100.0)), 301);
    assert_eq!(c.policies.len(), 3);
    assert_eq!(c.policies[0].thresholds[0].scale_factor, v(1.5));
    assert_eq!(c.policies[1].thresholds[0].scale_factor, v(1.4));
    assert_eq!(c.policies[2].thresholds[0].scale_factor, v(1.6));
    assert_eq!(c.policies[2].thresholds[0].cooldown_seconds, 150);
    assert_eq!(c.policies[2].thresholds[0].metric_name, "requests_per_second");
    match c.logic {
        CompositeLogic::Weighted(w) => assert_eq!(w, vec![v(0.4), v(0.4), v(0.2)]),
        _ => panic!(),
    }
}

#[test]
fn schedule_builders() {
    let b = business_hours_schedule(Some("UTC"));
    assert_eq!((b.start_time.as_str(), b.end_time.as_str()), ("09:00", "17:00"));
    assert_eq!(b.days_of_week, vec![1, 2, 3, 4, 5]);
    assert_eq!(b.timezone, Some(s("UTC")));
    let w = weekend_schedule(None);
    assert_eq!(w.days_of_week, vec![0, 6]);
    assert_eq!(w.timezone, None);
    let a = always_active_schedule(None);
    assert_eq!(a.days_of_week, vec![0, 1, 2, 3, 4, 5, 6]);
    let t = time_schedule("22:00", "06:00", vec![3], None);
    assert_eq!(t.start_time, "22:00");
    let p = business_hours_scaling_policy(
        "bh",
        cpu_scaling_policy(v(80.0), v(20.0), v(1.5), 1),
        cpu_scaling_policy(v(90.0), v(10.0), v(1.2), 1),
        None,
    );
    assert_eq!(p.scheduled_policies.len(), 2);
    assert_eq!(p.scheduled_policies[1].0.start_time, "17:01");
    assert_eq!(p.scheduled_policies[1].0.end_time, "08:59");
    assert!(p.default_policy.is_none());
    let tb = time_based_policy("x", vec![], None);
    assert!(tb.enabled);
}

#[test]
fn schedule_activity_at_given_times() {
    let b = business_hours_schedule(None);
    assert!(is_schedule_active_at(&b, 1, (9 * 3600, 0)));
    assert!(is_schedule_active_at(&b, 3, (17 * 3600, 0)));
    // The end time covers its whole minute.
    assert!(is_schedule_active_at(&b, 3, (17 * 3600, 1)));
    assert!(is_schedule_active_at(&b, 3, (17 * 3600 + 59, 999_999_999)));
    assert!(!is_schedule_active_at(&b, 3, (17 * 3600 + 60, 0)));
    assert!(!is_schedule_active_at(&b, 0, (12 * 3600, 0)));
    assert!(!is_schedule_active_at(&b, 2, (8 * 3600 + 59 * 60, 0)));
    let night = time_schedule("22:00", "06:00", vec![0, 1, 2, 3, 4, 5, 6], None);
    assert!(is_schedule_active_at(&night, 4, (23 * 3600, 0)));
    assert!(is_schedule_active_at(&night, 4, (3600, 0)));
    assert!(!is_schedule_active_at(&night, 4, (12 * 3600, 0)));
    let bad = time_schedule("later", "never", vec![2], None);
    assert!(is_schedule_active_at(&bad, 2, (0, 0)));
    assert!(is_schedule_active_at(&bad, 2, (86399, 0)));
    assert!(is_schedule_active_at(&bad, 2, (86399, 5)));
    let all = always_active_schedule(None);
    for day in 0..7u8 {
        assert!(is_schedule_active_at(&all, day, (0, 0)));
        assert!(is_schedule_active_at(&all, day, (86340, 0)));
        assert!(is_schedule_active_at(&all, day, (86370, 0)));
        assert!(is_schedule_active_at(&all, day, (86399, 0)));
        assert!(is_schedule_active_at(&all, day, (86399, 999_999_999)));
    }
    assert!(is_schedule_active(&all));
    let weekend = weekend_schedule(None);
    assert!(is_schedule_active_at(&weekend, 6, (86399, 500)));
    assert!(!is_schedule_active_at(&weekend, 5, (43200, 0)));
}

#[test]
fn window_check() {
    assert!(is_in_window(None, None, (0, 0)));
    assert!(is_in_window(Some((100, 0)), Some((50, 0)), (10, 0)));
    assert!(!is_in_window(Some((100, 0)), Some((50, 0)), (60, 0)));
    assert!(is_in_window(Some((100, 0)), Some((60, 0)), (60, 0)));
    assert!(is_in_window(Some((100, 0)), Some((60, 0)), (119, 0)));
    assert!(!is_in_window(Some((200, 0)), Some((60, 0)), (120, 0)));
    assert!(is_in_window(Some((0, 0)), Some((86340, 0)), (86399, 1_500_000_000)));
    assert!(!is_in_window(Some((3600, 0)), Some((7200, 0)), (3599, 999_999_999)));
}

// ----- persistence --------------------------------------------------------

#[test]
fn store_config_defaults() {
    let c = MetricsStoreConfig::builder().build();
    assert_eq!(c.database_path, "./lighthouse_metrics.db");
    assert_eq!(c.max_connections, 10);
    assert!(c.enable_aggregation);
    assert_eq!(c.maintenance_interval_hours, 6);
    assert_eq!(c.retention_policy, RetentionPolicy::new());
    assert_eq!(c.retention_policy.raw_data_days, 7);
    assert_eq!(c.retention_policy.hourly_aggregates_days, 30);
    assert_eq!(c.retention_policy.daily_aggregates_days, 365);
    assert_eq!(c.retention_policy.max_data_points_per_metric, Some(10_000));
}

fn text(b: &BindValue) -> String {
    match b {
        BindValue::Text(t) => t.clone(),
        BindValue::Integer(i) => format!("#{}", i),
    }
}

#[test]
fn query_plan_raw_by_metric_with_limit() {
    let q = MetricsQuery {
        resource_id: s("r"),
        metric_name: Some(s("cpu")),
        start_time: 100,
        end_time: 200,
        aggregation: None,
        limit: Some(5),
    };
    let p = q.plan();
    assert!(p.sql.contains("FROM raw_metrics"));
    assert!(p.sql.contains("AND metric_name = ?"));
    assert!(p.sql.contains("ORDER BY timestamp LIMIT ?"));
    assert_eq!(p.aggregation, AggregationLevel::Raw);
    let b: Vec<String> = p.binds.iter().map(text).collect();
    assert_eq!(b, vec![s("r"), s("cpu"), s("#100"), s("#200"), s("#5")]);
}

#[test]
fn query_plan_hourly_all_metrics() {
    let q = MetricsQuery {
        resource_id: s("r"),
        metric_name: None,
        start_time: -5,
        end_time: 7,
        aggregation: Some(AggregationLevel::Hourly),
        limit: None,
    };
    let p = q.plan();
    assert!(p.sql.contains("mean_value as metric_value"));
    assert!(p.sql.contains("AND aggregation_level = ?"));
    assert!(!p.sql.contains("LIMIT"));
    assert_eq!(p.aggregation, AggregationLevel::Hourly);
    let b: Vec<String> = p.binds.iter().map(text).collect();
    assert_eq!(b, vec![s("r"), s("hourly"), s("#-5"), s("#7")]);
}

#[test]
fn missing_points_over_an_hour() {
    assert_eq!(missing_data_points(0, 3600, 3), Some((10, 13)));
    assert_eq!(missing_data_points(0, 3600, 20), Some((0, 13)));
    assert_eq!(missing_data_points(0, 59, 0), None);
    assert_eq!(missing_data_points(100, 0, 0), None);
}

// ----- predictive ---------------------------------------------------------

#[test]
fn predictive_defaults_and_history() {
    let c = PredictiveConfig::builder().build();
    assert_eq!(c.forecast_horizon_minutes, 60);
    assert_eq!(c.minimum_history_hours, 4);
    assert_eq!(c.model, ForecastModel::LinearRegression);
    assert_eq!(c.confidence_threshold, v(0.75));
    assert_eq!(c.update_interval_minutes, 10);
    assert!(c.enable_seasonality && c.enable_anomaly_detection && c.cache_forecasts);
    assert_eq!(c.proactive_lead_time_minutes, 15);
    assert_eq!(c.forecast_history_hours(60), 4);
    assert_eq!(c.forecast_history_hours(180), 12);
    assert_eq!(c.forecast_history_hours(119), 4);
    let clamped = PredictiveConfig::builder().confidence_threshold(v(1.7)).build();
    assert_eq!(clamped.confidence_threshold, v(1.0));
    let low = PredictiveConfig::builder().confidence_threshold(v(-2.0)).build();
    assert_eq!(low.confidence_threshold, v(0.0));
}
