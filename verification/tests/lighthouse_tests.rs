use lighthouse::engine::EngineStatus;
use lighthouse::error::LighthouseError;
use lighthouse::persistence::{MetricsStoreConfig, RetentionPolicy};
use lighthouse::policies::{
    cpu_scaling_policy, memory_scaling_policy, multi_metric_policy, request_rate_scaling_policy,
};
use lighthouse::predictive::{ForecastModel, PredictiveConfig};
use lighthouse::strmap::StrMap;
use lighthouse::types::{ResourceMetrics, ScaleAction, ScaleDirection, ScaleFactor, ScaleReason};
use lighthouse::utils::{current_timestamp, multi_metrics, single_metric};
use lighthouse::value::MetricValue;

fn v(x: f64) -> MetricValue {
    MetricValue::from_bits(x.to_bits())
}

fn key(s: &str) -> String {
    s.to_string()
}

#[test]
fn test_resource_metrics_construction() {
    let mut metrics = StrMap::new();
    metrics.insert("cpu_percent".to_string(), v(75.0));
    let rm = ResourceMetrics {
        resource_id: "web-servers".to_string(),
        resource_type: "kubernetes-deployment".to_string(),
        timestamp: 1234567890,
        metrics,
    };
    assert_eq!(rm.resource_id, "web-servers");
    assert_eq!(rm.metrics.get(&key("cpu_percent")), Some(&v(75.0)));
}

#[test]
fn test_scale_action_construction() {
    let action = ScaleAction {
        resource_id: "db".to_string(),
        resource_type: "database".to_string(),
        direction: ScaleDirection::Up,
        target_capacity: Some(10),
        scale_factor: Some(ScaleFactor::Times(v(2.0))),
        reason: ScaleReason::Text("High load".to_string()),
        confidence: v(0.95),
        timestamp: 1234567890,
        metadata: StrMap::new(),
    };
    assert_eq!(action.direction, ScaleDirection::Up);
    assert_eq!(action.target_capacity, Some(10));
}

#[test]
fn test_scaling_policy_builders() {
    let cpu = cpu_scaling_policy(v(80.0), v(20.0), v(1.5), 300);
    assert_eq!(cpu.name, "cpu-scaling");
    let mem = memory_scaling_policy(v(75.0), v(30.0), v(1.2), 120);
    assert_eq!(mem.name, "memory-scaling");
    let req = request_rate_scaling_policy(v(1000.0), v(200.0), v(2.0), 180);
    assert_eq!(req.name, "request-rate-scaling");
    let multi = multi_metric_policy("multi", (v(80.0), v(20.0)), (v(75.0), v(30.0)), v(1.5), 300);
    assert_eq!(multi.thresholds.len(), 2);
}

#[test]
fn test_utils_functions() {
    let rm = single_metric("id", "type", "cpu", v(99.0));
    assert_eq!(rm.metrics.get(&key("cpu")), Some(&v(99.0)));
    let rm2 = multi_metrics("id2", "type2", vec![("cpu", v(88.0)), ("mem", v(77.0))]);
    assert_eq!(rm2.metrics.get(&key("mem")), Some(&v(77.0)));
    let ts = current_timestamp();
    assert!(ts > 0);
}

#[test]
fn test_error_variants() {
    let err = LighthouseError::config("bad config");
    assert!(matches!(err, LighthouseError::Config { .. }));
    let err2 = LighthouseError::resource_not_found("id");
    assert!(matches!(err2, LighthouseError::ResourceNotFound { .. }));
    let err3 = LighthouseError::invalid_metric("bad metric");
    assert!(matches!(err3, LighthouseError::InvalidMetric { .. }));
}

#[test]
fn test_retention_policy_builder() {
    let policy = RetentionPolicy::new()
        .raw_data_days(14)
        .hourly_aggregates_days(90)
        .daily_aggregates_days(730)
        .max_data_points(50_000);

    assert_eq!(policy.raw_data_days, 14);
    assert_eq!(policy.hourly_aggregates_days, 90);
    assert_eq!(policy.daily_aggregates_days, 730);
    assert_eq!(policy.max_data_points_per_metric, Some(50_000));
}

#[test]
fn test_config_builder() {
    let config = MetricsStoreConfig::builder()
        .database_path("/tmp/test.db")
        .max_connections(20)
        .enable_aggregation(false)
        .maintenance_interval_hours(12)
        .retention_policy(RetentionPolicy::new().raw_data_days(30))
        .build();

    assert_eq!(config.database_path, "/tmp/test.db");
    assert_eq!(config.max_connections, 20);
    assert_eq!(config.enable_aggregation, false);
    assert_eq!(config.maintenance_interval_hours, 12);
    assert_eq!(config.retention_policy.raw_data_days, 30);
}

#[test]
fn test_predictive_config_builder() {
    let config = PredictiveConfig::builder()
        .forecast_horizon_minutes(120)
        .minimum_history_hours(8)
        .model(ForecastModel::ExponentialSmoothing)
        .confidence_threshold(v(0.8))
        .enable_seasonality(false)
        .proactive_lead_time_minutes(20)
        .build();

    assert_eq!(config.forecast_horizon_minutes, 120);
    assert_eq!(config.minimum_history_hours, 8);
    assert_eq!(config.model, ForecastModel::ExponentialSmoothing);
    assert_eq!(config.confidence_threshold, v(0.8));
    assert_eq!(config.enable_seasonality, false);
    assert_eq!(config.proactive_lead_time_minutes, 20);
}

#[test]
fn engine_status_starts_empty() {
    let e = lighthouse::engine::EngineState::new(lighthouse::types::LighthouseConfig::default());
    assert_eq!(
        e.status(),
        EngineStatus { is_running: false, resources_tracked: 0, total_recommendations: 0, last_evaluation: None }
    );
}
