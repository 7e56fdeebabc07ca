use vstd::prelude::*;

use crate::value::{MetricValue, ONE_BITS, ZERO_BITS};

verus! {

/// Forecasting models.
#[derive(Debug, Clone, Copy, PartialEq, Eq, Structural)]
pub enum ForecastModel {
    /// Simple linear regression.
    LinearRegression,
    /// Moving average with trend.
    MovingAverageWithTrend,
    /// Exponential smoothing.
    ExponentialSmoothing,
    /// Seasonal decomposition with linear trend.
    SeasonalLinear,
    /// Auto-regressive model (simplified).
    AutoRegressive,
}

/// Configuration of predictive scaling.
#[derive(Debug, Clone, Copy, PartialEq, Eq, Structural)]
pub struct PredictiveConfig {
    /// How far into the future to forecast, in minutes.
    pub forecast_horizon_minutes: u64,
    /// Minimum amount of history required, in hours.
    pub minimum_history_hours: u64,
    /// Forecasting model to use.
    pub model: ForecastModel,
    /// Minimum confidence for predictions (0.0 to 1.0).
    pub confidence_threshold: MetricValue,
    /// How often to update forecasts, in minutes.
    pub update_interval_minutes: u64,
    /// Whether to detect seasonal patterns.
    pub enable_seasonality: bool,
    /// Whether to detect anomalies.
    pub enable_anomaly_detection: bool,
    /// Proactive scaling lead time, in minutes before a threshold breach.
    pub proactive_lead_time_minutes: u64,
    /// Whether to cache forecasts.
    pub cache_forecasts: bool,
}

/// 0.75
pub const DEFAULT_CONFIDENCE_THRESHOLD_BITS: u64 = 0x3FE8_0000_0000_0000;

/// The default configuration: a 60 minute horizon, 4 hours of history, linear
/// regression, confidence 0.75, updates every 10 minutes, seasonality and
/// anomaly detection on, 15 minutes of lead time, caching on.
pub open spec fn default_predictive_config() -> PredictiveConfig {
    PredictiveConfig {
        forecast_horizon_minutes: 60,
        minimum_history_hours: 4,
        model: ForecastModel::LinearRegression,
        confidence_threshold: MetricValue { bits: DEFAULT_CONFIDENCE_THRESHOLD_BITS },
        update_interval_minutes: 10,
        enable_seasonality: true,
        enable_anomaly_detection: true,
        proactive_lead_time_minutes: 15,
        cache_forecasts: true,
    }
}

impl Default for PredictiveConfig {
    fn default() -> (c: Self)
        ensures
            c == default_predictive_config(),
    {
        PredictiveConfig {
            forecast_horizon_minutes: 60,
            minimum_history_hours: 4,
            model: ForecastModel::LinearRegression,
            confidence_threshold: MetricValue::from_bits(DEFAULT_CONFIDENCE_THRESHOLD_BITS),
            update_interval_minutes: 10,
            enable_seasonality: true,
            enable_anomaly_detection: true,
            proactive_lead_time_minutes: 15,
            cache_forecasts: true,
        }
    }
}

/// Rust's `/` on i64: the quotient rounded toward zero.
pub open spec fn div_toward_zero(a: i64, b: i64) -> int
    recommends
        b > 0,
{
    if a >= 0 {
        (a as int) / (b as int)
    } else {
        -((-(a as int)) / (b as int))
    }
}

impl PredictiveConfig {
    /// A builder with nothing set.
    pub fn builder() -> (b: PredictiveConfigBuilder)
        ensures
            b@.is_empty(),
    {
        PredictiveConfigBuilder::default()
    }

    /// The hours of history a forecast over `horizon_minutes` reads: the
    /// configured minimum, or four times the horizon in whole hours (rounded
    /// toward zero) if that is more.
    pub fn forecast_history_hours(&self, horizon_minutes: i64) -> (h: u64)
        ensures
            h == (if self.minimum_history_hours >= ((div_toward_zero(horizon_minutes, 60) * 4) as u64) {
                self.minimum_history_hours
            } else {
                (div_toward_zero(horizon_minutes, 60) * 4) as u64
            }),
    {
        let hours = (horizon_minutes / 60 * 4) as u64;
        if self.minimum_history_hours >= hours {
            self.minimum_history_hours
        } else {
            hours
        }
    }
}

/// Builder for `PredictiveConfig`: what is not set takes the default.
#[derive(Debug, Clone, Copy)]
pub struct PredictiveConfigBuilder {
    forecast_horizon_minutes: Option<u64>,
    minimum_history_hours: Option<u64>,
    model: Option<ForecastModel>,
    confidence_threshold: Option<MetricValue>,
    update_interval_minutes: Option<u64>,
    enable_seasonality: Option<bool>,
    enable_anomaly_detection: Option<bool>,
    proactive_lead_time_minutes: Option<u64>,
    cache_forecasts: Option<bool>,
}

/// The settings a predictive configuration builder has received.
pub struct PredictiveChoices {
    pub forecast_horizon_minutes: Option<u64>,
    pub minimum_history_hours: Option<u64>,
    pub model: Option<ForecastModel>,
    pub confidence_threshold: Option<MetricValue>,
    pub update_interval_minutes: Option<u64>,
    pub enable_seasonality: Option<bool>,
    pub enable_anomaly_detection: Option<bool>,
    pub proactive_lead_time_minutes: Option<u64>,
    pub cache_forecasts: Option<bool>,
}

impl View for PredictiveConfigBuilder {
    type V = PredictiveChoices;

    closed spec fn view(&self) -> PredictiveChoices {
        PredictiveChoices {
            forecast_horizon_minutes: self.forecast_horizon_minutes,
            minimum_history_hours: self.minimum_history_hours,
            model: self.model,
            confidence_threshold: self.confidence_threshold,
            update_interval_minutes: self.update_interval_minutes,
            enable_seasonality: self.enable_seasonality,
            enable_anomaly_detection: self.enable_anomaly_detection,
            proactive_lead_time_minutes: self.proactive_lead_time_minutes,
            cache_forecasts: self.cache_forecasts,
        }
    }
}

impl Default for PredictiveConfigBuilder {
    fn default() -> (b: Self)
        ensures
            b@.is_empty(),
    {
        PredictiveConfigBuilder {
            forecast_horizon_minutes: None,
            minimum_history_hours: None,
            model: None,
            confidence_threshold: None,
            update_interval_minutes: None,
            enable_seasonality: None,
            enable_anomaly_detection: None,
            proactive_lead_time_minutes: None,
            cache_forecasts: None,
        }
    }
}

/// `v` limited to the range from 0.0 to 1.0 (a NaN stays NaN).
pub open spec fn clamp_unit(v: MetricValue) -> MetricValue {
    if v.less_than(MetricValue { bits: ZERO_BITS }) {
        MetricValue { bits: ZERO_BITS }
    } else if v.greater_than(MetricValue { bits: ONE_BITS }) {
        MetricValue { bits: ONE_BITS }
    } else {
        v
    }
}

/// A confidence threshold as set by the builder lies between 0.0 and 1.0,
/// unless it is NaN.
pub proof fn law_clamped_threshold_in_unit_range(v: MetricValue)
    ensures
        !clamp_unit(v).is_nan() ==> (MetricValue { bits: ZERO_BITS }).order_key() <= clamp_unit(
            v,
        ).order_key() <= (MetricValue { bits: ONE_BITS }).order_key(),
        v.is_nan() == clamp_unit(v).is_nan(),
{
}

/// The value an option holds, or the default.
pub open spec fn or_default<T>(o: Option<T>, d: T) -> T {
    match o {
        Some(v) => v,
        None => d,
    }
}

impl PredictiveChoices {
    /// Nothing is set.
    pub open spec fn is_empty(self) -> bool {
        &&& self.forecast_horizon_minutes is None
        &&& self.minimum_history_hours is None
        &&& self.model is None
        &&& self.confidence_threshold is None
        &&& self.update_interval_minutes is None
        &&& self.enable_seasonality is None
        &&& self.enable_anomaly_detection is None
        &&& self.proactive_lead_time_minutes is None
        &&& self.cache_forecasts is None
    }
}

impl PredictiveConfigBuilder {
    /// Sets the forecast horizon in minutes; nothing else changes.
    pub fn forecast_horizon_minutes(self, minutes: u64) -> (b: Self)
        ensures
            b@ == (PredictiveChoices { forecast_horizon_minutes: Some(minutes), ..self@ }),
    {
        PredictiveConfigBuilder { forecast_horizon_minutes: Some(minutes), ..self }
    }

    /// Sets the minimum history in hours; nothing else changes.
    pub fn minimum_history_hours(self, hours: u64) -> (b: Self)
        ensures
            b@ == (PredictiveChoices { minimum_history_hours: Some(hours), ..self@ }),
    {
        PredictiveConfigBuilder { minimum_history_hours: Some(hours), ..self }
    }

    /// Sets the forecasting model; nothing else changes.
    pub fn model(self, model: ForecastModel) -> (b: Self)
        ensures
            b@ == (PredictiveChoices { model: Some(model), ..self@ }),
    {
        PredictiveConfigBuilder { model: Some(model), ..self }
    }

    /// Sets the confidence threshold, limited to the range from 0.0 to 1.0;
    /// nothing else changes.
    pub fn confidence_threshold(self, threshold: MetricValue) -> (b: Self)
        ensures
            b@ == (PredictiveChoices { confidence_threshold: Some(clamp_unit(threshold)), ..self@ }),
    {
        let zero = MetricValue::from_bits(ZERO_BITS);
        let one = MetricValue::from_bits(ONE_BITS);
        let clamped = threshold.clamp(&zero, &one);
        PredictiveConfigBuilder { confidence_threshold: Some(clamped), ..self }
    }

    /// Sets the update interval in minutes; nothing else changes.
    pub fn update_interval_minutes(self, minutes: u64) -> (b: Self)
        ensures
            b@ == (PredictiveChoices { update_interval_minutes: Some(minutes), ..self@ }),
    {
        PredictiveConfigBuilder { update_interval_minutes: Some(minutes), ..self }
    }

    /// Turns seasonality detection on or off; nothing else changes.
    pub fn enable_seasonality(self, enable: bool) -> (b: Self)
        ensures
            b@ == (PredictiveChoices { enable_seasonality: Some(enable), ..self@ }),
    {
        PredictiveConfigBuilder { enable_seasonality: Some(enable), ..self }
    }

    /// Turns anomaly detection on or off; nothing else changes.
    pub fn enable_anomaly_detection(self, enable: bool) -> (b: Self)
        ensures
            b@ == (PredictiveChoices { enable_anomaly_detection: Some(enable), ..self@ }),
    {
        PredictiveConfigBuilder { enable_anomaly_detection: Some(enable), ..self }
    }

    /// Sets the proactive lead time in minutes; nothing else changes.
    pub fn proactive_lead_time_minutes(self, minutes: u64) -> (b: Self)
        ensures
            b@ == (PredictiveChoices { proactive_lead_time_minutes: Some(minutes), ..self@ }),
    {
        PredictiveConfigBuilder { proactive_lead_time_minutes: Some(minutes), ..self }
    }

    /// Turns forecast caching on or off; nothing else changes.
    pub fn cache_forecasts(self, enable: bool) -> (b: Self)
        ensures
            b@ == (PredictiveChoices { cache_forecasts: Some(enable), ..self@ }),
    {
        PredictiveConfigBuilder { cache_forecasts: Some(enable), ..self }
    }

    /// The configuration: each setting as set, or its default.
    pub fn build(self) -> (c: PredictiveConfig)
        ensures
            c == (PredictiveConfig {
                forecast_horizon_minutes: or_default(
                    self@.forecast_horizon_minutes,
                    default_predictive_config().forecast_horizon_minutes,
                ),
                minimum_history_hours: or_default(
                    self@.minimum_history_hours,
                    default_predictive_config().minimum_history_hours,
                ),
                model: or_default(self@.model, default_predictive_config().model),
                confidence_threshold: or_default(
                    self@.confidence_threshold,
                    default_predictive_config().confidence_threshold,
                ),
                update_interval_minutes: or_default(
                    self@.update_interval_minutes,
                    default_predictive_config().update_interval_minutes,
                ),
                enable_seasonality: or_default(
                    self@.enable_seasonality,
                    default_predictive_config().enable_seasonality,
                ),
                enable_anomaly_detection: or_default(
                    self@.enable_anomaly_detection,
                    default_predictive_config().enable_anomaly_detection,
                ),
                proactive_lead_time_minutes: or_default(
                    self@.proactive_lead_time_minutes,
                    default_predictive_config().proactive_lead_time_minutes,
                ),
                cache_forecasts: or_default(
                    self@.cache_forecasts,
                    default_predictive_config().cache_forecasts,
                ),
            }),
    {
        let d = PredictiveConfig::default();
        PredictiveConfig {
            forecast_horizon_minutes: match self.forecast_horizon_minutes {
                Some(v) => v,
                None => d.forecast_horizon_minutes,
            },
            minimum_history_hours: match self.minimum_history_hours {
                Some(v) => v,
                None => d.minimum_history_hours,
            },
            model: match self.model {
                Some(v) => v,
                None => d.model,
            },
            confidence_threshold: match self.confidence_threshold {
                Some(v) => v,
                None => d.confidence_threshold,
            },
            update_interval_minutes: match self.update_interval_minutes {
                Some(v) => v,
                None => d.update_interval_minutes,
            },
            enable_seasonality: match self.enable_seasonality {
                Some(v) => v,
                None => d.enable_seasonality,
            },
            enable_anomaly_detection: match self.enable_anomaly_detection {
                Some(v) => v,
                None => d.enable_anomaly_detection,
            },
            proactive_lead_time_minutes: match self.proactive_lead_time_minutes {
                Some(v) => v,
                None => d.proactive_lead_time_minutes,
            },
            cache_forecasts: match self.cache_forecasts {
                Some(v) => v,
                None => d.cache_forecasts,
            },
        }
    }
}

/// A forecast needs at least this many data points of history.
pub const MIN_FORECAST_POINTS: usize = 10;

} // verus!
