//! Lighthouse: autoscaling decisions for any kind of resource.
//!
//! The library holds the configuration of an autoscaler (policies of
//! thresholds on named metrics, with cooldowns), evaluates the latest metrics
//! of each resource against them, and keeps the engine's decision state:
//! which metrics were accepted, when each resource last scaled, and what the
//! status reports. Metric values are held as IEEE-754 encodings and compared
//! as IEEE-754 compares them.

pub mod callbacks;
pub mod engine;
pub mod error;
pub mod persistence;
pub mod policies;
pub mod predictive;
pub mod strmap;
pub mod types;
pub mod utils;
pub mod value;

pub use callbacks::CallbackContext;
pub use engine::{CooldownTracker, EngineCommand, EngineState, EngineStatus};
pub use error::{LighthouseError, LighthouseResult};
pub use persistence::{
    AggregationLevel, HistoricalDataPoint, MetricsQuery, MetricsStoreConfig,
    MetricsStoreConfigBuilder, RetentionPolicy, StoreStatistics, TrendDirection,
};
pub use predictive::{ForecastModel, PredictiveConfig, PredictiveConfigBuilder};
pub use strmap::StrMap;
pub use types::{
    CompositeLogic, CompositePolicy, LighthouseConfig, LighthouseConfigBuilder, ResourceConfig,
    ResourceId, ResourceMetrics, ScaleAction, ScaleDirection, ScaleFactor, ScaleReason,
    ScalingPolicy, ScalingThreshold, TimeBasedPolicy, TimeSchedule, Timestamp,
};
pub use value::MetricValue;
