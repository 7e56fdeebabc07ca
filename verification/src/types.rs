use vstd::prelude::*;

use crate::strmap::StrMap;
use crate::value::MetricValue;

verus! {

/// Unique identifier for a resource (e.g., "web-servers", "database-pool").
pub type ResourceId = String;

/// Unix timestamp in seconds.
pub type Timestamp = u64;

/// Metrics for a specific resource at a point in time.
#[derive(Debug, Clone)]
pub struct ResourceMetrics {
    /// Unique identifier for this resource.
    pub resource_id: ResourceId,
    /// Type of resource (e.g., "kubernetes-deployment", "ec2-asg", "database").
    pub resource_type: String,
    /// When these metrics were collected.
    pub timestamp: Timestamp,
    /// Metric names and their values (e.g., "cpu_percent" -> 75.5).
    pub metrics: StrMap<MetricValue>,
}

/// Direction to scale a resource.
#[derive(Debug, Clone, Copy, PartialEq, Eq, Structural)]
pub enum ScaleDirection {
    /// Scale up (add resources).
    Up,
    /// Scale down (remove resources).
    Down,
    /// Keep current scale.
    Maintain,
}

/// The multiplier of a scaling action.
#[derive(Debug, Clone, Copy, PartialEq, Eq, Structural)]
pub enum ScaleFactor {
    /// Multiply the capacity by the value.
    Times(MetricValue),
    /// Multiply the capacity by the reciprocal of the value.
    Inverse(MetricValue),
}

/// Why a scaling action was recommended.
#[derive(Debug, Clone)]
pub enum ScaleReason {
    /// A metric exceeded its scale-up threshold.
    ExceededScaleUp { metric_name: String, value: MetricValue, threshold: MetricValue },
    /// A metric fell below its scale-down threshold.
    BelowScaleDown { metric_name: String, value: MetricValue, threshold: MetricValue },
    /// A reason given as text.
    Text(String),
}

/// A scaling recommendation.
#[derive(Debug, Clone)]
pub struct ScaleAction {
    /// Which resource to scale.
    pub resource_id: ResourceId,
    /// Type of resource being scaled.
    pub resource_type: String,
    /// Direction to scale.
    pub direction: ScaleDirection,
    /// Specific target (e.g., number of instances).
    pub target_capacity: Option<u32>,
    /// Multiplier for scaling.
    pub scale_factor: Option<ScaleFactor>,
    /// Explanation of the recommendation.
    pub reason: ScaleReason,
    /// How confident the engine is (0.0 = uncertain, 1.0 = very confident).
    pub confidence: MetricValue,
    /// When this recommendation was generated.
    pub timestamp: Timestamp,
    /// Metadata for the scaling action.
    pub metadata: StrMap<String>,
}

/// When and how to scale on one metric.
#[derive(Debug, Clone)]
pub struct ScalingThreshold {
    /// The metric to watch (e.g., "cpu_percent").
    pub metric_name: String,
    /// Scale up when the metric goes above this value.
    pub scale_up_threshold: MetricValue,
    /// Scale down when the metric goes below this value.
    pub scale_down_threshold: MetricValue,
    /// How much to scale by (e.g., 1.5 = increase by 50%).
    pub scale_factor: MetricValue,
    /// Minimum time between scaling actions (prevents flapping).
    pub cooldown_seconds: u64,
    /// Confidence level for scaling actions (0.0 to 1.0).
    pub confidence: Option<MetricValue>,
}

/// A scaling policy that combines several thresholds.
#[derive(Debug, Clone)]
pub struct ScalingPolicy {
    /// Name of this policy (e.g., "aggressive-cpu-scaling").
    pub name: String,
    /// Thresholds to evaluate, in order.
    pub thresholds: Vec<ScalingThreshold>,
    /// Minimum number of instances/capacity.
    pub min_capacity: Option<u32>,
    /// Maximum number of instances/capacity.
    pub max_capacity: Option<u32>,
    /// Whether this policy is currently active.
    pub enabled: bool,
}

/// Configuration for a specific resource type.
#[derive(Debug, Clone)]
pub struct ResourceConfig {
    /// Type identifier (e.g., "kubernetes-deployment").
    pub resource_type: String,
    /// Scaling policies for this resource type, in order of precedence.
    pub policies: Vec<ScalingPolicy>,
    /// Default policy to use if none specified.
    pub default_policy: Option<String>,
    /// Settings specific to this resource type.
    pub settings: StrMap<String>,
}

/// Main configuration of the engine.
#[derive(Debug, Clone)]
pub struct LighthouseConfig {
    /// How often to evaluate scaling decisions (seconds).
    pub evaluation_interval_seconds: u64,
    /// Configuration for each resource type.
    pub resource_configs: StrMap<ResourceConfig>,
    /// Settings that apply to all resources.
    pub global_settings: StrMap<String>,
    /// Whether to log scaling decisions.
    pub enable_logging: bool,
}

/// The default evaluation interval, in seconds.
pub const DEFAULT_EVALUATION_INTERVAL_SECONDS: u64 = 30;

impl LighthouseConfig {
    /// The default configuration: evaluation every 30 seconds, no resource
    /// configurations, no global settings, logging on.
    pub open spec fn is_default(self) -> bool {
        &&& self.evaluation_interval_seconds == DEFAULT_EVALUATION_INTERVAL_SECONDS
        &&& self.resource_configs@ == Map::<Seq<char>, ResourceConfig>::empty()
        &&& self.resource_configs.key_order() == Seq::<Seq<char>>::empty()
        &&& self.global_settings@ == Map::<Seq<char>, String>::empty()
        &&& self.global_settings.key_order() == Seq::<Seq<char>>::empty()
        &&& self.enable_logging
    }

    /// A builder that starts from the default configuration.
    pub fn builder() -> (b: LighthouseConfigBuilder)
        ensures
            b@.is_default(),
    {
        LighthouseConfigBuilder::new()
    }
}

/// The index of the first configuration at or after `i`, in the order the
/// configurations were added, that declares the resource type `t`.
pub open spec fn first_config_declaring(c: LighthouseConfig, t: Seq<char>, i: nat) -> Option<nat>
    decreases c.resource_configs.key_order().len() - i,
{
    if i >= c.resource_configs.key_order().len() {
        None
    } else if c.resource_configs@[c.resource_configs.key_order()[i as int]].resource_type@ == t {
        Some(i)
    } else {
        first_config_declaring(c, t, i + 1)
    }
}

/// The configuration that applies to resources of type `t`: the one stored
/// under that name; failing that, the first one added that declares that
/// type.
pub open spec fn resource_config_for(c: LighthouseConfig, t: Seq<char>) -> Option<ResourceConfig> {
    if c.resource_configs@.contains_key(t) {
        Some(c.resource_configs@[t])
    } else {
        match first_config_declaring(c, t, 0) {
            Some(i) => Some(c.resource_configs@[c.resource_configs.key_order()[i as int]]),
            None => None,
        }
    }
}

impl LighthouseConfig {
    /// The configuration that applies to resources of the given type (see
    /// `resource_config_for`).
    pub fn config_for_type(&self, resource_type: &String) -> (r: Option<&ResourceConfig>)
        ensures
            match resource_config_for(*self, resource_type@) {
                Some(rc) => r is Some && *r->0 == rc,
                None => r is None,
            },
    {
        match self.resource_configs.get(resource_type) {
            Some(rc) => return Some(rc),
            None => {},
        }
        let n = self.resource_configs.len();
        let mut i: usize = 0;
        while i < n
            invariant
                n == self.resource_configs.key_order().len(),
                n == self.resource_configs@.len(),
                !self.resource_configs@.contains_key(resource_type@),
                i <= n,
                first_config_declaring(*self, resource_type@, 0) == first_config_declaring(
                    *self,
                    resource_type@,
                    i as nat,
                ),
            decreases n - i,
        {
            let (_, rc) = self.resource_configs.entry_at(i);
            if rc.resource_type == *resource_type {
                proof {
                    assert(self.resource_configs@[self.resource_configs.key_order()[i as int]] == *rc);
                    assert(first_config_declaring(*self, resource_type@, i as nat) == Some(i as nat));
                }
                return Some(rc);
            }
            i = i + 1;
        }
        None
    }
}

impl Default for LighthouseConfig {
    fn default() -> (c: LighthouseConfig)
        ensures
            c.is_default(),
    {
        LighthouseConfig {
            evaluation_interval_seconds: DEFAULT_EVALUATION_INTERVAL_SECONDS,
            resource_configs: StrMap::new(),
            global_settings: StrMap::new(),
            enable_logging: true,
        }
    }
}

/// Builder for configurations.
#[derive(Debug)]
pub struct LighthouseConfigBuilder {
    config: LighthouseConfig,
}

impl View for LighthouseConfigBuilder {
    type V = LighthouseConfig;

    /// The configuration built so far.
    closed spec fn view(&self) -> LighthouseConfig {
        self.config
    }
}

impl LighthouseConfigBuilder {
    /// A builder that starts from the default configuration.
    pub fn new() -> (b: Self)
        ensures
            b@.is_default(),
    {
        LighthouseConfigBuilder { config: LighthouseConfig::default() }
    }

    /// Sets the evaluation interval; nothing else changes.
    pub fn evaluation_interval(self, seconds: u64) -> (b: Self)
        ensures
            b@ == (LighthouseConfig { evaluation_interval_seconds: seconds, ..self@ }),
    {
        let mut s = self;
        s.config.evaluation_interval_seconds = seconds;
        s
    }

    /// Stores the configuration for a resource type, replacing one stored
    /// under the same name; nothing else changes.
    pub fn add_resource_config(self, resource_type: &str, config: ResourceConfig) -> (b: Self)
        ensures
            b@.resource_configs@ == self@.resource_configs@.insert(resource_type@, config),
            b@.resource_configs.key_order() == (if self@.resource_configs@.contains_key(
                resource_type@,
            ) {
                self@.resource_configs.key_order()
            } else {
                self@.resource_configs.key_order().push(resource_type@)
            }),
            b@.evaluation_interval_seconds == self@.evaluation_interval_seconds,
            b@.global_settings == self@.global_settings,
            b@.enable_logging == self@.enable_logging,
    {
        let mut s = self;
        s.config.resource_configs.insert(resource_type.to_string(), config);
        s
    }

    /// Stores a global setting, replacing one stored under the same key;
    /// nothing else changes.
    pub fn global_setting(self, key: &str, value: &str) -> (b: Self)
        ensures
            b@.global_settings@.dom() == self@.global_settings@.dom().insert(key@),
            b@.global_settings@[key@]@ == value@,
            forall|k: Seq<char>|
                k != key@ && #[trigger] self@.global_settings@.contains_key(k)
                    ==> b@.global_settings@[k] == self@.global_settings@[k],
            b@.evaluation_interval_seconds == self@.evaluation_interval_seconds,
            b@.resource_configs == self@.resource_configs,
            b@.enable_logging == self@.enable_logging,
    {
        let mut s = self;
        s.config.global_settings.insert(key.to_string(), value.to_string());
        s
    }

    /// Turns logging on or off; nothing else changes.
    pub fn enable_logging(self, enabled: bool) -> (b: Self)
        ensures
            b@ == (LighthouseConfig { enable_logging: enabled, ..self@ }),
    {
        let mut s = self;
        s.config.enable_logging = enabled;
        s
    }

    /// The configuration built so far.
    pub fn build(self) -> (c: LighthouseConfig)
        ensures
            c == self@,
    {
        self.config
    }
}

/// How a composite policy combines the verdicts of its policies.
#[derive(Debug, Clone)]
pub enum CompositeLogic {
    /// All policies must agree to trigger scaling.
    AllMustTrigger,
    /// Any policy can trigger scaling.
    AnyCanTrigger,
    /// More than half of the policies must agree.
    Majority,
    /// Each policy has a weight; scaling triggers when the total weight is high enough.
    Weighted(Vec<MetricValue>),
}

/// A policy made of several policies.
#[derive(Debug, Clone)]
pub struct CompositePolicy {
    pub name: String,
    pub policies: Vec<ScalingPolicy>,
    pub logic: CompositeLogic,
    /// When the composite policy is active; always when absent.
    pub schedule: Option<TimeSchedule>,
    pub enabled: bool,
}

/// A daily time window on some days of the week.
#[derive(Debug, Clone)]
pub struct TimeSchedule {
    /// Start of the window, "HH:MM".
    pub start_time: String,
    /// End of the window, "HH:MM"; before the start, the window runs past midnight.
    pub end_time: String,
    /// Days on which the window applies, 0 = Sunday .. 6 = Saturday.
    pub days_of_week: Vec<u8>,
    /// Time zone name, if any.
    pub timezone: Option<String>,
}

/// A policy whose rules depend on the time of day.
#[derive(Debug, Clone)]
pub struct TimeBasedPolicy {
    pub name: String,
    /// Policies with the schedules in which they apply.
    pub scheduled_policies: Vec<(TimeSchedule, ScalingPolicy)>,
    /// Policy used outside all schedules.
    pub default_policy: Option<ScalingPolicy>,
    pub enabled: bool,
}

} // verus!
