use vstd::prelude::*;

pub mod evaluation;

use crate::types::{
    CompositeLogic, CompositePolicy, ScalingPolicy, ScalingThreshold, TimeBasedPolicy, TimeSchedule,
};
use crate::value::MetricValue;

verus! {

/// `t` watches `metric_name` with the given thresholds, factor and cooldown,
/// and carries no confidence of its own.
pub open spec fn is_threshold(
    t: ScalingThreshold,
    metric_name: Seq<char>,
    scale_up_threshold: MetricValue,
    scale_down_threshold: MetricValue,
    scale_factor: MetricValue,
    cooldown_seconds: u64,
) -> bool {
    &&& t.metric_name@ == metric_name
    &&& t.scale_up_threshold == scale_up_threshold
    &&& t.scale_down_threshold == scale_down_threshold
    &&& t.scale_factor == scale_factor
    &&& t.cooldown_seconds == cooldown_seconds
    &&& t.confidence is None
}

/// `p` is an enabled policy named `name` without capacity limits, with the
/// single threshold described by the rest.
pub open spec fn is_single_threshold_policy(
    p: ScalingPolicy,
    name: Seq<char>,
    metric_name: Seq<char>,
    scale_up_threshold: MetricValue,
    scale_down_threshold: MetricValue,
    scale_factor: MetricValue,
    cooldown_seconds: u64,
) -> bool {
    &&& p.name@ == name
    &&& p.thresholds@.len() == 1
    &&& is_threshold(
        p.thresholds@[0],
        metric_name,
        scale_up_threshold,
        scale_down_threshold,
        scale_factor,
        cooldown_seconds,
    )
    &&& p.min_capacity is None
    &&& p.max_capacity is None
    &&& p.enabled
}

fn new_threshold(
    metric_name: &str,
    scale_up_threshold: MetricValue,
    scale_down_threshold: MetricValue,
    scale_factor: MetricValue,
    cooldown_seconds: u64,
) -> (t: ScalingThreshold)
    ensures
        is_threshold(
            t,
            metric_name@,
            scale_up_threshold,
            scale_down_threshold,
            scale_factor,
            cooldown_seconds,
        ),
{
    ScalingThreshold {
        metric_name: metric_name.to_string(),
        scale_up_threshold,
        scale_down_threshold,
        scale_factor,
        cooldown_seconds,
        confidence: None,
    }
}

fn single_threshold_policy(
    name: &str,
    metric_name: &str,
    scale_up_threshold: MetricValue,
    scale_down_threshold: MetricValue,
    scale_factor: MetricValue,
    cooldown_seconds: u64,
) -> (p: ScalingPolicy)
    ensures
        is_single_threshold_policy(
            p,
            name@,
            metric_name@,
            scale_up_threshold,
            scale_down_threshold,
            scale_factor,
            cooldown_seconds,
        ),
{
    let t = new_threshold(
        metric_name,
        scale_up_threshold,
        scale_down_threshold,
        scale_factor,
        cooldown_seconds,
    );
    ScalingPolicy {
        name: name.to_string(),
        thresholds: vec![t],
        min_capacity: None,
        max_capacity: None,
        enabled: true,
    }
}

/// A policy named "cpu-scaling" with one threshold on "cpu_percent".
pub fn cpu_scaling_policy(
    scale_up_threshold: MetricValue,
    scale_down_threshold: MetricValue,
    scale_factor: MetricValue,
    cooldown_seconds: u64,
) -> (p: ScalingPolicy)
    ensures
        is_single_threshold_policy(
            p,
            "cpu-scaling"@,
            "cpu_percent"@,
            scale_up_threshold,
            scale_down_threshold,
            scale_factor,
            cooldown_seconds,
        ),
{
    single_threshold_policy(
        "cpu-scaling",
        "cpu_percent",
        scale_up_threshold,
        scale_down_threshold,
        scale_factor,
        cooldown_seconds,
    )
}

/// A policy named "memory-scaling" with one threshold on "memory_percent".
pub fn memory_scaling_policy(
    scale_up_threshold: MetricValue,
    scale_down_threshold: MetricValue,
    scale_factor: MetricValue,
    cooldown_seconds: u64,
) -> (p: ScalingPolicy)
    ensures
        is_single_threshold_policy(
            p,
            "memory-scaling"@,
            "memory_percent"@,
            scale_up_threshold,
            scale_down_threshold,
            scale_factor,
            cooldown_seconds,
        ),
{
    single_threshold_policy(
        "memory-scaling",
        "memory_percent",
        scale_up_threshold,
        scale_down_threshold,
        scale_factor,
        cooldown_seconds,
    )
}

/// A policy named "request-rate-scaling" with one threshold on
/// "requests_per_second".
pub fn request_rate_scaling_policy(
    scale_up_threshold: MetricValue,
    scale_down_threshold: MetricValue,
    scale_factor: MetricValue,
    cooldown_seconds: u64,
) -> (p: ScalingPolicy)
    ensures
        is_single_threshold_policy(
            p,
            "request-rate-scaling"@,
            "requests_per_second"@,
            scale_up_threshold,
            scale_down_threshold,
            scale_factor,
            cooldown_seconds,
        ),
{
    single_threshold_policy(
        "request-rate-scaling",
        "requests_per_second",
        scale_up_threshold,
        scale_down_threshold,
        scale_factor,
        cooldown_seconds,
    )
}

/// A policy with a "cpu_percent" threshold followed by a "memory_percent"
/// threshold; each pair is (scale-up, scale-down).
pub fn multi_metric_policy(
    name: &str,
    cpu_threshold: (MetricValue, MetricValue),
    memory_threshold: (MetricValue, MetricValue),
    scale_factor: MetricValue,
    cooldown_seconds: u64,
) -> (p: ScalingPolicy)
    ensures
        p.name@ == name@,
        p.thresholds@.len() == 2,
        is_threshold(
            p.thresholds@[0],
            "cpu_percent"@,
            cpu_threshold.0,
            cpu_threshold.1,
            scale_factor,
            cooldown_seconds,
        ),
        is_threshold(
            p.thresholds@[1],
            "memory_percent"@,
            memory_threshold.0,
            memory_threshold.1,
            scale_factor,
            cooldown_seconds,
        ),
        p.min_capacity is None,
        p.max_capacity is None,
        p.enabled,
{
    let cpu = new_threshold(
        "cpu_percent",
        cpu_threshold.0,
        cpu_threshold.1,
        scale_factor,
        cooldown_seconds,
    );
    let memory = new_threshold(
        "memory_percent",
        memory_threshold.0,
        memory_threshold.1,
        scale_factor,
        cooldown_seconds,
    );
    ScalingPolicy {
        name: name.to_string(),
        thresholds: vec![cpu, memory],
        min_capacity: None,
        max_capacity: None,
        enabled: true,
    }
}

/// `c` is an enabled, unscheduled composite policy named `name` over
/// `policies`.
pub open spec fn is_composite(c: CompositePolicy, name: Seq<char>, policies: Seq<ScalingPolicy>) -> bool {
    &&& c.name@ == name
    &&& c.policies@ == policies
    &&& c.schedule is None
    &&& c.enabled
}

/// A composite policy in which all policies must agree to trigger scaling.
pub fn composite_and_policy(name: &str, policies: Vec<ScalingPolicy>) -> (c: CompositePolicy)
    ensures
        is_composite(c, name@, policies@),
        c.logic is AllMustTrigger,
{
    CompositePolicy {
        name: name.to_string(),
        policies,
        logic: CompositeLogic::AllMustTrigger,
        schedule: None,
        enabled: true,
    }
}

/// A composite policy in which any policy can trigger scaling.
pub fn composite_or_policy(name: &str, policies: Vec<ScalingPolicy>) -> (c: CompositePolicy)
    ensures
        is_composite(c, name@, policies@),
        c.logic is AnyCanTrigger,
{
    CompositePolicy {
        name: name.to_string(),
        policies,
        logic: CompositeLogic::AnyCanTrigger,
        schedule: None,
        enabled: true,
    }
}

/// A composite policy in which more than half of the policies must agree.
pub fn composite_majority_policy(name: &str, policies: Vec<ScalingPolicy>) -> (c: CompositePolicy)
    ensures
        is_composite(c, name@, policies@),
        c.logic is Majority,
{
    CompositePolicy {
        name: name.to_string(),
        policies,
        logic: CompositeLogic::Majority,
        schedule: None,
        enabled: true,
    }
}

/// A composite policy with one weight per policy.
pub fn composite_weighted_policy(
    name: &str,
    policies: Vec<ScalingPolicy>,
    weights: Vec<MetricValue>,
) -> (c: CompositePolicy)
    requires
        policies@.len() == weights@.len(),
    ensures
        is_composite(c, name@, policies@),
        c.logic matches CompositeLogic::Weighted(w) && w@ == weights@,
{
    CompositePolicy {
        name: name.to_string(),
        policies,
        logic: CompositeLogic::Weighted(weights),
        schedule: None,
        enabled: true,
    }
}

/// 1.5
pub const CPU_TIER_FACTOR_BITS: u64 = 0x3FF8_0000_0000_0000;

/// 1.4
pub const MEMORY_TIER_FACTOR_BITS: u64 = 0x3FF6_6666_6666_6666;

/// 1.6
pub const REQUEST_TIER_FACTOR_BITS: u64 = 0x3FF9_9999_9999_999A;

/// 0.4
pub const CPU_TIER_WEIGHT_BITS: u64 = 0x3FD9_9999_9999_999A;

/// 0.4
pub const MEMORY_TIER_WEIGHT_BITS: u64 = 0x3FD9_9999_9999_999A;

/// 0.2
pub const REQUEST_TIER_WEIGHT_BITS: u64 = 0x3FC9_9999_9999_999A;

/// A weighted composite of a CPU policy (factor 1.5, weight 0.4), a memory
/// policy (factor 1.4, weight 0.4) and a request-rate policy (factor 1.6,
/// weight 0.2) that reacts in half the cooldown (rounded down). Each pair of
/// thresholds is (scale-up, scale-down).
pub fn advanced_multi_tier_policy(
    name: &str,
    cpu_thresholds: (MetricValue, MetricValue),
    memory_thresholds: (MetricValue, MetricValue),
    request_thresholds: (MetricValue, MetricValue),
    cooldown_seconds: u64,
) -> (c: CompositePolicy)
    ensures
        c.name@ == name@,
        c.schedule is None,
        c.enabled,
        c.policies@.len() == 3,
        is_single_threshold_policy(
            c.policies@[0],
            "cpu-scaling"@,
            "cpu_percent"@,
            cpu_thresholds.0,
            cpu_thresholds.1,
            MetricValue { bits: CPU_TIER_FACTOR_BITS },
            cooldown_seconds,
        ),
        is_single_threshold_policy(
            c.policies@[1],
            "memory-scaling"@,
            "memory_percent"@,
            memory_thresholds.0,
            memory_thresholds.1,
            MetricValue { bits: MEMORY_TIER_FACTOR_BITS },
            cooldown_seconds,
        ),
        is_single_threshold_policy(
            c.policies@[2],
            "request-rate-scaling"@,
            "requests_per_second"@,
            request_thresholds.0,
            request_thresholds.1,
            MetricValue { bits: REQUEST_TIER_FACTOR_BITS },
            cooldown_seconds / 2,
        ),
        c.logic matches CompositeLogic::Weighted(w) && w@ == seq![
            MetricValue { bits: CPU_TIER_WEIGHT_BITS },
            MetricValue { bits: MEMORY_TIER_WEIGHT_BITS },
            MetricValue { bits: REQUEST_TIER_WEIGHT_BITS },
        ],
{
    let cpu_policy = cpu_scaling_policy(
        cpu_thresholds.0,
        cpu_thresholds.1,
        MetricValue::from_bits(CPU_TIER_FACTOR_BITS),
        cooldown_seconds,
    );
    let memory_policy = memory_scaling_policy(
        memory_thresholds.0,
        memory_thresholds.1,
        MetricValue::from_bits(MEMORY_TIER_FACTOR_BITS),
        cooldown_seconds,
    );
    let request_policy = request_rate_scaling_policy(
        request_thresholds.0,
        request_thresholds.1,
        MetricValue::from_bits(REQUEST_TIER_FACTOR_BITS),
        cooldown_seconds / 2,
    );
    composite_weighted_policy(
        name,
        vec![cpu_policy, memory_policy, request_policy],
        vec![
            MetricValue::from_bits(CPU_TIER_WEIGHT_BITS),
            MetricValue::from_bits(MEMORY_TIER_WEIGHT_BITS),
            MetricValue::from_bits(REQUEST_TIER_WEIGHT_BITS),
        ],
    )
}

// ---------------------------------------------------------------------------
// Schedules
// ---------------------------------------------------------------------------

/// `s` is the schedule from `start_time` to `end_time` on the given days in
/// the given time zone.
pub open spec fn is_schedule(
    s: TimeSchedule,
    start_time: Seq<char>,
    end_time: Seq<char>,
    days_of_week: Seq<u8>,
    timezone: Option<Seq<char>>,
) -> bool {
    &&& s.start_time@ == start_time
    &&& s.end_time@ == end_time
    &&& s.days_of_week@ == days_of_week
    &&& match timezone {
        Some(tz) => s.timezone is Some && s.timezone->0@ == tz,
        None => s.timezone is None,
    }
}

/// The view of an optional time zone name.
pub open spec fn timezone_view(timezone: Option<&str>) -> Option<Seq<char>> {
    match timezone {
        Some(tz) => Some(tz@),
        None => None,
    }
}

/// A schedule from `start_time` to `end_time` ("HH:MM") on the given days
/// (0 = Sunday .. 6 = Saturday).
pub fn time_schedule(
    start_time: &str,
    end_time: &str,
    days_of_week: Vec<u8>,
    timezone: Option<&str>,
) -> (s: TimeSchedule)
    ensures
        is_schedule(s, start_time@, end_time@, days_of_week@, timezone_view(timezone)),
{
    let tz = match timezone {
        Some(tz) => Some(tz.to_string()),
        None => None,
    };
    TimeSchedule {
        start_time: start_time.to_string(),
        end_time: end_time.to_string(),
        days_of_week,
        timezone: tz,
    }
}

/// Business hours: 09:00 to 17:00, Monday to Friday.
pub fn business_hours_schedule(timezone: Option<&str>) -> (s: TimeSchedule)
    ensures
        is_schedule(s, "09:00"@, "17:00"@, seq![1u8, 2, 3, 4, 5], timezone_view(timezone)),
{
    time_schedule("09:00", "17:00", vec![1, 2, 3, 4, 5], timezone)
}

/// The weekend: 00:00 to 23:59, Saturday and Sunday.
pub fn weekend_schedule(timezone: Option<&str>) -> (s: TimeSchedule)
    ensures
        is_schedule(s, "00:00"@, "23:59"@, seq![0u8, 6], timezone_view(timezone)),
{
    time_schedule("00:00", "23:59", vec![0, 6], timezone)
}

/// Every day from 00:00 to 23:59.
pub fn always_active_schedule(timezone: Option<&str>) -> (s: TimeSchedule)
    ensures
        is_schedule(s, "00:00"@, "23:59"@, seq![0u8, 1, 2, 3, 4, 5, 6], timezone_view(timezone)),
{
    time_schedule("00:00", "23:59", vec![0, 1, 2, 3, 4, 5, 6], timezone)
}

/// An enabled time-based policy.
pub fn time_based_policy(
    name: &str,
    scheduled_policies: Vec<(TimeSchedule, ScalingPolicy)>,
    default_policy: Option<ScalingPolicy>,
) -> (p: TimeBasedPolicy)
    ensures
        p.name@ == name@,
        p.scheduled_policies@ == scheduled_policies@,
        p.default_policy == default_policy,
        p.enabled,
{
    TimeBasedPolicy { name: name.to_string(), scheduled_policies, default_policy, enabled: true }
}

/// A time-based policy with one policy for business hours (09:00 to 17:00,
/// Monday to Friday) and one for after hours (17:01 to 08:59, Monday to
/// Friday), and no default policy.
pub fn business_hours_scaling_policy(
    name: &str,
    business_hours_policy: ScalingPolicy,
    after_hours_policy: ScalingPolicy,
    timezone: Option<&str>,
) -> (p: TimeBasedPolicy)
    ensures
        p.name@ == name@,
        p.scheduled_policies@.len() == 2,
        is_schedule(
            p.scheduled_policies@[0].0,
            "09:00"@,
            "17:00"@,
            seq![1u8, 2, 3, 4, 5],
            timezone_view(timezone),
        ),
        p.scheduled_policies@[0].1 == business_hours_policy,
        is_schedule(
            p.scheduled_policies@[1].0,
            "17:01"@,
            "08:59"@,
            seq![1u8, 2, 3, 4, 5],
            timezone_view(timezone),
        ),
        p.scheduled_policies@[1].1 == after_hours_policy,
        p.default_policy is None,
        p.enabled,
{
    let business_schedule = business_hours_schedule(timezone);
    let after_hours_schedule = time_schedule("17:01", "08:59", vec![1, 2, 3, 4, 5], timezone);
    time_based_policy(
        name,
        vec![(business_schedule, business_hours_policy), (after_hours_schedule, after_hours_policy)],
        None,
    )
}

} // verus!
