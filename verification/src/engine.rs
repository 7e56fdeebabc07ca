use vstd::prelude::*;

use crate::error::LighthouseResult;
use crate::strmap::StrMap;
use crate::types::{
    resource_config_for, LighthouseConfig, ResourceMetrics, ScaleAction, ScaleDirection, ScaleFactor, ScaleReason,
    ScalingPolicy, ScalingThreshold,
};
use crate::utils::current_timestamp;
use crate::value::MetricValue;

verus! {

/// The confidence given to every threshold-based recommendation (0.8).
pub const DEFAULT_CONFIDENCE_BITS: u64 = 0x3FE9_9999_9999_999A;

// ---------------------------------------------------------------------------
// Cooldowns
// ---------------------------------------------------------------------------

/// Whether a resource last scaled at the times in `last` has waited out a
/// cooldown at time `now`: it never scaled, or `now` is at least the last
/// scaling time plus the cooldown.
pub open spec fn cooled_down(
    last: Map<Seq<char>, u64>,
    resource_id: Seq<char>,
    cooldown_seconds: u64,
    now: u64,
) -> bool {
    !last.contains_key(resource_id) || now >= last[resource_id] + cooldown_seconds
}

/// Tracks when each resource was last scaled, to prevent flapping.
#[derive(Debug)]
pub struct CooldownTracker {
    last_scale_time: StrMap<u64>,
}

impl View for CooldownTracker {
    type V = Map<Seq<char>, u64>;

    closed spec fn view(&self) -> Map<Seq<char>, u64> {
        self.last_scale_time@
    }
}

impl CooldownTracker {
    /// A tracker in which no resource has scaled.
    pub fn new() -> (t: Self)
        ensures
            t@ == Map::<Seq<char>, u64>::empty(),
    {
        CooldownTracker { last_scale_time: StrMap::new() }
    }

    /// Whether the resource has waited out the cooldown at time `now`.
    pub fn is_cooled_down_at(&self, resource_id: &String, cooldown_seconds: u64, now: u64) -> (b:
        bool)
        ensures
            b == cooled_down(self@, resource_id@, cooldown_seconds, now),
    {
        match self.last_scale_time.get(resource_id) {
            Some(last_time) => now >= *last_time && now - *last_time >= cooldown_seconds,
            None => true,
        }
    }

    /// Whether the resource has waited out the cooldown now, by the system
    /// clock. A resource that never scaled has always waited it out.
    pub fn is_cooled_down(&self, resource_id: &String, cooldown_seconds: u64) -> (b: bool)
        ensures
            !self@.contains_key(resource_id@) ==> b,
            exists|now: u64| b == cooled_down(self@, resource_id@, cooldown_seconds, now),
    {
        let now = current_timestamp();
        self.is_cooled_down_at(resource_id, cooldown_seconds, now)
    }

    /// Records that the resource scaled at time `now`.
    pub fn record_scale_action_at(&mut self, resource_id: &String, now: u64)
        ensures
            final(self)@ == old(self)@.insert(resource_id@, now),
    {
        self.last_scale_time.insert(resource_id.clone(), now);
    }

    /// Records that the resource scaled now, by the system clock.
    pub fn record_scale_action(&mut self, resource_id: &String)
        ensures
            exists|now: u64| final(self)@ == old(self)@.insert(resource_id@, now),
    {
        let now = current_timestamp();
        self.record_scale_action_at(resource_id, now);
    }
}

// ---------------------------------------------------------------------------
// Policy evaluation
// ---------------------------------------------------------------------------

/// What one threshold says of the metric values: scale up when the metric
/// exceeds the scale-up threshold, scale down when it is below the
/// scale-down threshold, nothing when it is absent or in between.
pub open spec fn threshold_direction(
    t: ScalingThreshold,
    values: Map<Seq<char>, MetricValue>,
) -> Option<ScaleDirection> {
    if !values.contains_key(t.metric_name@) {
        None
    } else if values[t.metric_name@].greater_than(t.scale_up_threshold) {
        Some(ScaleDirection::Up)
    } else if values[t.metric_name@].less_than(t.scale_down_threshold) {
        Some(ScaleDirection::Down)
    } else {
        None
    }
}

/// The index of the first threshold at or after `i` that says something.
pub open spec fn first_triggered(
    ts: Seq<ScalingThreshold>,
    values: Map<Seq<char>, MetricValue>,
    i: nat,
) -> Option<nat>
    decreases ts.len() - i,
{
    if i >= ts.len() {
        None
    } else if threshold_direction(ts[i as int], values) is Some {
        Some(i)
    } else {
        first_triggered(ts, values, i + 1)
    }
}

/// The threshold of a policy that decides, with its direction: the first
/// threshold, in order, whose metric is present and outside its band.
pub open spec fn policy_outcome(metrics: ResourceMetrics, policy: ScalingPolicy) -> Option<
    (nat, ScaleDirection),
> {
    match first_triggered(policy.thresholds@, metrics.metrics@, 0) {
        Some(i) => Some(
            (i, threshold_direction(policy.thresholds@[i as int], metrics.metrics@).unwrap()),
        ),
        None => None,
    }
}

/// `a` is the action that threshold `t` gives for `metrics` in direction
/// `dir` at time `now`.
pub open spec fn is_threshold_action(
    a: ScaleAction,
    metrics: ResourceMetrics,
    t: ScalingThreshold,
    dir: ScaleDirection,
    now: u64,
) -> bool {
    let value = metrics.metrics@[t.metric_name@];
    &&& a.resource_id == metrics.resource_id
    &&& a.resource_type == metrics.resource_type
    &&& a.direction == dir
    &&& a.target_capacity is None
    &&& a.scale_factor == Some(
        if dir == ScaleDirection::Up {
            ScaleFactor::Times(t.scale_factor)
        } else {
            ScaleFactor::Inverse(t.scale_factor)
        },
    )
    &&& a.reason == (if dir == ScaleDirection::Up {
        ScaleReason::ExceededScaleUp {
            metric_name: t.metric_name,
            value,
            threshold: t.scale_up_threshold,
        }
    } else {
        ScaleReason::BelowScaleDown {
            metric_name: t.metric_name,
            value,
            threshold: t.scale_down_threshold,
        }
    })
    &&& a.confidence == MetricValue { bits: DEFAULT_CONFIDENCE_BITS }
    &&& a.timestamp == now
    &&& a.metadata@ == Map::<Seq<char>, String>::empty()
}

/// `r` is what evaluating `policy` on `metrics` at `now` gives.
pub open spec fn is_policy_result(
    r: Option<ScaleAction>,
    metrics: ResourceMetrics,
    policy: ScalingPolicy,
    now: u64,
) -> bool {
    match policy_outcome(metrics, policy) {
        None => r is None,
        Some((i, dir)) => r is Some && is_threshold_action(
            r->0,
            metrics,
            policy.thresholds@[i as int],
            dir,
            now,
        ),
    }
}

/// The longest cooldown among the first `n` thresholds (0 when there are none).
pub open spec fn max_cooldown_upto(ts: Seq<ScalingThreshold>, n: nat) -> u64
    decreases n,
{
    if n == 0 || n > ts.len() {
        0
    } else {
        let rest = max_cooldown_upto(ts, (n - 1) as nat);
        if ts[n - 1].cooldown_seconds > rest {
            ts[n - 1].cooldown_seconds
        } else {
            rest
        }
    }
}

/// The longest cooldown among a policy's thresholds (0 when there are none).
pub open spec fn max_cooldown(ts: Seq<ScalingThreshold>) -> u64 {
    max_cooldown_upto(ts, ts.len())
}

proof fn lemma_max_cooldown_upto(ts: Seq<ScalingThreshold>, n: nat)
    requires
        n <= ts.len(),
    ensures
        forall|k: int| 0 <= k < n ==> max_cooldown_upto(ts, n) >= #[trigger] ts[k].cooldown_seconds,
        n == 0 ==> max_cooldown_upto(ts, n) == 0,
        n > 0 ==> exists|k: int|
            0 <= k < n && max_cooldown_upto(ts, n) == #[trigger] ts[k].cooldown_seconds,
    decreases n,
{
    if n > 0 {
        lemma_max_cooldown_upto(ts, (n - 1) as nat);
        let rest = max_cooldown_upto(ts, (n - 1) as nat);
        if ts[n - 1].cooldown_seconds > rest {
            assert(max_cooldown_upto(ts, n) == ts[n - 1].cooldown_seconds);
        } else if n > 1 {
            let k = choose|k: int|
                0 <= k < n - 1 && rest == #[trigger] ts[k].cooldown_seconds;
            assert(0 <= k < n && max_cooldown_upto(ts, n) == ts[k].cooldown_seconds);
        } else {
            assert(max_cooldown_upto(ts, n) == ts[0].cooldown_seconds);
        }
    }
}

/// A policy's cooldown is the longest cooldown of its thresholds: it is at
/// least the cooldown of every threshold and equals the cooldown of one of
/// them (0 when the policy has no thresholds).
pub proof fn law_policy_cooldown_is_longest(ts: Seq<ScalingThreshold>)
    ensures
        forall|k: int| 0 <= k < ts.len() ==> max_cooldown(ts) >= #[trigger] ts[k].cooldown_seconds,
        ts.len() == 0 ==> max_cooldown(ts) == 0,
        ts.len() > 0 ==> exists|k: int|
            0 <= k < ts.len() && max_cooldown(ts) == #[trigger] ts[k].cooldown_seconds,
{
    lemma_max_cooldown_upto(ts, ts.len());
}

/// The longest cooldown among the thresholds.
pub fn policy_cooldown(thresholds: &Vec<ScalingThreshold>) -> (c: u64)
    ensures
        c == max_cooldown(thresholds@),
        forall|k: int|
            0 <= k < thresholds@.len() ==> c >= #[trigger] thresholds@[k].cooldown_seconds,
        thresholds@.len() == 0 ==> c == 0,
        thresholds@.len() > 0 ==> exists|k: int|
            0 <= k < thresholds@.len() && c == #[trigger] thresholds@[k].cooldown_seconds,
{
    proof {
        law_policy_cooldown_is_longest(thresholds@);
    }
    let mut best: u64 = 0;
    let mut i: usize = 0;
    while i < thresholds.len()
        invariant
            i <= thresholds@.len(),
            best == max_cooldown_upto(thresholds@, i as nat),
        decreases thresholds@.len() - i,
    {
        if thresholds[i].cooldown_seconds > best {
            best = thresholds[i].cooldown_seconds;
        }
        i = i + 1;
    }
    best
}

/// What one threshold says of the metric values.
fn check_threshold(t: &ScalingThreshold, values: &StrMap<MetricValue>) -> (r: Option<
    ScaleDirection,
>)
    ensures
        r == threshold_direction(*t, values@),
{
    match values.get(&t.metric_name) {
        None => None,
        Some(v) => {
            if v.gt(&t.scale_up_threshold) {
                Some(ScaleDirection::Up)
            } else if v.lt(&t.scale_down_threshold) {
                Some(ScaleDirection::Down)
            } else {
                None
            }
        },
    }
}

/// Evaluates a policy against the metrics of a resource at time `now`: the
/// first threshold, in order, whose metric is present and above its scale-up
/// threshold gives a scale-up action, below its scale-down threshold a
/// scale-down action; when no threshold triggers there is no action.
pub fn evaluate_policy(metrics: &ResourceMetrics, policy: &ScalingPolicy, now: u64) -> (r: Option<
    ScaleAction,
>)
    ensures
        is_policy_result(r, *metrics, *policy, now),
{
    let mut i: usize = 0;
    while i < policy.thresholds.len()
        invariant
            i <= policy.thresholds@.len(),
            first_triggered(policy.thresholds@, metrics.metrics@, 0) == first_triggered(
                policy.thresholds@,
                metrics.metrics@,
                i as nat,
            ),
        decreases policy.thresholds@.len() - i,
    {
        let t = &policy.thresholds[i];
        match check_threshold(t, &metrics.metrics) {
            Some(dir) => {
                let value = *metrics.metrics.get(&t.metric_name).unwrap();
                let (scale_factor, reason) = if dir == ScaleDirection::Up {
                    (
                        ScaleFactor::Times(t.scale_factor),
                        ScaleReason::ExceededScaleUp {
                            metric_name: t.metric_name.clone(),
                            value,
                            threshold: t.scale_up_threshold,
                        },
                    )
                } else {
                    (
                        ScaleFactor::Inverse(t.scale_factor),
                        ScaleReason::BelowScaleDown {
                            metric_name: t.metric_name.clone(),
                            value,
                            threshold: t.scale_down_threshold,
                        },
                    )
                };
                return Some(
                    ScaleAction {
                        resource_id: metrics.resource_id.clone(),
                        resource_type: metrics.resource_type.clone(),
                        direction: dir,
                        target_capacity: None,
                        scale_factor: Some(scale_factor),
                        reason,
                        confidence: MetricValue::from_bits(DEFAULT_CONFIDENCE_BITS),
                        timestamp: now,
                        metadata: StrMap::new(),
                    },
                );
            },
            None => {},
        }
        i = i + 1;
    }
    None
}

// ---------------------------------------------------------------------------
// The engine
// ---------------------------------------------------------------------------

/// Status information about the engine.
#[derive(Debug, Clone, Copy, PartialEq, Eq, Structural)]
pub struct EngineStatus {
    pub is_running: bool,
    pub resources_tracked: usize,
    pub total_recommendations: u64,
    pub last_evaluation: Option<u64>,
}

/// The abstract state of an engine.
pub struct EngineView {
    /// The configuration in force.
    pub config: LighthouseConfig,
    /// The status reported to callers.
    pub status: EngineStatus,
    /// The latest accepted metrics of each resource.
    pub metrics: Map<Seq<char>, ResourceMetrics>,
    /// When each resource last scaled.
    pub last_scale_time: Map<Seq<char>, u64>,
}

/// Policy `p` recommends an action for resource `id` with metrics `m` at `now`:
/// it is enabled, one of its thresholds triggers, and the resource has waited
/// out the policy's longest cooldown.
pub open spec fn policy_fires(
    v: EngineView,
    id: Seq<char>,
    m: ResourceMetrics,
    p: ScalingPolicy,
    now: u64,
) -> bool {
    &&& p.enabled
    &&& policy_outcome(m, p) is Some
    &&& cooled_down(v.last_scale_time, id, max_cooldown(p.thresholds@), now)
}

/// The index of the first policy at or after `i` that fires.
pub open spec fn first_firing(
    v: EngineView,
    id: Seq<char>,
    m: ResourceMetrics,
    ps: Seq<ScalingPolicy>,
    now: u64,
    i: nat,
) -> Option<nat>
    decreases ps.len() - i,
{
    if i >= ps.len() {
        None
    } else if policy_fires(v, id, m, ps[i as int], now) {
        Some(i)
    } else {
        first_firing(v, id, m, ps, now, i + 1)
    }
}

/// The policy whose recommendation the engine gives for resource `id` at
/// `now`, with the metrics it is evaluated on: none when the resource has no
/// metrics or no configuration applies to its type; otherwise the first
/// policy of that configuration that fires, if any.
pub open spec fn recommending_policy(v: EngineView, id: Seq<char>, now: u64) -> Option<
    (ResourceMetrics, ScalingPolicy),
> {
    if !v.metrics.contains_key(id) {
        None
    } else {
        let m = v.metrics[id];
        match resource_config_for(v.config, m.resource_type@) {
            None => None,
            Some(rc) => match first_firing(v, id, m, rc.policies@, now, 0) {
                Some(i) => Some((m, rc.policies@[i as int])),
                None => None,
            },
        }
    }
}

/// `r` is the recommendation the engine in state `v` gives for `id` at `now`.
pub open spec fn is_recommendation(r: Option<ScaleAction>, v: EngineView, id: Seq<char>, now: u64) -> bool {
    match recommending_policy(v, id, now) {
        None => r is None,
        Some((m, p)) => is_policy_result(r, m, p, now),
    }
}

/// Policy `p` would act on resource `id` with metrics `m` at `now`, but the
/// resource has not yet waited out the policy's longest cooldown.
pub open spec fn policy_held_back(
    v: EngineView,
    id: Seq<char>,
    m: ResourceMetrics,
    p: ScalingPolicy,
    now: u64,
) -> bool {
    &&& p.enabled
    &&& policy_outcome(m, p) is Some
    &&& !cooled_down(v.last_scale_time, id, max_cooldown(p.thresholds@), now)
}

/// The indices, in order, of the policies among the first `n` that the
/// cooldown holds back.
pub open spec fn held_back_upto(
    v: EngineView,
    id: Seq<char>,
    m: ResourceMetrics,
    ps: Seq<ScalingPolicy>,
    now: u64,
    n: nat,
) -> Seq<nat>
    decreases n,
{
    if n == 0 {
        Seq::empty()
    } else {
        let rest = held_back_upto(v, id, m, ps, now, (n - 1) as nat);
        if policy_held_back(v, id, m, ps[n - 1], now) {
            rest.push((n - 1) as nat)
        } else {
            rest
        }
    }
}

/// `r` holds, in order, the actions that the cooldown held back when the
/// engine in state `v` evaluated resource `id` at `now`: the actions of the
/// policies it passed over because of their cooldown before reaching the
/// recommending policy (all such policies when none recommends). Empty when
/// the resource has no metrics or no configuration applies to its type.
pub open spec fn is_held_back(r: Seq<ScaleAction>, v: EngineView, id: Seq<char>, now: u64) -> bool {
    if !v.metrics.contains_key(id) {
        r.len() == 0
    } else {
        let m = v.metrics[id];
        match resource_config_for(v.config, m.resource_type@) {
            None => r.len() == 0,
            Some(rc) => {
                let ps = rc.policies@;
                let end = match first_firing(v, id, m, ps, now, 0) {
                    Some(j) => j,
                    None => ps.len(),
                };
                let idx = held_back_upto(v, id, m, ps, now, end);
                &&& r.len() == idx.len()
                &&& forall|k: int|
                    0 <= k < r.len() ==> is_policy_result(
                        Some(#[trigger] r[k]),
                        m,
                        ps[idx[k] as int],
                        now,
                    )
            },
        }
    }
}

/// The state after the metrics were accepted: they replace the metrics
/// cached for their resource, and the status counts the tracked resources.
pub open spec fn after_metrics(v: EngineView, m: ResourceMetrics) -> EngineView {
    let metrics = v.metrics.insert(m.resource_id@, m);
    EngineView {
        metrics,
        status: EngineStatus { resources_tracked: metrics.len() as usize, ..v.status },
        ..v
    }
}

/// The state after a scaling action on `id` was executed at `now`: the
/// cooldown of the resource starts at `now` and one more action is counted.
pub open spec fn after_execution(v: EngineView, id: Seq<char>, now: u64) -> EngineView {
    EngineView {
        last_scale_time: v.last_scale_time.insert(id, now),
        status: EngineStatus {
            total_recommendations: (v.status.total_recommendations + 1) as u64,
            ..v.status
        },
        ..v
    }
}

/// A command to the engine.
#[derive(Debug)]
pub enum EngineCommand {
    /// Metrics that passed validation (none when the validator dropped them).
    UpdateMetrics(Option<ResourceMetrics>),
    /// Replace the configuration.
    UpdateConfig(LighthouseConfig),
    /// Ask for a scaling recommendation for a resource.
    GetRecommendation { resource_id: String },
    /// Ask for the engine status.
    GetStatus,
    /// Ask the engine to shut down.
    Shutdown,
}

/// The engine's answer to a command.
#[derive(Debug)]
pub enum CommandReply {
    /// The command was carried out.
    Done,
    /// The recommendation asked for.
    Recommendation(Option<ScaleAction>),
    /// The status asked for.
    Status(EngineStatus),
    /// The engine has stopped: the loop that feeds it commands ends.
    Stop,
}

/// The decision state of the autoscaling engine: configuration, status,
/// latest metrics per resource and cooldowns.
#[derive(Debug)]
pub struct EngineState {
    config: LighthouseConfig,
    status: EngineStatus,
    metrics_cache: StrMap<ResourceMetrics>,
    cooldown_tracker: CooldownTracker,
}

impl View for EngineState {
    type V = EngineView;

    closed spec fn view(&self) -> EngineView {
        EngineView {
            config: self.config,
            status: self.status,
            metrics: self.metrics_cache@,
            last_scale_time: self.cooldown_tracker@,
        }
    }
}

/// The status always counts the resources whose metrics are cached.
pub open spec fn engine_inv(v: EngineView) -> bool {
    v.status.resources_tracked == v.metrics.len()
}

impl EngineState {
    /// A stopped engine with the configuration, no metrics, no cooldowns and
    /// nothing counted.
    pub fn new(config: LighthouseConfig) -> (e: Self)
        ensures
            e@.config == config,
            e@.status == (EngineStatus {
                is_running: false,
                resources_tracked: 0,
                total_recommendations: 0,
                last_evaluation: None,
            }),
            e@.metrics == Map::<Seq<char>, ResourceMetrics>::empty(),
            e@.last_scale_time == Map::<Seq<char>, u64>::empty(),
            engine_inv(e@),
    {
        EngineState {
            config,
            status: EngineStatus {
                is_running: false,
                resources_tracked: 0,
                total_recommendations: 0,
                last_evaluation: None,
            },
            metrics_cache: StrMap::new(),
            cooldown_tracker: CooldownTracker::new(),
        }
    }

    /// The current status.
    pub fn status(&self) -> (s: EngineStatus)
        ensures
            s == self@.status,
    {
        self.status
    }

    /// The configuration in force.
    pub fn config(&self) -> (c: &LighthouseConfig)
        ensures
            *c == self@.config,
    {
        &self.config
    }

    /// Marks the engine as running or stopped; nothing else changes.
    pub fn set_running(&mut self, running: bool)
        requires
            engine_inv(old(self)@),
        ensures
            engine_inv(final(self)@),
            final(self)@ == (EngineView {
                status: EngineStatus { is_running: running, ..old(self)@.status },
                ..old(self)@
            }),
    {
        self.status.is_running = running;
    }

    /// Accepts validated metrics: they replace the metrics cached for their
    /// resource. Nothing changes when the validator dropped them.
    pub fn update_metrics(&mut self, validated: Option<ResourceMetrics>)
        requires
            engine_inv(old(self)@),
        ensures
            engine_inv(final(self)@),
            final(self)@ == match validated {
                Some(m) => after_metrics(old(self)@, m),
                None => old(self)@,
            },
    {
        match validated {
            Some(m) => {
                let mut cache = StrMap::new();
                std::mem::swap(&mut cache, &mut self.metrics_cache);
                let id = m.resource_id.clone();
                cache.insert(id, m);
                let n = cache.len();
                self.status = EngineStatus { resources_tracked: n, ..self.status };
                self.metrics_cache = cache;
            },
            None => {},
        }
    }

    /// Replaces the configuration; metrics, cooldowns and status stay.
    pub fn update_config(&mut self, new_config: LighthouseConfig)
        requires
            engine_inv(old(self)@),
        ensures
            engine_inv(final(self)@),
            final(self)@ == (EngineView { config: new_config, ..old(self)@ }),
    {
        self.config = new_config;
    }

    /// The recommendation for a resource at time `now`: the action of the
    /// first enabled policy of the resource type's configuration that
    /// triggers on the resource's latest metrics and whose longest cooldown
    /// the resource has waited out. None when there are no metrics for the
    /// resource, no configuration for its type, or no such policy.
    pub fn get_recommendation_at(&self, resource_id: &String, now: u64) -> (r: Option<ScaleAction>)
        ensures
            is_recommendation(r, self@, resource_id@, now),
    {
        let m = match self.metrics_cache.get(resource_id) {
            Some(m) => m,
            None => return None,
        };
        let rc = match self.config.config_for_type(&m.resource_type) {
            Some(rc) => rc,
            None => return None,
        };
        let ghost v = self@;
        let ghost ps = rc.policies@;
        let mut i: usize = 0;
        while i < rc.policies.len()
            invariant
                i <= ps.len(),
                ps == rc.policies@,
                v == self@,
                v.metrics.contains_key(resource_id@),
                *m == v.metrics[resource_id@],
                resource_config_for(v.config, m.resource_type@) == Some(*rc),
                first_firing(v, resource_id@, *m, ps, now, 0) == first_firing(
                    v,
                    resource_id@,
                    *m,
                    ps,
                    now,
                    i as nat,
                ),
            decreases ps.len() - i,
        {
            let p = &rc.policies[i];
            if p.enabled {
                let action = evaluate_policy(m, p, now);
                if action.is_some() {
                    let cooldown = policy_cooldown(&p.thresholds);
                    if self.cooldown_tracker.is_cooled_down_at(resource_id, cooldown, now) {
                        return action;
                    }
                }
            }
            i = i + 1;
        }
        None
    }

    /// The actions that a cooldown holds back when the resource is evaluated
    /// at time `now` (see `is_held_back`), so that observers can be told that
    /// scaling was skipped.
    pub fn held_back_at(&self, resource_id: &String, now: u64) -> (r: Vec<ScaleAction>)
        ensures
            is_held_back(r@, self@, resource_id@, now),
    {
        let mut held: Vec<ScaleAction> = Vec::new();
        let m = match self.metrics_cache.get(resource_id) {
            Some(m) => m,
            None => return held,
        };
        let rc = match self.config.config_for_type(&m.resource_type) {
            Some(rc) => rc,
            None => return held,
        };
        let ghost v = self@;
        let ghost ps = rc.policies@;
        let mut i: usize = 0;
        while i < rc.policies.len()
            invariant
                i <= ps.len(),
                ps == rc.policies@,
                v == self@,
                v.metrics.contains_key(resource_id@),
                *m == v.metrics[resource_id@],
                resource_config_for(v.config, m.resource_type@) == Some(*rc),
                first_firing(v, resource_id@, *m, ps, now, 0) == first_firing(
                    v,
                    resource_id@,
                    *m,
                    ps,
                    now,
                    i as nat,
                ),
                held@.len() == held_back_upto(v, resource_id@, *m, ps, now, i as nat).len(),
                forall|k: int|
                    0 <= k < held@.len() ==> is_policy_result(
                        Some(#[trigger] held@[k]),
                        *m,
                        ps[held_back_upto(v, resource_id@, *m, ps, now, i as nat)[k] as int],
                        now,
                    ),
            decreases ps.len() - i,
        {
            let p = &rc.policies[i];
            let ghost before = held_back_upto(v, resource_id@, *m, ps, now, i as nat);
            if p.enabled {
                let action = evaluate_policy(m, p, now);
                match action {
                    Some(a) => {
                        let cooldown = policy_cooldown(&p.thresholds);
                        if self.cooldown_tracker.is_cooled_down_at(resource_id, cooldown, now) {
                            return held;
                        }
                        let ghost held_before = held@;
                        held.push(a);
                        proof {
                            let after = held_back_upto(v, resource_id@, *m, ps, now, (i + 1) as nat);
                            assert(after == before.push(i as nat));
                            assert forall|k: int| 0 <= k < held@.len() implies is_policy_result(
                                Some(#[trigger] held@[k]),
                                *m,
                                ps[after[k] as int],
                                now,
                            ) by {
                                if k < held@.len() - 1 {
                                    assert(held@[k] == held_before[k]);
                                }
                            }
                        }
                    },
                    None => {},
                }
            }
            i = i + 1;
        }
        held
    }

    /// The recommendation for a resource now, by the system clock.
    pub fn get_recommendation(&self, resource_id: &String) -> (r: Option<ScaleAction>)
        ensures
            exists|now: u64| is_recommendation(r, self@, resource_id@, now),
    {
        self.get_recommendation_at(resource_id, current_timestamp())
    }

    /// Starts an evaluation round at time `now`: records the time and gives
    /// the resources that have metrics, in the order they were first seen.
    pub fn begin_evaluation(&mut self, now: u64) -> (ids: Vec<String>)
        requires
            engine_inv(old(self)@),
        ensures
            engine_inv(final(self)@),
            final(self)@ == (EngineView {
                status: EngineStatus { last_evaluation: Some(now), ..old(self)@.status },
                ..old(self)@
            }),
            forall|k: Seq<char>|
                old(self)@.metrics.contains_key(k) <==> exists|i: int|
                    0 <= i < ids@.len() && #[trigger] ids@[i]@ == k,
            ids@.len() == old(self)@.metrics.len(),
    {
        self.status.last_evaluation = Some(now);
        self.metrics_cache.keys()
    }

    /// Records that a scaling action on the resource was executed at `now`.
    pub fn record_execution(&mut self, resource_id: &String, now: u64)
        requires
            engine_inv(old(self)@),
            old(self)@.status.total_recommendations < u64::MAX,
        ensures
            engine_inv(final(self)@),
            final(self)@ == after_execution(old(self)@, resource_id@, now),
    {
        let mut tracker = CooldownTracker::new();
        std::mem::swap(&mut tracker, &mut self.cooldown_tracker);
        tracker.record_scale_action_at(resource_id, now);
        self.cooldown_tracker = tracker;
        self.status.total_recommendations = self.status.total_recommendations + 1;
    }

    /// Carries out a command at time `now`. A shutdown request marks the
    /// engine stopped and answers that the loop feeding it must stop.
    pub fn handle_command(&mut self, command: EngineCommand, now: u64) -> (r: LighthouseResult<
        CommandReply,
    >)
        requires
            engine_inv(old(self)@),
        ensures
            engine_inv(final(self)@),
            match command {
                EngineCommand::UpdateMetrics(validated) => {
                    &&& r matches Ok(CommandReply::Done)
                    &&& final(self)@ == match validated {
                        Some(m) => after_metrics(old(self)@, m),
                        None => old(self)@,
                    }
                },
                EngineCommand::UpdateConfig(c) => {
                    &&& r matches Ok(CommandReply::Done)
                    &&& final(self)@ == (EngineView { config: c, ..old(self)@ })
                },
                EngineCommand::GetRecommendation { resource_id } => {
                    &&& r matches Ok(CommandReply::Recommendation(rec)) && is_recommendation(
                        rec,
                        old(self)@,
                        resource_id@,
                        now,
                    )
                    &&& final(self)@ == old(self)@
                },
                EngineCommand::GetStatus => {
                    &&& r matches Ok(CommandReply::Status(s)) && s == old(self)@.status
                    &&& final(self)@ == old(self)@
                },
                EngineCommand::Shutdown => {
                    &&& r matches Ok(CommandReply::Stop)
                    &&& final(self)@ == (EngineView {
                        status: EngineStatus { is_running: false, ..old(self)@.status },
                        ..old(self)@
                    })
                },
            },
    {
        match command {
            EngineCommand::UpdateMetrics(validated) => {
                self.update_metrics(validated);
                Ok(CommandReply::Done)
            },
            EngineCommand::UpdateConfig(c) => {
                self.update_config(c);
                Ok(CommandReply::Done)
            },
            EngineCommand::GetRecommendation { resource_id } => {
                let rec = self.get_recommendation_at(&resource_id, now);
                Ok(CommandReply::Recommendation(rec))
            },
            EngineCommand::GetStatus => Ok(CommandReply::Status(self.status)),
            EngineCommand::Shutdown => {
                self.set_running(false);
                Ok(CommandReply::Stop)
            },
        }
    }
}

} // verus!

verus! {

// ---------------------------------------------------------------------------
// Laws of the engine
// ---------------------------------------------------------------------------

proof fn lemma_first_triggered(ts: Seq<ScalingThreshold>, values: Map<Seq<char>, MetricValue>, i: nat)
    ensures
        match first_triggered(ts, values, i) {
            Some(j) => i <= j < ts.len() && threshold_direction(ts[j as int], values) is Some
                && forall|k: int| i <= k < j ==> threshold_direction(#[trigger] ts[k], values) is None,
            None => forall|k: int| i <= k < ts.len() ==> threshold_direction(#[trigger] ts[k], values) is None,
        },
    decreases ts.len() - i,
{
    if i < ts.len() {
        lemma_first_triggered(ts, values, i + 1);
    }
}

proof fn lemma_first_firing(
    v: EngineView,
    id: Seq<char>,
    m: ResourceMetrics,
    ps: Seq<ScalingPolicy>,
    now: u64,
    i: nat,
)
    ensures
        match first_firing(v, id, m, ps, now, i) {
            Some(j) => i <= j < ps.len() && policy_fires(v, id, m, ps[j as int], now)
                && forall|k: int| i <= k < j ==> !policy_fires(v, id, m, #[trigger] ps[k], now),
            None => forall|k: int| i <= k < ps.len() ==> !policy_fires(v, id, m, #[trigger] ps[k], now),
        },
    decreases ps.len() - i,
{
    if i < ps.len() {
        lemma_first_firing(v, id, m, ps, now, i + 1);
    }
}

/// Cooldowns prevent flapping: once a scaling action on a resource has been
/// executed at time `t`, any recommendation for that resource at a time
/// `now` comes from a policy whose longest cooldown has fully elapsed since
/// `t`.
pub proof fn law_cooldown_prevents_flapping(v: EngineView, id: Seq<char>, t: u64, now: u64)
    ensures
        match recommending_policy(after_execution(v, id, t), id, now) {
            Some((m, p)) => {
                &&& now >= t + max_cooldown(p.thresholds@)
                &&& forall|k: int|
                    0 <= k < p.thresholds@.len() ==> now >= t
                        + #[trigger] p.thresholds@[k].cooldown_seconds
            },
            None => true,
        },
{
    let w = after_execution(v, id, t);
    if w.metrics.contains_key(id) {
        let m = w.metrics[id];
        match resource_config_for(w.config, m.resource_type@) {
            Some(rc) => lemma_first_firing(w, id, m, rc.policies@, now, 0),
            None => {},
        }
    }
    match recommending_policy(w, id, now) {
        Some((m, p)) => law_policy_cooldown_is_longest(p.thresholds@),
        None => {},
    }
}

/// Only an enabled policy of the configuration that applies to the
/// resource's type, one that triggers on the resource's latest metrics and
/// whose cooldown has elapsed, can recommend; and it is the first such
/// policy in order.
pub proof fn law_recommendation_source(v: EngineView, id: Seq<char>, now: u64)
    ensures
        match recommending_policy(v, id, now) {
            Some((m, p)) => {
                &&& v.metrics.contains_key(id)
                &&& m == v.metrics[id]
                &&& resource_config_for(v.config, m.resource_type@) is Some
                &&& exists|j: int|
                    0 <= j < resource_config_for(v.config, m.resource_type@)->0.policies@.len()
                        && #[trigger] resource_config_for(v.config, m.resource_type@)->0.policies@[j]
                        == p && forall|k: int|
                        0 <= k < j ==> !policy_fires(
                            v,
                            id,
                            m,
                            #[trigger] resource_config_for(v.config, m.resource_type@)->0.policies@[k],
                            now,
                        )
                &&& p.enabled
                &&& policy_outcome(m, p) is Some
                &&& cooled_down(v.last_scale_time, id, max_cooldown(p.thresholds@), now)
            },
            None => true,
        },
{
    if v.metrics.contains_key(id) {
        let m = v.metrics[id];
        match resource_config_for(v.config, m.resource_type@) {
            Some(rc) => {
                let ps = rc.policies@;
                lemma_first_firing(v, id, m, ps, now, 0);
            },
            None => {},
        }
    }
}

/// A recommendation is always given when one is due: if the resource has
/// metrics, a configuration applies to its type, and some policy of it is
/// enabled, triggers and has waited out its cooldown, then there is a
/// recommendation.
pub proof fn law_recommendation_when_due(v: EngineView, id: Seq<char>, now: u64, j: int)
    requires
        v.metrics.contains_key(id),
        resource_config_for(v.config, v.metrics[id].resource_type@) is Some,
        0 <= j < resource_config_for(v.config, v.metrics[id].resource_type@)->0.policies@.len(),
        policy_fires(
            v,
            id,
            v.metrics[id],
            resource_config_for(v.config, v.metrics[id].resource_type@)->0.policies@[j],
            now,
        ),
    ensures
        recommending_policy(v, id, now) is Some,
{
    let m = v.metrics[id];
    let ps = resource_config_for(v.config, m.resource_type@)->0.policies@;
    lemma_first_firing(v, id, m, ps, now, 0);
}

/// For a resource that never scaled, the first enabled policy that triggers
/// gives the recommendation.
pub proof fn law_first_triggering_policy_wins(v: EngineView, id: Seq<char>, now: u64, j: int)
    requires
        !v.last_scale_time.contains_key(id),
        v.metrics.contains_key(id),
        resource_config_for(v.config, v.metrics[id].resource_type@) is Some,
        0 <= j < resource_config_for(v.config, v.metrics[id].resource_type@)->0.policies@.len(),
        ({
            let ps = resource_config_for(v.config, v.metrics[id].resource_type@)->0.policies@;
            &&& ps[j].enabled
            &&& policy_outcome(v.metrics[id], ps[j]) is Some
            &&& forall|k: int|
                0 <= k < j ==> !(#[trigger] ps[k]).enabled || policy_outcome(v.metrics[id], ps[k])
                    is None
        }),
    ensures
        recommending_policy(v, id, now) == Some(
            (
                v.metrics[id],
                resource_config_for(v.config, v.metrics[id].resource_type@)->0.policies@[j],
            ),
        ),
{
    let m = v.metrics[id];
    let ps = resource_config_for(v.config, m.resource_type@)->0.policies@;
    lemma_first_firing(v, id, m, ps, now, 0);
    match first_firing(v, id, m, ps, now, 0) {
        Some(i) => {
            if (i as int) < j {
                assert(policy_fires(v, id, m, ps[i as int], now));
            } else if (i as int) > j {
                assert(!policy_fires(v, id, m, ps[j], now));
            }
        },
        None => {
            assert(!policy_fires(v, id, m, ps[j], now));
        },
    }
}

/// Metrics just accepted are the ones the engine holds for their resource;
/// the metrics of every other resource stay, and so do the configuration
/// and the cooldowns.
pub proof fn law_latest_metrics_win(v: EngineView, m: ResourceMetrics, other: Seq<char>)
    ensures
        after_metrics(v, m).metrics.contains_key(m.resource_id@),
        after_metrics(v, m).metrics[m.resource_id@] == m,
        other != m.resource_id@ ==> after_metrics(v, m).metrics.contains_key(other)
            == v.metrics.contains_key(other),
        other != m.resource_id@ && v.metrics.contains_key(other) ==> after_metrics(v, m).metrics[other]
            == v.metrics[other],
        after_metrics(v, m).config == v.config,
        after_metrics(v, m).last_scale_time == v.last_scale_time,
{
}

/// The scaling direction agrees with the thresholds: an upward action means
/// the deciding metric exceeds its scale-up threshold; a downward action
/// means it lies below its scale-down threshold and does not exceed its
/// scale-up threshold; every earlier threshold's metric is absent or inside
/// its band.
pub proof fn law_direction_matches_thresholds(m: ResourceMetrics, p: ScalingPolicy)
    ensures
        match policy_outcome(m, p) {
            Some((i, dir)) => {
                let t = p.thresholds@[i as int];
                let value = m.metrics@[t.metric_name@];
                &&& i < p.thresholds@.len()
                &&& m.metrics@.contains_key(t.metric_name@)
                &&& (dir == ScaleDirection::Up ==> value.greater_than(t.scale_up_threshold))
                &&& (dir == ScaleDirection::Down ==> value.less_than(t.scale_down_threshold)
                    && !value.greater_than(t.scale_up_threshold))
                &&& dir != ScaleDirection::Maintain
                &&& forall|k: int|
                    0 <= k < i ==> threshold_direction(#[trigger] p.thresholds@[k], m.metrics@) is None
            },
            None => forall|k: int|
                0 <= k < p.thresholds@.len() ==> threshold_direction(#[trigger] p.thresholds@[k], m.metrics@)
                    is None,
        },
{
    lemma_first_triggered(p.thresholds@, m.metrics@, 0);
}

/// Inside the bands nothing happens: when every threshold's metric is absent,
/// NaN, or between its scale-down and scale-up thresholds, the policy gives
/// no action.
pub proof fn law_no_action_inside_bands(m: ResourceMetrics, p: ScalingPolicy)
    requires
        forall|k: int|
            0 <= k < p.thresholds@.len() ==> {
                let t = #[trigger] p.thresholds@[k];
                !m.metrics@.contains_key(t.metric_name@) || (!m.metrics@[t.metric_name@].greater_than(
                    t.scale_up_threshold,
                ) && !m.metrics@[t.metric_name@].less_than(t.scale_down_threshold))
            },
    ensures
        policy_outcome(m, p) is None,
{
    lemma_first_triggered(p.thresholds@, m.metrics@, 0);
    if policy_outcome(m, p) is Some {
        let i = first_triggered(p.thresholds@, m.metrics@, 0)->0;
        assert(threshold_direction(p.thresholds@[i as int], m.metrics@) is Some);
    }
}

} // verus!
