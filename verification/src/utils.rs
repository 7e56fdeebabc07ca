use vstd::prelude::*;

use crate::strmap::StrMap;
use crate::types::ResourceMetrics;
use crate::value::MetricValue;

verus! {

/// The current Unix time in seconds, read from the system clock (0 when the
/// clock is before the Unix epoch).
///
/// Trusted: `std::time::SystemTime::now` with `duration_since(UNIX_EPOCH)`
/// and `as_secs`. Nothing is claimed of the result: it is whatever the clock
/// says.
#[verifier::external_body]
pub fn current_timestamp() -> (t: u64) {
    std::time::SystemTime::now().duration_since(std::time::UNIX_EPOCH).unwrap_or_default().as_secs()
}

/// The map that a list of (name, value) pairs gives when the pairs are
/// stored one after another: a later pair for a name overrides an earlier one.
pub open spec fn pairs_map(s: Seq<(&str, MetricValue)>) -> Map<Seq<char>, MetricValue>
    decreases s.len(),
{
    if s.len() == 0 {
        Map::empty()
    } else {
        pairs_map(s.drop_last()).insert(s.last().0@, s.last().1)
    }
}

/// Metrics of one resource with a single metric, stamped with `timestamp`.
pub fn single_metric_at(
    resource_id: &str,
    resource_type: &str,
    metric_name: &str,
    value: MetricValue,
    timestamp: u64,
) -> (m: ResourceMetrics)
    ensures
        m.resource_id@ == resource_id@,
        m.resource_type@ == resource_type@,
        m.timestamp == timestamp,
        m.metrics@ == Map::<Seq<char>, MetricValue>::empty().insert(metric_name@, value),
{
    let mut metrics = StrMap::new();
    metrics.insert(metric_name.to_string(), value);
    ResourceMetrics {
        resource_id: resource_id.to_string(),
        resource_type: resource_type.to_string(),
        timestamp,
        metrics,
    }
}

/// Metrics of one resource with a single metric, stamped with the current
/// time (see `single_metric_at`).
pub fn single_metric(
    resource_id: &str,
    resource_type: &str,
    metric_name: &str,
    value: MetricValue,
) -> (m: ResourceMetrics)
    ensures
        m.resource_id@ == resource_id@,
        m.resource_type@ == resource_type@,
        m.metrics@ == Map::<Seq<char>, MetricValue>::empty().insert(metric_name@, value),
{
    single_metric_at(resource_id, resource_type, metric_name, value, current_timestamp())
}

/// Metrics of one resource with several metrics, stamped with `timestamp`.
/// When a name occurs more than once, its last value is kept.
pub fn multi_metrics_at(
    resource_id: &str,
    resource_type: &str,
    metrics: Vec<(&str, MetricValue)>,
    timestamp: u64,
) -> (m: ResourceMetrics)
    ensures
        m.resource_id@ == resource_id@,
        m.resource_type@ == resource_type@,
        m.timestamp == timestamp,
        m.metrics@ == pairs_map(metrics@),
{
    let mut map: StrMap<MetricValue> = StrMap::new();
    let mut i: usize = 0;
    while i < metrics.len()
        invariant
            i <= metrics@.len(),
            map@ == pairs_map(metrics@.take(i as int)),
        decreases metrics@.len() - i,
    {
        let (name, value) = metrics[i];
        map.insert(name.to_string(), value);
        proof {
            assert(metrics@.take(i + 1).drop_last() =~= metrics@.take(i as int));
        }
        i = i + 1;
    }
    proof {
        assert(metrics@.take(metrics@.len() as int) =~= metrics@);
    }
    ResourceMetrics {
        resource_id: resource_id.to_string(),
        resource_type: resource_type.to_string(),
        timestamp,
        metrics: map,
    }
}

/// Metrics of one resource with several metrics, stamped with the current
/// time (see `multi_metrics_at`).
pub fn multi_metrics(
    resource_id: &str,
    resource_type: &str,
    metrics: Vec<(&str, MetricValue)>,
) -> (m: ResourceMetrics)
    ensures
        m.resource_id@ == resource_id@,
        m.resource_type@ == resource_type@,
        m.metrics@ == pairs_map(metrics@),
{
    multi_metrics_at(resource_id, resource_type, metrics, current_timestamp())
}

} // verus!
