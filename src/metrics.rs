//! Metrics normalised to `MetricDto`: gauges, sums and histograms.

use vstd::prelude::*;
use crate::ids::{
    nanos, opt_view, span_id_from, span_id_of, trace_id_from, trace_id_of, Nanoseconds, SpanId,
    TraceId,
};
use crate::logs::{scope_name, scope_name_of};
use crate::otlp;
use crate::otlp::{InstrumentationScope, Metric, MetricData, PointValue, Resource};
use crate::resource::{describes_opt, owned, resource_info_of, ResourceInfo};
use crate::text::{dec_of, u64_text};
use crate::values::{extract_tags, pairs_view, tags_of, Tags};

verus! {

/// Whether the values of a sum or histogram are deltas or running totals.
#[derive(Debug, Clone, Copy, PartialEq, Eq)]
pub enum AggregationTemporality {
    Delta,
    Cumulative,
}

/// The temporality that a protobuf ordinal names; any but cumulative is delta.
pub open spec fn temporality_of(at: i32) -> AggregationTemporality {
    if at == 2 {
        AggregationTemporality::Cumulative
    } else {
        AggregationTemporality::Delta
    }
}

/// A measured value; a double is held as its IEEE-754 bit pattern.
#[derive(Debug, Clone, Copy, PartialEq, Eq)]
pub enum NumberValue {
    Int(i64),
    Double(u64),
}

/// The value that a measured value gives.
pub open spec fn number_value_of(v: Option<PointValue>) -> Option<NumberValue> {
    match v {
        Some(PointValue::Int(i)) => Some(NumberValue::Int(i)),
        Some(PointValue::Double(d)) => Some(NumberValue::Double(d)),
        None => None,
    }
}

/// An example measurement in normalised form.
#[derive(Debug, Clone)]
pub struct Examplar {
    pub time_unix_nano: String,
    pub trace_id: Option<TraceId>,
    pub span_id: Option<SpanId>,
    pub value: Option<NumberValue>,
}

/// A data point of a gauge or a sum, in normalised form.
#[derive(Debug, Clone)]
pub struct NumberDataPoint {
    pub start_time_unix_nano: Nanoseconds,
    pub time_unix_nano: Nanoseconds,
    pub value: Option<NumberValue>,
    pub attributes: Tags,
    pub exemplars: Vec<Examplar>,
}

/// A data point of a histogram, in normalised form; doubles are held as
/// IEEE-754 bit patterns.
#[derive(Debug, Clone)]
pub struct HistogramDataPoint {
    pub start_time_unix_nano: Nanoseconds,
    pub time_unix_nano: Nanoseconds,
    pub count: u64,
    pub sum: Option<u64>,
    pub bucket_counts: Vec<u64>,
    pub explicit_bounds: Vec<u64>,
    pub exemplars: Vec<Examplar>,
    pub min: Option<u64>,
    pub max: Option<u64>,
    pub attributes: Tags,
}

/// A gauge.
#[derive(Debug, Clone)]
pub struct GaugeMetric {
    pub data_points: Vec<NumberDataPoint>,
}

/// A sum.
#[derive(Debug, Clone)]
pub struct SumMetric {
    pub data_points: Vec<NumberDataPoint>,
    pub aggregation_temporality: AggregationTemporality,
    pub is_monotonic: bool,
}

/// A histogram.
#[derive(Debug, Clone)]
pub struct HistogramMetric {
    pub data_points: Vec<HistogramDataPoint>,
    pub aggregation_temporality: AggregationTemporality,
}

/// The data of a metric, by kind.
#[derive(Debug, Clone)]
pub enum MetricType {
    Gauge(GaugeMetric),
    Sum(SumMetric),
    Histogram(HistogramMetric),
}

/// A metric in normalised form.
#[derive(Debug, Clone)]
pub struct MetricDto {
    pub name: String,
    pub description: String,
    pub unit: String,
    pub scope: String,
    pub resource: ResourceInfo,
    pub data: Option<MetricType>,
}

/// `d` is the normalised form of the exemplar `e`.
pub open spec fn is_exemplar(d: Examplar, e: otlp::Exemplar) -> bool {
    &&& d.time_unix_nano@ == dec_of(e.time_unix_nano as nat)
    &&& opt_view(d.trace_id) == trace_id_of(e.trace_id@)
    &&& opt_view(d.span_id) == span_id_of(e.span_id@)
    &&& d.value == number_value_of(e.value)
}

/// `d` holds the normalised forms of the exemplars `e`, in order.
pub open spec fn are_exemplars(d: Seq<Examplar>, e: Seq<otlp::Exemplar>) -> bool {
    &&& d.len() == e.len()
    &&& forall|i: int| 0 <= i < e.len() ==> is_exemplar(#[trigger] d[i], e[i])
}

/// `d` is the normalised form of the number data point `p`.
pub open spec fn is_number_point(d: NumberDataPoint, p: otlp::NumberDataPoint) -> bool {
    &&& d.start_time_unix_nano@ == dec_of(p.start_time_unix_nano as nat)
    &&& d.time_unix_nano@ == dec_of(p.time_unix_nano as nat)
    &&& d.value == number_value_of(p.value)
    &&& pairs_view(d.attributes@) == tags_of(p.attributes@)
    &&& are_exemplars(d.exemplars@, p.exemplars@)
}

/// `d` holds the normalised forms of the number data points `p`, in order.
pub open spec fn are_number_points(d: Seq<NumberDataPoint>, p: Seq<otlp::NumberDataPoint>) -> bool {
    &&& d.len() == p.len()
    &&& forall|i: int| 0 <= i < p.len() ==> is_number_point(#[trigger] d[i], p[i])
}

/// `d` is the normalised form of the histogram data point `p`.
pub open spec fn is_histogram_point(d: HistogramDataPoint, p: otlp::HistogramDataPoint) -> bool {
    &&& d.start_time_unix_nano@ == dec_of(p.start_time_unix_nano as nat)
    &&& d.time_unix_nano@ == dec_of(p.time_unix_nano as nat)
    &&& d.count == p.count
    &&& d.sum == p.sum
    &&& d.bucket_counts@ == p.bucket_counts@
    &&& d.explicit_bounds@ == p.explicit_bounds@
    &&& are_exemplars(d.exemplars@, p.exemplars@)
    &&& d.min == p.min
    &&& d.max == p.max
    &&& pairs_view(d.attributes@) == tags_of(p.attributes@)
}

/// `d` holds the normalised forms of the histogram data points `p`, in order.
pub open spec fn are_histogram_points(
    d: Seq<HistogramDataPoint>,
    p: Seq<otlp::HistogramDataPoint>,
) -> bool {
    &&& d.len() == p.len()
    &&& forall|i: int| 0 <= i < p.len() ==> is_histogram_point(#[trigger] d[i], p[i])
}

/// `d` is the normalised form of the metric data `m`: gauges, sums and
/// histograms are kept, other kinds and missing data give none.
pub open spec fn is_metric_type(d: Option<MetricType>, m: Option<MetricData>) -> bool {
    match m {
        Some(MetricData::Gauge { data_points }) => d is Some && match d->Some_0 {
            MetricType::Gauge(g) => are_number_points(g.data_points@, data_points@),
            _ => false,
        },
        Some(MetricData::Sum { data_points, aggregation_temporality, is_monotonic }) => d is Some
            && match d->Some_0 {
            MetricType::Sum(s) => {
                &&& are_number_points(s.data_points@, data_points@)
                &&& s.aggregation_temporality == temporality_of(aggregation_temporality)
                &&& s.is_monotonic == is_monotonic
            },
            _ => false,
        },
        Some(MetricData::Histogram { data_points, aggregation_temporality }) => d is Some
            && match d->Some_0 {
            MetricType::Histogram(h) => {
                &&& are_histogram_points(h.data_points@, data_points@)
                &&& h.aggregation_temporality == temporality_of(aggregation_temporality)
            },
            _ => false,
        },
        _ => d is None,
    }
}

/// `dto` is the normalised form of `metric` under `scope` and `resource`.
pub open spec fn is_metric_dto(
    dto: MetricDto,
    metric: Metric,
    scope: Option<InstrumentationScope>,
    resource: Option<Resource>,
) -> bool {
    &&& dto.name@ == metric.name@
    &&& dto.description@ == metric.description@
    &&& dto.unit@ == metric.unit@
    &&& dto.scope@ == scope_name(scope)
    &&& describes_opt(dto.resource, resource)
    &&& is_metric_type(dto.data, metric.data)
}

/// A copy of `v`.
fn copy_u64s(v: &Vec<u64>) -> (r: Vec<u64>)
    ensures
        r@ == v@,
{
    let mut out: Vec<u64> = Vec::new();
    let mut i: usize = 0;
    while i < v.len()
        invariant
            i <= v@.len(),
            out@ == v@.take(i as int),
        decreases v@.len() - i,
    {
        out.push(v[i]);
        assert(out@ =~= v@.take(i + 1));
        i = i + 1;
    }
    assert(v@.take(v@.len() as int) =~= v@);
    out
}

fn map_value(v: Option<PointValue>) -> (r: Option<NumberValue>)
    ensures
        r == number_value_of(v),
{
    match v {
        Some(PointValue::Int(i)) => Some(NumberValue::Int(i)),
        Some(PointValue::Double(d)) => Some(NumberValue::Double(d)),
        None => None,
    }
}

fn map_exemplars(es: &Vec<otlp::Exemplar>) -> (r: Vec<Examplar>)
    ensures
        are_exemplars(r@, es@),
{
    let mut out: Vec<Examplar> = Vec::new();
    let mut i: usize = 0;
    while i < es.len()
        invariant
            i <= es@.len(),
            out@.len() == i,
            forall|j: int| 0 <= j < i ==> is_exemplar(#[trigger] out@[j], es@[j]),
        decreases es@.len() - i,
    {
        out.push(MetricDto::map_examplar(&es[i]));
        i = i + 1;
    }
    out
}

fn map_number_points(ps: &Vec<otlp::NumberDataPoint>) -> (r: Vec<NumberDataPoint>)
    ensures
        are_number_points(r@, ps@),
{
    let mut out: Vec<NumberDataPoint> = Vec::new();
    let mut i: usize = 0;
    while i < ps.len()
        invariant
            i <= ps@.len(),
            out@.len() == i,
            forall|j: int| 0 <= j < i ==> is_number_point(#[trigger] out@[j], ps@[j]),
        decreases ps@.len() - i,
    {
        out.push(MetricDto::map_number_data_point(&ps[i]));
        i = i + 1;
    }
    out
}

fn map_histogram_points(ps: &Vec<otlp::HistogramDataPoint>) -> (r: Vec<HistogramDataPoint>)
    ensures
        are_histogram_points(r@, ps@),
{
    let mut out: Vec<HistogramDataPoint> = Vec::new();
    let mut i: usize = 0;
    while i < ps.len()
        invariant
            i <= ps@.len(),
            out@.len() == i,
            forall|j: int| 0 <= j < i ==> is_histogram_point(#[trigger] out@[j], ps@[j]),
        decreases ps@.len() - i,
    {
        out.push(MetricDto::map_histogram_data_point(&ps[i]));
        i = i + 1;
    }
    out
}

impl MetricDto {
    /// Normalises one metric: name, description, unit, scope name, resource
    /// identity and data.
    pub fn from_otlp(
        metric: Metric,
        scope: Option<&InstrumentationScope>,
        resource: Option<&Resource>,
    ) -> (r: MetricDto)
        ensures
            is_metric_dto(r, metric, owned(scope), owned(resource)),
    {
        MetricDto::from_metric(&metric, scope, resource)
    }

    /// Normalises one metric, read in place.
    pub fn from_metric(
        metric: &Metric,
        scope: Option<&InstrumentationScope>,
        resource: Option<&Resource>,
    ) -> (r: MetricDto)
        ensures
            is_metric_dto(r, *metric, owned(scope), owned(resource)),
    {
        let data = MetricDto::map_data(&metric.data);
        MetricDto {
            name: metric.name.clone(),
            description: metric.description.clone(),
            unit: metric.unit.clone(),
            scope: scope_name_of(scope),
            resource: resource_info_of(resource),
            data,
        }
    }

    /// Gauges, sums and histograms are kept; other kinds give none.
    pub fn map_data(data: &Option<MetricData>) -> (r: Option<MetricType>)
        ensures
            is_metric_type(r, *data),
    {
        match data {
            Some(MetricData::Gauge { data_points }) => Some(
                MetricType::Gauge(MetricDto::map_gauge(data_points)),
            ),
            Some(MetricData::Sum { data_points, aggregation_temporality, is_monotonic }) => Some(
                MetricType::Sum(
                    MetricDto::map_sum(data_points, *aggregation_temporality, *is_monotonic),
                ),
            ),
            Some(MetricData::Histogram { data_points, aggregation_temporality }) => Some(
                MetricType::Histogram(
                    MetricDto::map_histogram(data_points, *aggregation_temporality),
                ),
            ),
            _ => None,
        }
    }

    /// A gauge with its data points normalised, in order.
    pub fn map_gauge(data_points: &Vec<otlp::NumberDataPoint>) -> (r: GaugeMetric)
        ensures
            are_number_points(r.data_points@, data_points@),
    {
        GaugeMetric { data_points: map_number_points(data_points) }
    }

    /// A sum with its data points normalised, in order.
    pub fn map_sum(
        data_points: &Vec<otlp::NumberDataPoint>,
        aggregation_temporality: i32,
        is_monotonic: bool,
    ) -> (r: SumMetric)
        ensures
            are_number_points(r.data_points@, data_points@),
            r.aggregation_temporality == temporality_of(aggregation_temporality),
            r.is_monotonic == is_monotonic,
    {
        SumMetric {
            data_points: map_number_points(data_points),
            aggregation_temporality: MetricDto::map_aggregation_temporality(
                aggregation_temporality,
            ),
            is_monotonic,
        }
    }

    /// A histogram with its data points normalised, in order.
    pub fn map_histogram(
        data_points: &Vec<otlp::HistogramDataPoint>,
        aggregation_temporality: i32,
    ) -> (r: HistogramMetric)
        ensures
            are_histogram_points(r.data_points@, data_points@),
            r.aggregation_temporality == temporality_of(aggregation_temporality),
    {
        HistogramMetric {
            data_points: map_histogram_points(data_points),
            aggregation_temporality: MetricDto::map_aggregation_temporality(
                aggregation_temporality,
            ),
        }
    }

    /// One number data point, normalised.
    pub fn map_number_data_point(data_point: &otlp::NumberDataPoint) -> (r: NumberDataPoint)
        ensures
            is_number_point(r, *data_point),
    {
        NumberDataPoint {
            value: map_value(data_point.value),
            start_time_unix_nano: nanos(data_point.start_time_unix_nano),
            time_unix_nano: nanos(data_point.time_unix_nano),
            attributes: extract_tags(&data_point.attributes),
            exemplars: map_exemplars(&data_point.exemplars),
        }
    }

    /// One histogram data point, normalised.
    pub fn map_histogram_data_point(data_point: &otlp::HistogramDataPoint) -> (r:
        HistogramDataPoint)
        ensures
            is_histogram_point(r, *data_point),
    {
        HistogramDataPoint {
            start_time_unix_nano: nanos(data_point.start_time_unix_nano),
            time_unix_nano: nanos(data_point.time_unix_nano),
            count: data_point.count,
            sum: data_point.sum,
            bucket_counts: copy_u64s(&data_point.bucket_counts),
            explicit_bounds: copy_u64s(&data_point.explicit_bounds),
            exemplars: map_exemplars(&data_point.exemplars),
            min: data_point.min,
            max: data_point.max,
            attributes: extract_tags(&data_point.attributes),
        }
    }

    /// One exemplar, normalised.
    pub fn map_examplar(examplar: &otlp::Exemplar) -> (r: Examplar)
        ensures
            is_exemplar(r, *examplar),
    {
        Examplar {
            time_unix_nano: u64_text(examplar.time_unix_nano),
            trace_id: trace_id_from(&examplar.trace_id),
            span_id: span_id_from(&examplar.span_id),
            value: map_value(examplar.value),
        }
    }

    /// Cumulative for the ordinal 2; delta for any other.
    pub fn map_aggregation_temporality(at: i32) -> (r: AggregationTemporality)
        ensures
            r == temporality_of(at),
    {
        if at == 2 {
            AggregationTemporality::Cumulative
        } else {
            AggregationTemporality::Delta
        }
    }
}

} // verus!
