//! Walking OTLP export requests (resource, then scope, then record),
//! normalising each record and publishing it on its topic.

use vstd::prelude::*;
use crate::logs::{is_log_dto, LogDto};
use crate::metrics::{is_metric_dto, MetricDto};
use crate::otlp::{
    ExportLogsServiceRequest, ExportMetricsServiceRequest, ExportTraceServiceRequest,
    InstrumentationScope, LogRecord, Metric, Resource, ResourceLogs, ResourceMetrics, ResourceSpans,
    ScopeLogs, ScopeMetrics, ScopeSpans, Span,
};
use crate::resource::owned;
use crate::subscriptions::{SubscriptionManager, LOGS_TOPIC, METRICS_TOPIC, TRACES_TOPIC};
use crate::traces::{is_span_dto, SpanDto};

verus! {

/// A record with the scope and the resource that it came under.
pub type Placed<T> = (T, Option<InstrumentationScope>, Option<Resource>);

/// The log records of a request, in order, each with its scope and resource.
pub open spec fn log_entries(req: ExportLogsServiceRequest) -> Seq<Placed<LogRecord>> {
    req.resource_logs@.map_values(|rl: ResourceLogs| resource_log_entries(rl)).flatten()
}

/// The log records under one resource, in order.
pub open spec fn resource_log_entries(rl: ResourceLogs) -> Seq<Placed<LogRecord>> {
    rl.scope_logs@.map_values(|sl: ScopeLogs| scope_log_entries(sl, rl.resource)).flatten()
}

/// The log records under one scope, in order.
pub open spec fn scope_log_entries(sl: ScopeLogs, res: Option<Resource>) -> Seq<Placed<LogRecord>> {
    sl.log_records@.map_values(|r: LogRecord| (r, sl.scope, res))
}

/// `d` holds the normalised forms of the placed log records `e`, in order.
pub open spec fn are_log_dtos(d: Seq<LogDto>, e: Seq<Placed<LogRecord>>) -> bool {
    &&& d.len() == e.len()
    &&& forall|j: int| 0 <= j < e.len() ==> is_log_dto(#[trigger] d[j], e[j].0, e[j].1, e[j].2)
}

/// The normalised form of every log record of `request`, in order.
pub fn normalize_logs(request: &ExportLogsServiceRequest) -> (r: Vec<LogDto>)
    ensures
        are_log_dtos(r@, log_entries(*request)),
{
    let ghost outer = request.resource_logs@.map_values(|rl: ResourceLogs| resource_log_entries(rl));
    let mut out: Vec<LogDto> = Vec::new();
    let mut i: usize = 0;
    assert(outer.take(0) =~= Seq::<Seq<Placed<LogRecord>>>::empty());
    while i < request.resource_logs.len()
        invariant
            i <= request.resource_logs@.len(),
            outer == request.resource_logs@.map_values(|rl: ResourceLogs| resource_log_entries(rl)),
            are_log_dtos(out@, outer.take(i as int).flatten()),
        decreases request.resource_logs@.len() - i,
    {
        let rl = &request.resource_logs[i];
        let resource = rl.resource.as_ref();
        let ghost pre = outer.take(i as int).flatten();
        let ghost inner = rl.scope_logs@.map_values(|sl: ScopeLogs| scope_log_entries(sl, rl.resource));
        let mut k: usize = 0;
        assert(inner.take(0) =~= Seq::<Seq<Placed<LogRecord>>>::empty());
        assert(pre + inner.take(0).flatten() =~= pre);
        while k < rl.scope_logs.len()
            invariant
                k <= rl.scope_logs@.len(),
                rl == &request.resource_logs@[i as int],
                owned(resource) == rl.resource,
                inner == rl.scope_logs@.map_values(|sl: ScopeLogs| scope_log_entries(sl, rl.resource)),
                are_log_dtos(out@, pre + inner.take(k as int).flatten()),
            decreases rl.scope_logs@.len() - k,
        {
            let sl = &rl.scope_logs[k];
            let scope = sl.scope.as_ref();
            let ghost mid = pre + inner.take(k as int).flatten();
            let ghost recs = scope_log_entries(*sl, rl.resource);
            let mut m: usize = 0;
            assert(mid + recs.take(0) =~= mid);
            while m < sl.log_records.len()
                invariant
                    m <= sl.log_records@.len(),
                    sl == &rl.scope_logs@[k as int],
                    owned(scope) == sl.scope,
                    owned(resource) == rl.resource,
                    recs == scope_log_entries(*sl, rl.resource),
                    are_log_dtos(out@, mid + recs.take(m as int)),
                decreases sl.log_records@.len() - m,
            {
                let dto = LogDto::from_record(&sl.log_records[m], scope, resource);
                out.push(dto);
                assert(mid + recs.take(m + 1) =~= (mid + recs.take(m as int)).push(recs[m as int]));
                m = m + 1;
            }
            assert(recs.take(sl.log_records@.len() as int) =~= recs);
            proof {
                inner.take(k as int).lemma_flatten_push(inner[k as int]);
                assert(inner.take(k + 1) =~= inner.take(k as int).push(inner[k as int]));
            }
            assert(mid + recs =~= pre + inner.take(k + 1).flatten());
            k = k + 1;
        }
        assert(inner.take(rl.scope_logs@.len() as int) =~= inner);
        proof {
            outer.take(i as int).lemma_flatten_push(outer[i as int]);
            assert(outer.take(i + 1) =~= outer.take(i as int).push(outer[i as int]));
        }
        i = i + 1;
    }
    assert(outer.take(request.resource_logs@.len() as int) =~= outer);
    out
}

/// The spans of a request, in order, each with its scope and resource.
pub open spec fn span_entries(req: ExportTraceServiceRequest) -> Seq<Placed<Span>> {
    req.resource_spans@.map_values(|rl: ResourceSpans| resource_span_entries(rl)).flatten()
}

/// The spans under one resource, in order.
pub open spec fn resource_span_entries(rl: ResourceSpans) -> Seq<Placed<Span>> {
    rl.scope_spans@.map_values(|sl: ScopeSpans| scope_span_entries(sl, rl.resource)).flatten()
}

/// The spans under one scope, in order.
pub open spec fn scope_span_entries(sl: ScopeSpans, res: Option<Resource>) -> Seq<Placed<Span>> {
    sl.spans@.map_values(|r: Span| (r, sl.scope, res))
}

/// `d` holds the normalised forms of the placed spans `e`, in order.
pub open spec fn are_span_dtos(d: Seq<SpanDto>, e: Seq<Placed<Span>>) -> bool {
    &&& d.len() == e.len()
    &&& forall|j: int| 0 <= j < e.len() ==> is_span_dto(#[trigger] d[j], e[j].0, e[j].1, e[j].2)
}

/// The normalised form of every span of `request`, in order.
pub fn normalize_traces(request: &ExportTraceServiceRequest) -> (r: Vec<SpanDto>)
    ensures
        are_span_dtos(r@, span_entries(*request)),
{
    let ghost outer = request.resource_spans@.map_values(|rl: ResourceSpans| resource_span_entries(rl));
    let mut out: Vec<SpanDto> = Vec::new();
    let mut i: usize = 0;
    assert(outer.take(0) =~= Seq::<Seq<Placed<Span>>>::empty());
    while i < request.resource_spans.len()
        invariant
            i <= request.resource_spans@.len(),
            outer == request.resource_spans@.map_values(|rl: ResourceSpans| resource_span_entries(rl)),
            are_span_dtos(out@, outer.take(i as int).flatten()),
        decreases request.resource_spans@.len() - i,
    {
        let rl = &request.resource_spans[i];
        let resource = rl.resource.as_ref();
        let ghost pre = outer.take(i as int).flatten();
        let ghost inner = rl.scope_spans@.map_values(|sl: ScopeSpans| scope_span_entries(sl, rl.resource));
        let mut k: usize = 0;
        assert(inner.take(0) =~= Seq::<Seq<Placed<Span>>>::empty());
        assert(pre + inner.take(0).flatten() =~= pre);
        while k < rl.scope_spans.len()
            invariant
                k <= rl.scope_spans@.len(),
                rl == &request.resource_spans@[i as int],
                owned(resource) == rl.resource,
                inner == rl.scope_spans@.map_values(|sl: ScopeSpans| scope_span_entries(sl, rl.resource)),
                are_span_dtos(out@, pre + inner.take(k as int).flatten()),
            decreases rl.scope_spans@.len() - k,
        {
            let sl = &rl.scope_spans[k];
            let scope = sl.scope.as_ref();
            let ghost mid = pre + inner.take(k as int).flatten();
            let ghost recs = scope_span_entries(*sl, rl.resource);
            let mut m: usize = 0;
            assert(mid + recs.take(0) =~= mid);
            while m < sl.spans.len()
                invariant
                    m <= sl.spans@.len(),
                    sl == &rl.scope_spans@[k as int],
                    owned(scope) == sl.scope,
                    owned(resource) == rl.resource,
                    recs == scope_span_entries(*sl, rl.resource),
                    are_span_dtos(out@, mid + recs.take(m as int)),
                decreases sl.spans@.len() - m,
            {
                let dto = SpanDto::from_span(&sl.spans[m], scope, resource);
                out.push(dto);
                assert(mid + recs.take(m + 1) =~= (mid + recs.take(m as int)).push(recs[m as int]));
                m = m + 1;
            }
            assert(recs.take(sl.spans@.len() as int) =~= recs);
            proof {
                inner.take(k as int).lemma_flatten_push(inner[k as int]);
                assert(inner.take(k + 1) =~= inner.take(k as int).push(inner[k as int]));
            }
            assert(mid + recs =~= pre + inner.take(k + 1).flatten());
            k = k + 1;
        }
        assert(inner.take(rl.scope_spans@.len() as int) =~= inner);
        proof {
            outer.take(i as int).lemma_flatten_push(outer[i as int]);
            assert(outer.take(i + 1) =~= outer.take(i as int).push(outer[i as int]));
        }
        i = i + 1;
    }
    assert(outer.take(request.resource_spans@.len() as int) =~= outer);
    out
}

/// The metrics of a request, in order, each with its scope and resource.
pub open spec fn metric_entries(req: ExportMetricsServiceRequest) -> Seq<Placed<Metric>> {
    req.resource_metrics@.map_values(|rl: ResourceMetrics| resource_metric_entries(rl)).flatten()
}

/// The metrics under one resource, in order.
pub open spec fn resource_metric_entries(rl: ResourceMetrics) -> Seq<Placed<Metric>> {
    rl.scope_metrics@.map_values(|sl: ScopeMetrics| scope_metric_entries(sl, rl.resource)).flatten()
}

/// The metrics under one scope, in order.
pub open spec fn scope_metric_entries(sl: ScopeMetrics, res: Option<Resource>) -> Seq<Placed<Metric>> {
    sl.metrics@.map_values(|r: Metric| (r, sl.scope, res))
}

/// `d` holds the normalised forms of the placed metrics `e`, in order.
pub open spec fn are_metric_dtos(d: Seq<MetricDto>, e: Seq<Placed<Metric>>) -> bool {
    &&& d.len() == e.len()
    &&& forall|j: int| 0 <= j < e.len() ==> is_metric_dto(#[trigger] d[j], e[j].0, e[j].1, e[j].2)
}

/// The normalised form of every metric of `request`, in order.
pub fn normalize_metrics(request: &ExportMetricsServiceRequest) -> (r: Vec<MetricDto>)
    ensures
        are_metric_dtos(r@, metric_entries(*request)),
{
    let ghost outer = request.resource_metrics@.map_values(|rl: ResourceMetrics| resource_metric_entries(rl));
    let mut out: Vec<MetricDto> = Vec::new();
    let mut i: usize = 0;
    assert(outer.take(0) =~= Seq::<Seq<Placed<Metric>>>::empty());
    while i < request.resource_metrics.len()
        invariant
            i <= request.resource_metrics@.len(),
            outer == request.resource_metrics@.map_values(|rl: ResourceMetrics| resource_metric_entries(rl)),
            are_metric_dtos(out@, outer.take(i as int).flatten()),
        decreases request.resource_metrics@.len() - i,
    {
        let rl = &request.resource_metrics[i];
        let resource = rl.resource.as_ref();
        let ghost pre = outer.take(i as int).flatten();
        let ghost inner = rl.scope_metrics@.map_values(|sl: ScopeMetrics| scope_metric_entries(sl, rl.resource));
        let mut k: usize = 0;
        assert(inner.take(0) =~= Seq::<Seq<Placed<Metric>>>::empty());
        assert(pre + inner.take(0).flatten() =~= pre);
        while k < rl.scope_metrics.len()
            invariant
                k <= rl.scope_metrics@.len(),
                rl == &request.resource_metrics@[i as int],
                owned(resource) == rl.resource,
                inner == rl.scope_metrics@.map_values(|sl: ScopeMetrics| scope_metric_entries(sl, rl.resource)),
                are_metric_dtos(out@, pre + inner.take(k as int).flatten()),
            decreases rl.scope_metrics@.len() - k,
        {
            let sl = &rl.scope_metrics[k];
            let scope = sl.scope.as_ref();
            let ghost mid = pre + inner.take(k as int).flatten();
            let ghost recs = scope_metric_entries(*sl, rl.resource);
            let mut m: usize = 0;
            assert(mid + recs.take(0) =~= mid);
            while m < sl.metrics.len()
                invariant
                    m <= sl.metrics@.len(),
                    sl == &rl.scope_metrics@[k as int],
                    owned(scope) == sl.scope,
                    owned(resource) == rl.resource,
                    recs == scope_metric_entries(*sl, rl.resource),
                    are_metric_dtos(out@, mid + recs.take(m as int)),
                decreases sl.metrics@.len() - m,
            {
                let dto = MetricDto::from_metric(&sl.metrics[m], scope, resource);
                out.push(dto);
                assert(mid + recs.take(m + 1) =~= (mid + recs.take(m as int)).push(recs[m as int]));
                m = m + 1;
            }
            assert(recs.take(sl.metrics@.len() as int) =~= recs);
            proof {
                inner.take(k as int).lemma_flatten_push(inner[k as int]);
                assert(inner.take(k + 1) =~= inner.take(k as int).push(inner[k as int]));
            }
            assert(mid + recs =~= pre + inner.take(k + 1).flatten());
            k = k + 1;
        }
        assert(inner.take(rl.scope_metrics@.len() as int) =~= inner);
        proof {
            outer.take(i as int).lemma_flatten_push(outer[i as int]);
            assert(outer.take(i + 1) =~= outer.take(i as int).push(outer[i as int]));
        }
        i = i + 1;
    }
    assert(outer.take(request.resource_metrics@.len() as int) =~= outer);
    out
}

/// Normalises the records of export requests and publishes each on its
/// topic. It holds no state.
pub struct RequestProcessor {}

impl RequestProcessor {
    /// A processor.
    pub fn new() -> (r: RequestProcessor) {
        RequestProcessor {  }
    }

    /// Publishes the normalised form of every log record of `request`, in
    /// order, on the logs topic; returns how many receivers each reached.
    pub fn process_logs(&self, manager: &SubscriptionManager, request: ExportLogsServiceRequest) -> (r: Vec<usize>)
        requires
            manager.wf(),
        ensures
            r@.len() == log_entries(request).len(),
            !manager@.contains_key(LOGS_TOPIC@) ==> forall|j: int| 0 <= j < r@.len() ==> r@[j] == 0,
    {
        let dtos = normalize_logs(&request);
        let mut out: Vec<usize> = Vec::new();
        for dto in it: dtos
            invariant
                manager.wf(),
                out@.len() == it.index(),
                !manager@.contains_key(LOGS_TOPIC@) ==> forall|j: int| 0 <= j < out@.len() ==> out@[j] == 0,
        {
            out.push(manager.publish_log(dto));
        }
        out
    }

    /// Publishes the normalised form of every span of `request`, in order,
    /// on the traces topic; returns how many receivers each reached.
    pub fn process_traces(&self, manager: &SubscriptionManager, request: ExportTraceServiceRequest) -> (r: Vec<usize>)
        requires
            manager.wf(),
        ensures
            r@.len() == span_entries(request).len(),
            !manager@.contains_key(TRACES_TOPIC@) ==> forall|j: int| 0 <= j < r@.len() ==> r@[j] == 0,
    {
        let dtos = normalize_traces(&request);
        let mut out: Vec<usize> = Vec::new();
        for dto in it: dtos
            invariant
                manager.wf(),
                out@.len() == it.index(),
                !manager@.contains_key(TRACES_TOPIC@) ==> forall|j: int| 0 <= j < out@.len() ==> out@[j] == 0,
        {
            out.push(manager.publish_span(dto));
        }
        out
    }

    /// Publishes the normalised form of every metric of `request`, in order,
    /// on the metrics topic; returns how many receivers each reached.
    pub fn process_metrics(&self, manager: &SubscriptionManager, request: ExportMetricsServiceRequest) -> (r: Vec<usize>)
        requires
            manager.wf(),
        ensures
            r@.len() == metric_entries(request).len(),
            !manager@.contains_key(METRICS_TOPIC@) ==> forall|j: int| 0 <= j < r@.len() ==> r@[j] == 0,
    {
        let dtos = normalize_metrics(&request);
        let mut out: Vec<usize> = Vec::new();
        for dto in it: dtos
            invariant
                manager.wf(),
                out@.len() == it.index(),
                !manager@.contains_key(METRICS_TOPIC@) ==> forall|j: int| 0 <= j < out@.len() ==> out@[j] == 0,
        {
            out.push(manager.publish_metric(dto));
        }
        out
    }
}

} // verus!
