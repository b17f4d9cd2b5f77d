//! The OTLP records as the normaliser reads them: plain values, one type per
//! protobuf message, holding the fields that normalisation looks at.

use vstd::prelude::*;

verus! {

/// An attribute value. `Empty` stands for a value that was not set.
#[derive(Debug)]
pub enum AnyValue {
    Empty,
    Str(String),
    Bool(bool),
    Int(i64),
    /// A double, held as the text that Rust's `Display` gives for it.
    Double(String),
    Bytes(Vec<u8>),
    Array(Vec<AnyValue>),
    KvList(Vec<KeyValue>),
}

/// A key and its value; a missing value is `AnyValue::Empty`.
#[derive(Debug)]
pub struct KeyValue {
    pub key: String,
    pub value: AnyValue,
}

/// The instrumentation scope of a batch of records.
#[derive(Debug)]
pub struct InstrumentationScope {
    pub name: String,
}

/// The producer of a batch of records.
#[derive(Debug)]
pub struct Resource {
    pub attributes: Vec<KeyValue>,
}

/// One log record.
#[derive(Debug)]
pub struct LogRecord {
    pub time_unix_nano: u64,
    pub observed_time_unix_nano: u64,
    pub severity_number: i32,
    pub severity_text: String,
    pub body: Option<AnyValue>,
    pub attributes: Vec<KeyValue>,
    pub trace_id: Vec<u8>,
    pub span_id: Vec<u8>,
    pub event_name: String,
}

/// A timed event inside a span.
#[derive(Debug)]
pub struct Event {
    pub time_unix_nano: u64,
    pub name: String,
    pub attributes: Vec<KeyValue>,
}

/// A link from a span to another span.
#[derive(Debug)]
pub struct Link {
    pub trace_id: Vec<u8>,
    pub span_id: Vec<u8>,
    pub trace_state: String,
    pub attributes: Vec<KeyValue>,
}

/// The status of a span; `code` is the protobuf ordinal.
#[derive(Debug)]
pub struct Status {
    pub message: String,
    pub code: i32,
}

/// One span; `kind` is the protobuf ordinal.
#[derive(Debug)]
pub struct Span {
    pub trace_id: Vec<u8>,
    pub span_id: Vec<u8>,
    pub parent_span_id: Vec<u8>,
    pub name: String,
    pub kind: i32,
    pub start_time_unix_nano: u64,
    pub end_time_unix_nano: u64,
    pub attributes: Vec<KeyValue>,
    pub events: Vec<Event>,
    pub links: Vec<Link>,
    pub status: Option<Status>,
}

/// A measured value; a double is held as its IEEE-754 bit pattern.
#[derive(Debug, Clone, Copy, PartialEq, Eq)]
pub enum PointValue {
    Int(i64),
    Double(u64),
}

/// An example measurement attached to a data point.
#[derive(Debug)]
pub struct Exemplar {
    pub time_unix_nano: u64,
    pub trace_id: Vec<u8>,
    pub span_id: Vec<u8>,
    pub value: Option<PointValue>,
}

/// A data point of a gauge or a sum.
#[derive(Debug)]
pub struct NumberDataPoint {
    pub start_time_unix_nano: u64,
    pub time_unix_nano: u64,
    pub value: Option<PointValue>,
    pub attributes: Vec<KeyValue>,
    pub exemplars: Vec<Exemplar>,
}

/// A data point of a histogram; doubles are held as IEEE-754 bit patterns.
#[derive(Debug)]
pub struct HistogramDataPoint {
    pub start_time_unix_nano: u64,
    pub time_unix_nano: u64,
    pub count: u64,
    pub sum: Option<u64>,
    pub bucket_counts: Vec<u64>,
    pub explicit_bounds: Vec<u64>,
    pub exemplars: Vec<Exemplar>,
    pub min: Option<u64>,
    pub max: Option<u64>,
    pub attributes: Vec<KeyValue>,
}

/// The data of a metric. The contents of the last two kinds are not read.
#[derive(Debug)]
#[allow(inconsistent_fields)]
pub enum MetricData {
    Gauge { data_points: Vec<NumberDataPoint> },
    Sum { data_points: Vec<NumberDataPoint>, aggregation_temporality: i32, is_monotonic: bool },
    Histogram { data_points: Vec<HistogramDataPoint>, aggregation_temporality: i32 },
    ExponentialHistogram,
    Summary,
}

/// One metric.
#[derive(Debug)]
pub struct Metric {
    pub name: String,
    pub description: String,
    pub unit: String,
    pub data: Option<MetricData>,
}

/// Log records of one scope.
#[derive(Debug)]
pub struct ScopeLogs {
    pub scope: Option<InstrumentationScope>,
    pub log_records: Vec<LogRecord>,
}

/// Log records of one resource.
#[derive(Debug)]
pub struct ResourceLogs {
    pub resource: Option<Resource>,
    pub scope_logs: Vec<ScopeLogs>,
}

/// An export request of logs.
#[derive(Debug)]
pub struct ExportLogsServiceRequest {
    pub resource_logs: Vec<ResourceLogs>,
}

/// Spans of one scope.
#[derive(Debug)]
pub struct ScopeSpans {
    pub scope: Option<InstrumentationScope>,
    pub spans: Vec<Span>,
}

/// Spans of one resource.
#[derive(Debug)]
pub struct ResourceSpans {
    pub resource: Option<Resource>,
    pub scope_spans: Vec<ScopeSpans>,
}

/// An export request of spans.
#[derive(Debug)]
pub struct ExportTraceServiceRequest {
    pub resource_spans: Vec<ResourceSpans>,
}

/// Metrics of one scope.
#[derive(Debug)]
pub struct ScopeMetrics {
    pub scope: Option<InstrumentationScope>,
    pub metrics: Vec<Metric>,
}

/// Metrics of one resource.
#[derive(Debug)]
pub struct ResourceMetrics {
    pub resource: Option<Resource>,
    pub scope_metrics: Vec<ScopeMetrics>,
}

/// An export request of metrics.
#[derive(Debug)]
pub struct ExportMetricsServiceRequest {
    pub resource_metrics: Vec<ResourceMetrics>,
}

} // verus!
