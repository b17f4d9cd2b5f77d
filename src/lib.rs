//! Ingest-and-fanout engine of an OpenTelemetry inspector: OTLP records are
//! normalised into stable DTOs and broadcast by topic to subscribed clients
//! of WebSocket sessions.

pub mod ids;
pub mod ingest;
pub mod logs;
pub mod metrics;
pub mod otlp;
pub mod processor;
pub mod resource;
pub mod session;
pub mod subscriptions;
pub mod text;
pub mod traces;
pub mod values;

pub use ids::{is_valid, is_valid_span_id, is_valid_trace_id, Nanoseconds, SpanId, TraceId};
pub use ingest::{body_format, BodyFormat, IngestError};
pub use logs::{get_severity, severity_from_parts, LogDto, Severity};
pub use metrics::{
    AggregationTemporality, Examplar, GaugeMetric, HistogramDataPoint, HistogramMetric, MetricDto,
    MetricType, NumberDataPoint, NumberValue, SumMetric,
};
pub use processor::RequestProcessor;
pub use resource::ResourceInfo;
pub use session::{Action, Command, Session};
pub use subscriptions::{ClientId, Message, Payload, SubscriptionManager, Topic};
pub use text::bytes_to_hex;
pub use traces::{SpanDto, SpanEvent, SpanKind, SpanLink, SpanStatus, SpanStatusCode};
pub use values::any_value_to_string;
