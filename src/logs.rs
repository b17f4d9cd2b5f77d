//! Log records normalised to `LogDto`, with the severity derived from the
//! severity number or, failing that, from the severity text.

use vstd::prelude::*;
use crate::ids::{opt_view, span_id_from, span_id_of, trace_id_from, trace_id_of, SpanId, TraceId};
use crate::otlp::{InstrumentationScope, LogRecord, Resource};
use crate::resource::{describes_opt, last_value, owned, resource_info_of, ResourceInfo};
use crate::text::same_text;
use crate::values::{extract_tags, pairs_view, tags_of, value_text, value_to_string, Tags};

verus! {

/// What `str::to_lowercase` makes of the characters `s`.
pub uninterp spec fn lower_of(s: Seq<char>) -> Seq<char>;

/// Relies on `str::to_lowercase`: the result depends on the characters alone.
#[verifier::external_body]
fn lowercase(s: &str) -> (r: String)
    ensures
        r@ == lower_of(s@),
{
    s.to_lowercase()
}

/// The severity of a log record.
#[derive(Debug, Clone, PartialEq, Eq)]
pub enum Severity {
    Trace,
    Debug,
    Info,
    Warn,
    Error,
    Fatal,
    /// A severity text that matched no level, as it was given.
    Unknown(String),
}

/// The level of a severity: 0 for trace up to 5 for fatal, 6 for unknown.
pub open spec fn level(s: Severity) -> int {
    match s {
        Severity::Trace => 0,
        Severity::Debug => 1,
        Severity::Info => 2,
        Severity::Warn => 3,
        Severity::Error => 4,
        Severity::Fatal => 5,
        Severity::Unknown(_) => 6,
    }
}

/// The level that a severity number in 1 to 24 gives: four numbers per level.
pub open spec fn band_level(n: i32) -> int {
    (n as int - 1) / 4
}

/// The level that lowercase severity text gives.
pub open spec fn text_level(lowered: Seq<char>) -> int {
    if lowered == "trace"@ {
        0
    } else if lowered == "debug"@ {
        1
    } else if lowered == "info"@ || lowered == "information"@ {
        2
    } else if lowered == "warn"@ || lowered == "warning"@ {
        3
    } else if lowered == "error"@ {
        4
    } else if lowered == "fatal"@ || lowered == "critical"@ {
        5
    } else {
        6
    }
}

/// The level that a severity number and the lowercase severity text give.
pub open spec fn severity_level(n: i32, lowered: Seq<char>) -> int {
    if 1 <= n <= 24 {
        band_level(n)
    } else {
        text_level(lowered)
    }
}

/// `s` is the severity of a record with number `n`, severity text `text`,
/// and `lowered` as that text in lowercase.
pub open spec fn is_severity(s: Severity, n: i32, lowered: Seq<char>, text: Seq<char>) -> bool {
    &&& level(s) == severity_level(n, lowered)
    &&& (s is Unknown ==> s->Unknown_0@ == text)
}

/// The severity of a record whose number is `number` and whose severity text
/// is `text`, of which `lowered` is the lowercase form. The number decides
/// when it lies in 1 to 24; else the text, case-insensitively.
pub fn severity_from_parts(number: i32, lowered: &String, text: &String) -> (r: Severity)
    ensures
        is_severity(r, number, lowered@, text@),
{
    if 1 <= number && number <= 4 {
        Severity::Trace
    } else if 5 <= number && number <= 8 {
        Severity::Debug
    } else if 9 <= number && number <= 12 {
        Severity::Info
    } else if 13 <= number && number <= 16 {
        Severity::Warn
    } else if 17 <= number && number <= 20 {
        Severity::Error
    } else if 21 <= number && number <= 24 {
        Severity::Fatal
    } else if same_text(lowered, "trace") {
        Severity::Trace
    } else if same_text(lowered, "debug") {
        Severity::Debug
    } else if same_text(lowered, "info") || same_text(lowered, "information") {
        Severity::Info
    } else if same_text(lowered, "warn") || same_text(lowered, "warning") {
        Severity::Warn
    } else if same_text(lowered, "error") {
        Severity::Error
    } else if same_text(lowered, "fatal") || same_text(lowered, "critical") {
        Severity::Fatal
    } else {
        Severity::Unknown(text.clone())
    }
}

/// The severity of a log record.
pub fn get_severity(log_record: &LogRecord) -> (r: Severity)
    ensures
        is_severity(
            r,
            log_record.severity_number,
            lower_of(log_record.severity_text@),
            log_record.severity_text@,
        ),
{
    let lowered = lowercase(log_record.severity_text.as_str());
    severity_from_parts(log_record.severity_number, &lowered, &log_record.severity_text)
}

/// A severity number in 1 to 24 alone decides the severity, by its band of
/// four: whatever the severity text, the level is the same.
pub proof fn severity_number_decides(
    n: i32,
    lowered1: Seq<char>,
    text1: Seq<char>,
    lowered2: Seq<char>,
    text2: Seq<char>,
    s1: Severity,
    s2: Severity,
)
    requires
        1 <= n <= 24,
        is_severity(s1, n, lowered1, text1),
        is_severity(s2, n, lowered2, text2),
    ensures
        s1 == s2,
        level(s1) == (n - 1) / 4,
{
}

/// A log record in normalised form.
#[derive(Debug, Clone)]
pub struct LogDto {
    /// Nanoseconds since the Unix epoch.
    pub timestamp: u64,
    pub severity: Severity,
    pub message: String,
    pub scope: String,
    pub trace_id: Option<TraceId>,
    pub span_id: Option<SpanId>,
    pub event_name: Option<String>,
    pub resource: ResourceInfo,
    pub tags: Tags,
}

/// The time of a record: its own time if set, else the time it was observed.
pub open spec fn log_time(record: LogRecord) -> u64 {
    if record.time_unix_nano > 0 {
        record.time_unix_nano
    } else {
        record.observed_time_unix_nano
    }
}

/// The name of an optional scope; none gives empty text.
pub open spec fn scope_name(scope: Option<InstrumentationScope>) -> Seq<char> {
    match scope {
        Some(s) => s.name@,
        None => Seq::empty(),
    }
}

/// `dto` is the normalised form of `record` under `scope` and `resource`.
pub open spec fn is_log_dto(
    dto: LogDto,
    record: LogRecord,
    scope: Option<InstrumentationScope>,
    resource: Option<Resource>,
) -> bool {
    &&& dto.timestamp == log_time(record)
    &&& is_severity(
        dto.severity,
        record.severity_number,
        lower_of(record.severity_text@),
        record.severity_text@,
    )
    &&& dto.message@ == match record.body {
        Some(v) => value_text(v),
        None => Seq::empty(),
    }
    &&& dto.scope@ == scope_name(scope)
    &&& opt_view(dto.trace_id) == trace_id_of(record.trace_id@)
    &&& opt_view(dto.span_id) == span_id_of(record.span_id@)
    &&& (dto.event_name is None <==> record.event_name@.len() == 0)
    &&& (dto.event_name is Some ==> dto.event_name->Some_0@ == record.event_name@)
    &&& describes_opt(dto.resource, resource)
    &&& pairs_view(dto.tags@) == tags_of(record.attributes@)
}

/// Normalisation keeps what a record says: the message body's text, the
/// scope's name, the resource's service name, version, namespace and
/// instance id, every attribute's key with its value's text, and the time to
/// the nanosecond.
pub proof fn log_dto_keeps_record(
    dto: LogDto,
    record: LogRecord,
    scope: InstrumentationScope,
    resource: Resource,
)
    requires
        is_log_dto(dto, record, Some(scope), Some(resource)),
    ensures
        record.body is Some ==> dto.message@ == value_text(record.body->Some_0),
        dto.scope@ == scope.name@,
        dto.resource.service_name@ == last_value(resource.attributes@, "service.name"@),
        dto.resource.service_version@ == last_value(resource.attributes@, "service.version"@),
        dto.resource.service_namespace@ == last_value(resource.attributes@, "service.namespace"@),
        dto.resource.service_instance_id@ == last_value(
            resource.attributes@,
            "service.instance.id"@,
        ),
        pairs_view(dto.tags@).len() == record.attributes@.len(),
        forall|i: int|
            0 <= i < record.attributes@.len() ==> #[trigger] pairs_view(dto.tags@)[i] == (
                record.attributes@[i].key@,
                value_text(record.attributes@[i].value),
            ),
        record.time_unix_nano > 0 ==> dto.timestamp == record.time_unix_nano,
{
}

/// The name of an optional scope.
pub(crate) fn scope_name_of(scope: Option<&InstrumentationScope>) -> (r: String)
    ensures
        r@ == scope_name(owned(scope)),
{
    match scope {
        Some(s) => s.name.clone(),
        None => String::new(),
    }
}

impl LogDto {
    /// Normalises one log record: time, severity, message, scope name,
    /// valid identifiers, event name if not empty, resource identity and
    /// attribute tags.
    pub fn from_otlp(
        record: LogRecord,
        scope: Option<&InstrumentationScope>,
        resource: Option<&Resource>,
    ) -> (r: LogDto)
        ensures
            is_log_dto(r, record, owned(scope), owned(resource)),
    {
        LogDto::from_record(&record, scope, resource)
    }

    /// Normalises one log record, read in place.
    pub fn from_record(
        record: &LogRecord,
        scope: Option<&InstrumentationScope>,
        resource: Option<&Resource>,
    ) -> (r: LogDto)
        ensures
            is_log_dto(r, *record, owned(scope), owned(resource)),
    {
        let timestamp = if record.time_unix_nano > 0 {
            record.time_unix_nano
        } else {
            record.observed_time_unix_nano
        };
        let severity = get_severity(record);
        let message = match &record.body {
            Some(b) => value_to_string(b),
            None => String::new(),
        };
        let trace_id = trace_id_from(&record.trace_id);
        let span_id = span_id_from(&record.span_id);
        let tags = extract_tags(&record.attributes);
        let event_name = if record.event_name.as_str().is_empty() {
            None
        } else {
            Some(record.event_name.clone())
        };
        LogDto {
            timestamp,
            severity,
            message,
            scope: scope_name_of(scope),
            trace_id,
            span_id,
            event_name,
            resource: resource_info_of(resource),
            tags,
        }
    }
}

} // verus!
