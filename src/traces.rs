//! Spans normalised to `SpanDto`.

use vstd::prelude::*;
use crate::ids::{opt_view, span_id_from, span_id_of, trace_id_from, trace_id_of, SpanId, TraceId};
use crate::logs::{scope_name, scope_name_of};
use crate::otlp::{Event, InstrumentationScope, Link, Resource, Span, Status};
use crate::resource::{describes_opt, owned, resource_info_of, ResourceInfo};
use crate::text::{dec_of, u64_text};
use crate::values::{extract_tags, pairs_view, tags_of, Tags};

verus! {

/// The kind of a span.
#[derive(Debug, Clone, Copy, PartialEq, Eq)]
pub enum SpanKind {
    Unspecified,
    Internal,
    Server,
    Client,
    Producer,
    Consumer,
}

/// The kind that a protobuf ordinal names; an unknown ordinal is unspecified.
pub open spec fn kind_of(k: i32) -> SpanKind {
    if k == 1 {
        SpanKind::Internal
    } else if k == 2 {
        SpanKind::Server
    } else if k == 3 {
        SpanKind::Client
    } else if k == 4 {
        SpanKind::Producer
    } else if k == 5 {
        SpanKind::Consumer
    } else {
        SpanKind::Unspecified
    }
}

/// The kind that the protobuf ordinal `k` names.
pub fn span_kind(k: i32) -> (r: SpanKind)
    ensures
        r == kind_of(k),
{
    if k == 1 {
        SpanKind::Internal
    } else if k == 2 {
        SpanKind::Server
    } else if k == 3 {
        SpanKind::Client
    } else if k == 4 {
        SpanKind::Producer
    } else if k == 5 {
        SpanKind::Consumer
    } else {
        SpanKind::Unspecified
    }
}

/// The status code of a span.
#[derive(Debug, Clone, Copy, PartialEq, Eq)]
pub enum SpanStatusCode {
    Unset,
    /// The status that OTLP calls `Ok`.
    Success,
    Error,
}

/// The code that a protobuf ordinal names; an unknown ordinal is unset.
pub open spec fn code_of(c: i32) -> SpanStatusCode {
    if c == 1 {
        SpanStatusCode::Success
    } else if c == 2 {
        SpanStatusCode::Error
    } else {
        SpanStatusCode::Unset
    }
}

/// The code that the protobuf ordinal `c` names.
pub fn status_code(c: i32) -> (r: SpanStatusCode)
    ensures
        r == code_of(c),
{
    if c == 1 {
        SpanStatusCode::Success
    } else if c == 2 {
        SpanStatusCode::Error
    } else {
        SpanStatusCode::Unset
    }
}

/// The status of a span.
#[derive(Debug, Clone)]
pub struct SpanStatus {
    pub message: String,
    pub code: SpanStatusCode,
}

impl Default for SpanStatus {
    /// An empty message and an unset code.
    fn default() -> (r: SpanStatus)
        ensures
            r.message@.len() == 0,
            r.code == SpanStatusCode::Unset,
    {
        SpanStatus { message: String::new(), code: SpanStatusCode::Unset }
    }
}

/// `st` is what an optional status gives; none gives the default.
pub open spec fn is_status(st: SpanStatus, s: Option<Status>) -> bool {
    match s {
        Some(s) => st.message@ == s.message@ && st.code == code_of(s.code),
        None => st.message@.len() == 0 && st.code == SpanStatusCode::Unset,
    }
}

/// A timed event inside a span.
#[derive(Debug, Clone)]
pub struct SpanEvent {
    pub name: String,
    /// Nanoseconds since the Unix epoch.
    pub timestamp: u64,
    pub attributes: Tags,
}

/// A link from a span to another span.
#[derive(Debug, Clone)]
pub struct SpanLink {
    pub trace_id: Option<TraceId>,
    pub span_id: Option<SpanId>,
    pub trace_state: String,
    pub attributes: Tags,
}

/// `d` is the normalised form of the event `e`.
pub open spec fn is_event(d: SpanEvent, e: Event) -> bool {
    &&& d.name@ == e.name@
    &&& d.timestamp == e.time_unix_nano
    &&& pairs_view(d.attributes@) == tags_of(e.attributes@)
}

/// `d` is the normalised form of the link `l`.
pub open spec fn is_link(d: SpanLink, l: Link) -> bool {
    &&& opt_view(d.trace_id) == trace_id_of(l.trace_id@)
    &&& opt_view(d.span_id) == span_id_of(l.span_id@)
    &&& d.trace_state@ == l.trace_state@
    &&& pairs_view(d.attributes@) == tags_of(l.attributes@)
}

/// A span in normalised form.
#[derive(Debug, Clone)]
pub struct SpanDto {
    /// Nanoseconds since the Unix epoch.
    pub start_time: u64,
    /// Nanoseconds since the Unix epoch.
    pub end_time: u64,
    pub start_time_unix_nano: String,
    pub end_time_unix_nano: String,
    pub scope: String,
    pub name: String,
    pub trace_id: Option<TraceId>,
    pub span_id: Option<SpanId>,
    pub parent_span_id: Option<SpanId>,
    pub resource: ResourceInfo,
    pub kind: SpanKind,
    pub status: SpanStatus,
    pub events: Vec<SpanEvent>,
    pub links: Vec<SpanLink>,
    pub tags: Tags,
}

/// `dto` is the normalised form of `span` under `scope` and `resource`.
pub open spec fn is_span_dto(
    dto: SpanDto,
    span: Span,
    scope: Option<InstrumentationScope>,
    resource: Option<Resource>,
) -> bool {
    &&& dto.start_time == span.start_time_unix_nano
    &&& dto.end_time == span.end_time_unix_nano
    &&& dto.start_time_unix_nano@ == dec_of(span.start_time_unix_nano as nat)
    &&& dto.end_time_unix_nano@ == dec_of(span.end_time_unix_nano as nat)
    &&& dto.scope@ == scope_name(scope)
    &&& dto.name@ == span.name@
    &&& opt_view(dto.trace_id) == trace_id_of(span.trace_id@)
    &&& opt_view(dto.span_id) == span_id_of(span.span_id@)
    &&& opt_view(dto.parent_span_id) == span_id_of(span.parent_span_id@)
    &&& describes_opt(dto.resource, resource)
    &&& dto.kind == kind_of(span.kind)
    &&& is_status(dto.status, span.status)
    &&& dto.events@.len() == span.events@.len()
    &&& (forall|i: int| 0 <= i < span.events@.len() ==> is_event(#[trigger] dto.events@[i], span.events@[i]))
    &&& dto.links@.len() == span.links@.len()
    &&& (forall|i: int| 0 <= i < span.links@.len() ==> is_link(#[trigger] dto.links@[i], span.links@[i]))
    &&& pairs_view(dto.tags@) == tags_of(span.attributes@)
}

/// The normalised events, in order.
fn map_events(events: &Vec<Event>) -> (r: Vec<SpanEvent>)
    ensures
        r@.len() == events@.len(),
        forall|i: int| 0 <= i < events@.len() ==> is_event(#[trigger] r@[i], events@[i]),
{
    let mut out: Vec<SpanEvent> = Vec::new();
    let mut i: usize = 0;
    while i < events.len()
        invariant
            i <= events@.len(),
            out@.len() == i,
            forall|j: int| 0 <= j < i ==> is_event(#[trigger] out@[j], events@[j]),
        decreases events@.len() - i,
    {
        let e = &events[i];
        out.push(
            SpanEvent {
                name: e.name.clone(),
                timestamp: e.time_unix_nano,
                attributes: extract_tags(&e.attributes),
            },
        );
        i = i + 1;
    }
    out
}

/// The normalised links, in order.
fn map_links(links: &Vec<Link>) -> (r: Vec<SpanLink>)
    ensures
        r@.len() == links@.len(),
        forall|i: int| 0 <= i < links@.len() ==> is_link(#[trigger] r@[i], links@[i]),
{
    let mut out: Vec<SpanLink> = Vec::new();
    let mut i: usize = 0;
    while i < links.len()
        invariant
            i <= links@.len(),
            out@.len() == i,
            forall|j: int| 0 <= j < i ==> is_link(#[trigger] out@[j], links@[j]),
        decreases links@.len() - i,
    {
        let l = &links[i];
        out.push(
            SpanLink {
                trace_id: trace_id_from(&l.trace_id),
                span_id: span_id_from(&l.span_id),
                trace_state: l.trace_state.clone(),
                attributes: extract_tags(&l.attributes),
            },
        );
        i = i + 1;
    }
    out
}

impl SpanDto {
    /// Normalises one span: times, scope name, valid identifiers, resource
    /// identity, kind, status, events, links and attribute tags.
    pub fn from_otlp(
        span: Span,
        scope: Option<&InstrumentationScope>,
        resource: Option<&Resource>,
    ) -> (r: SpanDto)
        ensures
            is_span_dto(r, span, owned(scope), owned(resource)),
    {
        SpanDto::from_span(&span, scope, resource)
    }

    /// Normalises one span, read in place.
    pub fn from_span(
        span: &Span,
        scope: Option<&InstrumentationScope>,
        resource: Option<&Resource>,
    ) -> (r: SpanDto)
        ensures
            is_span_dto(r, *span, owned(scope), owned(resource)),
    {
        let status = match &span.status {
            Some(s) => SpanStatus { message: s.message.clone(), code: status_code(s.code) },
            None => SpanStatus::default(),
        };
        SpanDto {
            start_time: span.start_time_unix_nano,
            end_time: span.end_time_unix_nano,
            start_time_unix_nano: u64_text(span.start_time_unix_nano),
            end_time_unix_nano: u64_text(span.end_time_unix_nano),
            scope: scope_name_of(scope),
            name: span.name.clone(),
            trace_id: trace_id_from(&span.trace_id),
            span_id: span_id_from(&span.span_id),
            parent_span_id: span_id_from(&span.parent_span_id),
            resource: resource_info_of(resource),
            kind: span_kind(span.kind),
            status,
            events: map_events(&span.events),
            links: map_links(&span.links),
            tags: extract_tags(&span.attributes),
        }
    }
}

} // verus!
