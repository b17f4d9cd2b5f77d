use otel_inspect::metrics::MetricDto;
use otel_inspect::otlp::{
    AnyValue, Event, Exemplar, HistogramDataPoint, InstrumentationScope, KeyValue, Link, LogRecord,
    Metric, MetricData, NumberDataPoint, PointValue, Resource, Span, Status,
};
use otel_inspect::{
    any_value_to_string, get_severity, AggregationTemporality, LogDto, MetricType, NumberValue,
    ResourceInfo, Severity, SpanDto, SpanKind, SpanStatusCode,
};

fn kv(key: &str, value: AnyValue) -> KeyValue {
    KeyValue { key: key.to_string(), value }
}

fn s(text: &str) -> AnyValue {
    AnyValue::Str(text.to_string())
}

fn record() -> LogRecord {
    LogRecord {
        time_unix_nano: 0,
        observed_time_unix_nano: 0,
        severity_number: 0,
        severity_text: String::new(),
        body: None,
        attributes: vec![],
        trace_id: vec![],
        span_id: vec![],
        event_name: String::new(),
    }
}

fn span() -> Span {
    Span {
        trace_id: vec![],
        span_id: vec![],
        parent_span_id: vec![],
        name: String::new(),
        kind: 0,
        start_time_unix_nano: 0,
        end_time_unix_nano: 0,
        attributes: vec![],
        events: vec![],
        links: vec![],
        status: None,
    }
}

fn tag<'a>(tags: &'a [(String, String)], key: &str) -> Option<&'a String> {
    tags.iter().rev().find(|(k, _)| k == key).map(|(_, v)| v)
}

fn from_otlp_case() {
    let mut r = record();
    r.time_unix_nano = 123456789;
    r.observed_time_unix_nano = 987654321;
    r.severity_text = "INFO".to_string();
    r.body = Some(s("test message"));
    r.attributes = vec![kv("tag1", s("val1"))];
    let scope = InstrumentationScope { name: "test-scope".to_string() };
    let resource = Resource { attributes: vec![kv("service.name", s("test-service"))] };

    let dto = LogDto::from_otlp(r, Some(&scope), Some(&resource));

    assert_eq!(dto.timestamp, 123456789);
    assert_eq!(dto.severity, Severity::Info);
    assert_eq!(dto.message, "test message");
    assert_eq!(dto.scope, "test-scope");
    assert_eq!(dto.resource.service_name, "test-service");
    assert_eq!(tag(&dto.tags, "tag1").unwrap(), "val1");
}

#[test]
fn logs_test_from_otlp() {
    from_otlp_case();
}

#[test]
fn log_dto_test_from_otlp() {
    from_otlp_case();
}

#[test]
fn test_convert_aggregation_temporality() {
    assert_eq!(MetricDto::map_aggregation_temporality(1), AggregationTemporality::Delta);
    assert_eq!(MetricDto::map_aggregation_temporality(2), AggregationTemporality::Cumulative);
    assert_eq!(MetricDto::map_aggregation_temporality(0), AggregationTemporality::Delta);
}

#[test]
fn unknown_temporality_ordinal_is_delta() {
    assert_eq!(MetricDto::map_aggregation_temporality(7), AggregationTemporality::Delta);
    assert_eq!(MetricDto::map_aggregation_temporality(-1), AggregationTemporality::Delta);
}

#[test]
fn severity_number_bands() {
    let expected = [
        Severity::Trace,
        Severity::Debug,
        Severity::Info,
        Severity::Warn,
        Severity::Error,
        Severity::Fatal,
    ];
    for n in 1..=24 {
        let mut r = record();
        r.severity_number = n;
        r.severity_text = "error".to_string();
        assert_eq!(get_severity(&r), expected[((n - 1) / 4) as usize]);
    }
}

#[test]
fn severity_text_is_matched_without_case() {
    let cases = [
        ("TRACE", Severity::Trace),
        ("Debug", Severity::Debug),
        ("Information", Severity::Info),
        ("WARNING", Severity::Warn),
        ("warn", Severity::Warn),
        ("Error", Severity::Error),
        ("CRITICAL", Severity::Fatal),
        ("fatal", Severity::Fatal),
    ];
    for (text, sev) in cases {
        let mut r = record();
        r.severity_number = 0;
        r.severity_text = text.to_string();
        assert_eq!(get_severity(&r), sev);
    }
}

#[test]
fn unmatched_severity_text_is_kept() {
    let mut r = record();
    r.severity_number = 25;
    r.severity_text = "Verbose".to_string();
    assert_eq!(get_severity(&r), Severity::Unknown("Verbose".to_string()));
}

#[test]
fn log_time_falls_back_to_observed_then_epoch() {
    let mut r = record();
    r.observed_time_unix_nano = 55;
    assert_eq!(LogDto::from_otlp(r, None, None).timestamp, 55);
    assert_eq!(LogDto::from_otlp(record(), None, None).timestamp, 0);
}

#[test]
fn log_without_resource_or_scope_has_empty_fields() {
    let dto = LogDto::from_otlp(record(), None, None);
    assert_eq!(dto.scope, "");
    assert_eq!(dto.message, "");
    assert_eq!(dto.resource.service_name, "");
    assert_eq!(dto.resource.service_version, "");
    assert_eq!(dto.resource.service_namespace, "");
    assert_eq!(dto.resource.service_instance_id, "");
    assert!(dto.resource.attributes.is_empty());
    assert!(dto.trace_id.is_none());
    assert!(dto.span_id.is_none());
    assert!(dto.event_name.is_none());
}

#[test]
fn log_event_name_and_ids() {
    let mut r = record();
    r.event_name = "login".to_string();
    r.trace_id = vec![0xab; 16];
    r.span_id = vec![0u8; 8];
    let dto = LogDto::from_otlp(r, None, None);
    assert_eq!(dto.event_name, Some("login".to_string()));
    assert_eq!(dto.trace_id.unwrap().as_str(), "abababababababababababababababab");
    assert!(dto.span_id.is_none());
}

#[test]
fn scenario_log_with_service_and_info_severity() {
    let mut r = record();
    r.severity_number = 9;
    r.body = Some(s("hello"));
    r.time_unix_nano = 1700000000000000000;
    let resource = Resource { attributes: vec![kv("service.name", s("svc-a"))] };
    let dto = LogDto::from_otlp(r, None, Some(&resource));
    assert_eq!(dto.severity, Severity::Info);
    assert_eq!(dto.message, "hello");
    assert_eq!(dto.resource.service_name, "svc-a");
    assert_eq!(dto.timestamp, 1700000000000000000);
}

#[test]
fn value_texts() {
    assert_eq!(any_value_to_string(AnyValue::Empty), "");
    assert_eq!(any_value_to_string(s("x y")), "x y");
    assert_eq!(any_value_to_string(AnyValue::Bool(true)), "true");
    assert_eq!(any_value_to_string(AnyValue::Bool(false)), "false");
    assert_eq!(any_value_to_string(AnyValue::Int(-42)), "-42");
    assert_eq!(any_value_to_string(AnyValue::Int(i64::MIN)), "-9223372036854775808");
    assert_eq!(any_value_to_string(AnyValue::Int(7)), "7");
    assert_eq!(any_value_to_string(AnyValue::Double("1.5".to_string())), "1.5");
    assert_eq!(any_value_to_string(AnyValue::Bytes(vec![0xde, 0xad])), "dead");
}

#[test]
fn nested_value_texts() {
    let arr = AnyValue::Array(vec![s("a"), AnyValue::Int(1), AnyValue::Bool(false)]);
    assert_eq!(any_value_to_string(arr), "a, 1, false");
    let list = AnyValue::KvList(vec![
        kv("k", s("v")),
        kv("n", AnyValue::Array(vec![AnyValue::Int(1), AnyValue::Int(2)])),
        kv("e", AnyValue::Empty),
    ]);
    assert_eq!(any_value_to_string(list), "k=v, n=1, 2, e=");
    assert_eq!(any_value_to_string(AnyValue::Array(vec![])), "");
}

#[test]
fn resource_promotes_service_keys() {
    let resource = Resource {
        attributes: vec![
            kv("service.name", s("first")),
            kv("host.name", s("box")),
            kv("service.version", s("1.0.0")),
            kv("service.namespace", s("rust")),
            kv("service.instance.id", s("abc")),
            kv("service.name", s("svc")),
            kv("pid", AnyValue::Int(12)),
        ],
    };
    let info = ResourceInfo::from(&resource);
    assert_eq!(info.service_name, "svc");
    assert_eq!(info.service_version, "1.0.0");
    assert_eq!(info.service_namespace, "rust");
    assert_eq!(info.service_instance_id, "abc");
    assert_eq!(
        info.attributes,
        vec![("host.name".to_string(), "box".to_string()), ("pid".to_string(), "12".to_string())]
    );
}

#[test]
fn span_with_zero_ids_omits_them() {
    let mut sp = span();
    sp.trace_id = vec![0u8; 16];
    sp.span_id = vec![0u8; 8];
    sp.parent_span_id = vec![1u8; 8];
    let dto = SpanDto::from_otlp(sp, None, None);
    assert!(dto.trace_id.is_none());
    assert!(dto.span_id.is_none());
    assert_eq!(dto.parent_span_id.unwrap().as_str(), "0101010101010101");
}

#[test]
fn span_fields_are_normalised() {
    let mut sp = span();
    sp.name = "GET /".to_string();
    sp.kind = 2;
    sp.start_time_unix_nano = 1000;
    sp.end_time_unix_nano = 2500;
    sp.trace_id = vec![1u8; 16];
    sp.attributes = vec![kv("http.status", AnyValue::Int(200))];
    sp.events = vec![Event {
        time_unix_nano: 1500,
        name: "retry".to_string(),
        attributes: vec![kv("n", AnyValue::Int(1))],
    }];
    sp.links = vec![Link {
        trace_id: vec![2u8; 16],
        span_id: vec![0u8; 8],
        trace_state: "a=b".to_string(),
        attributes: vec![],
    }];
    sp.status = Some(Status { message: "boom".to_string(), code: 2 });
    let scope = InstrumentationScope { name: "lib".to_string() };
    let dto = SpanDto::from_otlp(sp, Some(&scope), None);
    assert_eq!(dto.name, "GET /");
    assert_eq!(dto.kind, SpanKind::Server);
    assert_eq!(dto.start_time, 1000);
    assert_eq!(dto.end_time, 2500);
    assert_eq!(dto.start_time_unix_nano, "1000");
    assert_eq!(dto.end_time_unix_nano, "2500");
    assert_eq!(dto.scope, "lib");
    assert_eq!(dto.trace_id.unwrap().as_str(), "01010101010101010101010101010101");
    assert_eq!(dto.tags, vec![("http.status".to_string(), "200".to_string())]);
    assert_eq!(dto.events.len(), 1);
    assert_eq!(dto.events[0].name, "retry");
    assert_eq!(dto.events[0].timestamp, 1500);
    assert_eq!(dto.links.len(), 1);
    assert_eq!(dto.links[0].trace_id.as_ref().unwrap().as_str(), "02020202020202020202020202020202");
    assert!(dto.links[0].span_id.is_none());
    assert_eq!(dto.links[0].trace_state, "a=b");
    assert_eq!(dto.status.message, "boom");
    assert_eq!(dto.status.code, SpanStatusCode::Error);
}

#[test]
fn span_status_and_kind_defaults() {
    let dto = SpanDto::from_otlp(span(), None, None);
    assert_eq!(dto.status.message, "");
    assert_eq!(dto.status.code, SpanStatusCode::Unset);
    assert_eq!(dto.kind, SpanKind::Unspecified);
    let mut sp = span();
    sp.kind = 9;
    sp.status = Some(Status { message: String::new(), code: 5 });
    let dto = SpanDto::from_otlp(sp, None, None);
    assert_eq!(dto.kind, SpanKind::Unspecified);
    assert_eq!(dto.status.code, SpanStatusCode::Unset);
    let mut sp = span();
    sp.status = Some(Status { message: String::new(), code: 1 });
    assert_eq!(SpanDto::from_otlp(sp, None, None).status.code, SpanStatusCode::Success);
}

fn number_point(time: u64, value: PointValue) -> NumberDataPoint {
    NumberDataPoint {
        start_time_unix_nano: 1,
        time_unix_nano: time,
        value: Some(value),
        attributes: vec![],
        exemplars: vec![],
    }
}

#[test]
fn sum_metric_keeps_points_in_order() {
    let metric = Metric {
        name: "requests".to_string(),
        description: "count".to_string(),
        unit: "1".to_string(),
        data: Some(MetricData::Sum {
            data_points: vec![number_point(10, PointValue::Int(3)), number_point(20, PointValue::Int(5))],
            aggregation_temporality: 2,
            is_monotonic: true,
        }),
    };
    let dto = MetricDto::from_otlp(metric, None, None);
    assert_eq!(dto.name, "requests");
    assert_eq!(dto.description, "count");
    assert_eq!(dto.unit, "1");
    match dto.data {
        Some(MetricType::Sum(sum)) => {
            assert_eq!(sum.aggregation_temporality, AggregationTemporality::Cumulative);
            assert!(sum.is_monotonic);
            assert_eq!(sum.data_points.len(), 2);
            assert_eq!(sum.data_points[0].time_unix_nano.as_str(), "10");
            assert_eq!(sum.data_points[0].value, Some(NumberValue::Int(3)));
            assert_eq!(sum.data_points[1].time_unix_nano.as_str(), "20");
            assert_eq!(sum.data_points[1].value, Some(NumberValue::Int(5)));
        }
        _ => panic!("expected a sum"),
    }
}

#[test]
fn gauge_histogram_and_other_kinds() {
    let bits = 2.5f64.to_bits();
    let gauge = Metric {
        name: "g".to_string(),
        description: String::new(),
        unit: String::new(),
        data: Some(MetricData::Gauge { data_points: vec![number_point(5, PointValue::Double(bits))] }),
    };
    match MetricDto::from_otlp(gauge, None, None).data {
        Some(MetricType::Gauge(g)) => {
            assert_eq!(g.data_points[0].value, Some(NumberValue::Double(bits)));
        }
        _ => panic!("expected a gauge"),
    }
    let hist = Metric {
        name: "h".to_string(),
        description: String::new(),
        unit: String::new(),
        data: Some(MetricData::Histogram {
            data_points: vec![HistogramDataPoint {
                start_time_unix_nano: 0,
                time_unix_nano: 9,
                count: 4,
                sum: Some(bits),
                bucket_counts: vec![1, 3],
                explicit_bounds: vec![bits],
                exemplars: vec![Exemplar {
                    time_unix_nano: 8,
                    trace_id: vec![3u8; 16],
                    span_id: vec![4u8; 8],
                    value: Some(PointValue::Int(1)),
                }],
                min: None,
                max: Some(bits),
                attributes: vec![kv("le", s("x"))],
            }],
            aggregation_temporality: 1,
        }),
    };
    match MetricDto::from_otlp(hist, None, None).data {
        Some(MetricType::Histogram(h)) => {
            assert_eq!(h.aggregation_temporality, AggregationTemporality::Delta);
            let p = &h.data_points[0];
            assert_eq!(p.count, 4);
            assert_eq!(p.bucket_counts, vec![1, 3]);
            assert_eq!(p.explicit_bounds, vec![bits]);
            assert_eq!(p.sum, Some(bits));
            assert_eq!(p.min, None);
            assert_eq!(p.max, Some(bits));
            assert_eq!(p.time_unix_nano.as_str(), "9");
            assert_eq!(p.exemplars[0].time_unix_nano, "8");
            assert_eq!(p.exemplars[0].span_id.as_ref().unwrap().as_str(), "0404040404040404");
            assert_eq!(p.exemplars[0].value, Some(NumberValue::Int(1)));
            assert_eq!(p.attributes, vec![("le".to_string(), "x".to_string())]);
        }
        _ => panic!("expected a histogram"),
    }
    let summary = Metric {
        name: "s".to_string(),
        description: String::new(),
        unit: String::new(),
        data: Some(MetricData::Summary),
    };
    assert!(MetricDto::from_otlp(summary, None, None).data.is_none());
}
