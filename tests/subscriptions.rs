use otel_inspect::otlp::{
    ExportLogsServiceRequest, ExportMetricsServiceRequest, ExportTraceServiceRequest, LogRecord,
    Metric, MetricData, NumberDataPoint, PointValue, Resource, ResourceLogs, ResourceMetrics,
    ResourceSpans, ScopeLogs, ScopeMetrics, ScopeSpans, Span, AnyValue, KeyValue,
};
use otel_inspect::processor::normalize_logs;
use otel_inspect::{Message, MetricType, Payload, RequestProcessor, Severity, SubscriptionManager};
use otel_inspect::subscriptions::{delivered_count, log_message, metric_message, span_message};
use tokio::sync::broadcast::error::{SendError, TryRecvError};
use tokio::sync::broadcast::Receiver;

fn raw(m: &Message) -> String {
    match &m.payload {
        Payload::Raw(s) => s.clone(),
        _ => panic!("expected raw text"),
    }
}

fn collect_messages(mut receiver: Receiver<Message>) -> Vec<Message> {
    let mut messages: Vec<Message> = Vec::new();
    loop {
        match receiver.try_recv() {
            Ok(msg) => messages.push(msg),
            Err(TryRecvError::Lagged(_)) => continue,
            Err(_) => break,
        }
    }
    messages
}

#[test]
fn test_subscribe() {
    let mut manager = SubscriptionManager::new();
    let mut r0 = manager.subscribe("test-topic".to_string(), "test-client".to_string());
    let mut r1 = manager.subscribe("test-topic".to_string(), "test-client-2".to_string());

    let message = Message::new("test-topic", "test");
    let res = manager.publish(message);
    assert_eq!(2, res);

    let m0 = r0.try_recv().unwrap();
    let m1 = r1.try_recv().unwrap();
    assert_eq!("test", raw(&m0));
    assert_eq!("test", raw(&m1));

    manager.unsubscribe_client(&"test-client".to_string());
    manager.unsubscribe_client(&"test-client-2".to_string());
}

#[test]
fn test_unsubscribe_client() {
    let mut manager = SubscriptionManager::new();
    let r = manager.subscribe("test-topic".to_string(), "test-client".to_string());

    let message = Message::new("test-topic", "first");
    let res = manager.publish(message);
    assert_eq!(1, res);
    manager.unsubscribe_client(&"test-client".to_string());
    let message = Message::new("test-topic", "second");
    let res = manager.publish(message);
    assert_eq!(0, res);

    let messages = collect_messages(r);
    assert_eq!(1, messages.len());
}

#[test]
fn test_unsubscribe_topic() {
    let mut manager = SubscriptionManager::new();
    let r0 = manager.subscribe("test-topic-0".to_string(), "test-client".to_string());
    let r1 = manager.subscribe("test-topic-1".to_string(), "test-client".to_string());

    let message = Message::new("test-topic-0", "first");
    let res = manager.publish(message);
    assert_eq!(1, res);
    let message = Message::new("test-topic-1", "first");
    let res = manager.publish(message);
    assert_eq!(1, res);

    manager.unsubscribe(&"test-client".to_string(), &"test-topic-0".to_string());

    let message = Message::new("test-topic-0", "second");
    let res = manager.publish(message);
    assert_eq!(0, res);
    let message = Message::new("test-topic-1", "second");
    let res = manager.publish(message);
    assert_eq!(1, res);

    manager.unsubscribe_client(&"test-client".to_string());
    let m0 = collect_messages(r0);
    let m1 = collect_messages(r1);

    assert_eq!(1, m0.len());
    assert_eq!(2, m1.len());
}

#[test]
fn publish_without_subscribers_returns_zero() {
    let manager = SubscriptionManager::new();
    assert_eq!(manager.publish(Message::new("nobody", "x")), 0);
    let mut manager = SubscriptionManager::new();
    let _r = manager.subscribe("a".to_string(), "c".to_string());
    assert_eq!(manager.publish(Message::new("b", "x")), 0);
    assert_eq!(manager.publish(Message::new("a", "x")), 1);
}

#[test]
fn dropped_receivers_count_as_none() {
    let mut manager = SubscriptionManager::new();
    let r = manager.subscribe("a".to_string(), "c".to_string());
    drop(r);
    assert_eq!(manager.publish(Message::new("a", "x")), 0);
}

#[test]
fn single_subscriber_reads_messages_in_order() {
    let mut manager = SubscriptionManager::new();
    let r = manager.subscribe("t".to_string(), "c".to_string());
    for i in 0..100 {
        assert_eq!(manager.publish(Message::new("t", &i.to_string())), 1);
    }
    let got: Vec<String> = collect_messages_until_empty(r);
    let want: Vec<String> = (0..100).map(|i: i32| i.to_string()).collect();
    assert_eq!(got, want);
}

fn collect_messages_until_empty(mut receiver: Receiver<Message>) -> Vec<String> {
    let mut out = Vec::new();
    while let Ok(m) = receiver.try_recv() {
        out.push(raw(&m));
    }
    out
}

#[test]
fn slow_receiver_loses_the_oldest() {
    let mut manager = SubscriptionManager::new();
    let mut r = manager.subscribe("t".to_string(), "c".to_string());
    for i in 0..130 {
        manager.publish(Message::new("t", &i.to_string()));
    }
    assert!(matches!(r.try_recv(), Err(TryRecvError::Lagged(_))));
    let rest = collect_messages_until_empty(r);
    assert_eq!(rest.last().unwrap(), "129");
    assert!(rest.len() <= 128);
}

#[test]
fn unsubscribe_client_keeps_other_clients() {
    let mut manager = SubscriptionManager::new();
    let _a = manager.subscribe("logs".to_string(), "a".to_string());
    let _b = manager.subscribe("logs".to_string(), "b".to_string());
    let _c = manager.subscribe("traces".to_string(), "a".to_string());
    manager.unsubscribe_client(&"a".to_string());
    assert_eq!(manager.publish(Message::new("traces", "x")), 0);
    assert_eq!(manager.publish(Message::new("logs", "x")), 2);
}

fn log(n: i32, body: &str) -> LogRecord {
    LogRecord {
        time_unix_nano: 1,
        observed_time_unix_nano: 0,
        severity_number: n,
        severity_text: String::new(),
        body: Some(AnyValue::Str(body.to_string())),
        attributes: vec![],
        trace_id: vec![],
        span_id: vec![],
        event_name: String::new(),
    }
}

fn logs_request() -> ExportLogsServiceRequest {
    let resource = Resource {
        attributes: vec![KeyValue { key: "service.name".to_string(), value: AnyValue::Str("svc-a".to_string()) }],
    };
    ExportLogsServiceRequest {
        resource_logs: vec![
            ResourceLogs {
                resource: Some(resource),
                scope_logs: vec![
                    ScopeLogs { scope: None, log_records: vec![log(9, "one"), log(13, "two")] },
                    ScopeLogs { scope: None, log_records: vec![] },
                ],
            },
            ResourceLogs {
                resource: None,
                scope_logs: vec![ScopeLogs { scope: None, log_records: vec![log(17, "three")] }],
            },
        ],
    }
}

#[test]
fn normalized_logs_follow_the_envelope_order() {
    let dtos = normalize_logs(&logs_request());
    let bodies: Vec<&str> = dtos.iter().map(|d| d.message.as_str()).collect();
    assert_eq!(bodies, vec!["one", "two", "three"]);
    assert_eq!(dtos[0].resource.service_name, "svc-a");
    assert_eq!(dtos[2].resource.service_name, "");
    assert_eq!(dtos[1].severity, Severity::Warn);
}

#[test]
fn processor_publishes_each_log_on_the_logs_topic() {
    let mut manager = SubscriptionManager::new();
    let r = manager.subscribe("logs".to_string(), "c".to_string());
    let processor = RequestProcessor::new();
    let counts = processor.process_logs(&manager, logs_request());
    assert_eq!(counts, vec![1, 1, 1]);
    let got = collect_messages(r);
    assert_eq!(got.len(), 3);
    for m in &got {
        assert_eq!(m.topic, "logs");
        assert!(matches!(m.payload, Payload::Log(_)));
    }
    let none = processor.process_traces(
        &manager,
        ExportTraceServiceRequest {
            resource_spans: vec![ResourceSpans {
                resource: None,
                scope_spans: vec![ScopeSpans {
                    scope: None,
                    spans: vec![Span {
                        trace_id: vec![],
                        span_id: vec![],
                        parent_span_id: vec![],
                        name: "s".to_string(),
                        kind: 0,
                        start_time_unix_nano: 0,
                        end_time_unix_nano: 0,
                        attributes: vec![],
                        events: vec![],
                        links: vec![],
                        status: None,
                    }],
                }],
            }],
        },
    );
    assert_eq!(none, vec![0]);
}

#[test]
fn two_subscribers_each_get_one_sum_event() {
    let mut manager = SubscriptionManager::new();
    let r1 = manager.subscribe("metrics".to_string(), "a".to_string());
    let r2 = manager.subscribe("metrics".to_string(), "b".to_string());
    let point = |v: i64| NumberDataPoint {
        start_time_unix_nano: 0,
        time_unix_nano: v as u64,
        value: Some(PointValue::Int(v)),
        attributes: vec![],
        exemplars: vec![],
    };
    let request = ExportMetricsServiceRequest {
        resource_metrics: vec![ResourceMetrics {
            resource: None,
            scope_metrics: vec![ScopeMetrics {
                scope: None,
                metrics: vec![Metric {
                    name: "m".to_string(),
                    description: String::new(),
                    unit: String::new(),
                    data: Some(MetricData::Sum {
                        data_points: vec![point(1), point(2)],
                        aggregation_temporality: 2,
                        is_monotonic: true,
                    }),
                }],
            }],
        }],
    };
    assert_eq!(RequestProcessor::new().process_metrics(&manager, request), vec![2]);
    for r in [r1, r2] {
        let got = collect_messages(r);
        assert_eq!(got.len(), 1);
        match &got[0].payload {
            Payload::Metric(m) => match &m.data {
                Some(MetricType::Sum(s)) => {
                    assert!(s.is_monotonic);
                    assert_eq!(s.data_points.len(), 2);
                    assert_eq!(s.data_points[0].time_unix_nano.as_str(), "1");
                    assert_eq!(s.data_points[1].time_unix_nano.as_str(), "2");
                }
                _ => panic!("expected a sum"),
            },
            _ => panic!("expected a metric"),
        }
    }
}

#[test]
fn delivered_count_of_send_results() {
    assert_eq!(delivered_count(Ok(3)), 3);
    assert_eq!(delivered_count(Err(SendError(Message::new("t", "x")))), 0);
}

#[test]
fn typed_messages_carry_their_topic_and_dto() {
    let dto = normalize_logs(&logs_request()).remove(0);
    let m = log_message(dto);
    assert_eq!(m.topic, "logs");
    match m.payload {
        Payload::Log(d) => assert_eq!(d.message, "one"),
        _ => panic!("expected a log"),
    }
}

#[test]
fn resubscribing_keeps_the_topic_channel() {
    let mut manager = SubscriptionManager::new();
    let mut first = manager.subscribe("t".to_string(), "a".to_string());
    let _second = manager.subscribe("t".to_string(), "b".to_string());
    assert_eq!(manager.publish(Message::new("t", "x")), 2);
    assert_eq!(raw(&first.try_recv().unwrap()), "x");
}

#[test]
fn span_and_metric_messages_use_their_topics() {
    let mut m = SubscriptionManager::new();
    let _r = m.subscribe("traces".to_string(), "c".to_string());
    let dto = otel_inspect::processor::normalize_traces(&ExportTraceServiceRequest {
        resource_spans: vec![ResourceSpans {
            resource: None,
            scope_spans: vec![ScopeSpans {
                scope: None,
                spans: vec![Span {
                    trace_id: vec![],
                    span_id: vec![],
                    parent_span_id: vec![],
                    name: "s".to_string(),
                    kind: 0,
                    start_time_unix_nano: 0,
                    end_time_unix_nano: 0,
                    attributes: vec![],
                    events: vec![],
                    links: vec![],
                    status: None,
                }],
            }],
        }],
    })
    .remove(0);
    let sm = span_message(dto);
    assert_eq!(sm.topic, "traces");
    assert!(matches!(sm.payload, Payload::Span(_)));
    let metric = otel_inspect::MetricDto::from_otlp(
        Metric { name: "m".to_string(), description: String::new(), unit: String::new(), data: None },
        None,
        None,
    );
    let mm = metric_message(metric);
    assert_eq!(mm.topic, "metrics");
    assert!(matches!(mm.payload, Payload::Metric(_)));
}
