use persistent_gauge::metric::Metric;
use persistent_gauge::model::Gauge;
use persistent_gauge::tracer::{TraceIngest, TraceIngestLayer, Tracer};
use persistent_gauge::config::{Config, ConfigSettings};

fn moment() -> chrono::NaiveDateTime {
    chrono::NaiveDate::from_ymd_opt(2022, 3, 4)
        .unwrap()
        .and_hms_opt(5, 6, 7)
        .unwrap()
}

#[test]
fn gauge_metric_changes() {
    let c = Metric::increment_gauge("clams");
    assert_eq!((c.name.as_str(), c.delta), ("clams", 1));
    let c = Metric::decrement_gauge("clams");
    assert_eq!((c.name.as_str(), c.delta), ("clams", -1));
    let c = Metric::create_new_gauge_metric("clams");
    assert_eq!((c.name.as_str(), c.delta), ("clams", 0));
    assert_eq!(c.label(), ("name".to_string(), "clams".to_string()));
}

#[test]
fn initial_metrics_are_the_stored_values() {
    let gauges = vec![
        Gauge { name: "a".to_string(), value: 3, last_modified: moment() },
        Gauge { name: "b".to_string(), value: -7, last_modified: moment() },
    ];
    let changes = Metric::report_initial_metrics(&gauges);
    assert_eq!(changes.len(), 2);
    assert_eq!((changes[0].name.as_str(), changes[0].delta), ("a", 3));
    assert_eq!((changes[1].name.as_str(), changes[1].delta), ("b", -7));
    assert!(Metric::report_initial_metrics(&Vec::new()).is_empty());
}

#[test]
fn request_labels() {
    let labels = Metric::http_request_labels(
        "PUT".to_string(),
        Some("/api/gauge/increment/:gauge_name".to_string()),
        "/api/gauge/increment/clams".to_string(),
        200,
    );
    assert_eq!(
        labels,
        vec![
            ("method".to_string(), "PUT".to_string()),
            ("path".to_string(), "/api/gauge/increment/:gauge_name".to_string()),
            ("status".to_string(), "200".to_string()),
        ]
    );
    let labels = Metric::http_request_labels("GET".to_string(), None, "/nowhere".to_string(), 404);
    assert_eq!(labels[1].1, "/nowhere");
    assert_eq!(labels[2].1, "404");
}

#[test]
fn tracing_setup_and_spans() {
    let settings = |enabled: Option<bool>| ConfigSettings {
        operation_port: None,
        log_level: None,
        gauge_data_user: None,
        gauge_data_password: None,
        database_address: None,
        database_name: None,
        tracing_enabled: enabled,
        tracing_agent_address: None,
    };
    assert!(Tracer::setup(&Config::load_config(settings(None))).is_none());
    let setup = Tracer::setup(&Config::load_config(settings(Some(true)))).unwrap();
    assert_eq!(setup.service_name, "persistent-gauge");
    assert_eq!(setup.agent_endpoint, "jaeger:6831");

    assert!(TraceIngest::<u8>::request_span(false, "GET".to_string(), "/status".to_string()).is_none());
    let span = TraceIngest::<u8>::request_span(true, "GET".to_string(), "/status".to_string()).unwrap();
    assert_eq!(span.tracer_name, "persistent-gauge-root");
    assert_eq!(span.span_name, "persistent-gauge-request");
    assert_eq!(
        span.attributes,
        vec![
            ("app.http.method".to_string(), "GET".to_string()),
            ("app.path".to_string(), "/status".to_string()),
        ]
    );
}

#[test]
fn trace_layer_wraps_service() {
    let layer = TraceIngestLayer::new();
    let service = layer.layer(7u32);
    assert_eq!(service.inner, 7);
    assert_eq!(TraceIngest::new("s").inner, "s");
}
