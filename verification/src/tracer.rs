//! Tracing: whether and where traces go, and the span that each request opens.
use crate::config::Config;
use vstd::prelude::*;

verus! {

/// Where traces are sent, when tracing is on.
#[derive(Debug)]
pub struct TracingSetup {
    /// The name under which the service reports its traces.
    pub service_name: String,
    /// The address of the tracing agent.
    pub agent_endpoint: String,
}

/// The service's tracer.
pub struct Tracer;

impl Tracer {
    /// Whether to install a tracer, and with what: only where tracing is
    /// enabled, reporting as `persistent-gauge` to the configured agent.
    pub fn setup(config: &Config) -> (setup: Option<TracingSetup>)
        ensures
            match setup {
                Some(s) => config.tracing_enabled && s.service_name@ == "persistent-gauge"@
                    && s.agent_endpoint == config.tracing_agent_address,
                None => !config.tracing_enabled,
            },
    {
        if config.tracing_enabled() {
            Some(
                TracingSetup {
                    service_name: String::from_str("persistent-gauge"),
                    agent_endpoint: config.tracing_agent_address(),
                },
            )
        } else {
            None
        }
    }
}

/// The span that a traced request opens.
#[derive(Debug)]
pub struct RequestSpan {
    /// The name of the tracer that starts the span.
    pub tracer_name: String,
    /// The span's name.
    pub span_name: String,
    /// The span's attributes, as keys and values.
    pub attributes: Vec<(String, String)>,
}

/// The layer that wraps each service in a `TraceIngest`.
#[derive(Debug)]
pub struct TraceIngestLayer;

impl TraceIngestLayer {
    /// The layer.
    pub fn new() -> (layer: Self)
        ensures
            layer == TraceIngestLayer,
    {
        Self
    }

    /// Wraps a service so that its requests are traced.
    pub fn layer<S>(&self, inner: S) -> (service: TraceIngest<S>)
        ensures
            service.inner == inner,
    {
        TraceIngest::new(inner)
    }
}

/// A service whose requests open a span (where tracing is enabled) before the
/// inner service handles them.
#[derive(Clone, Copy, Debug)]
pub struct TraceIngest<S> {
    pub inner: S,
}

impl<S> TraceIngest<S> {
    /// Wraps `inner`.
    pub fn new(inner: S) -> (service: Self)
        ensures
            service.inner == inner,
    {
        Self { inner }
    }

    /// The span that a request with this method and path opens: none where
    /// tracing is off; otherwise the span `persistent-gauge-request` of the
    /// tracer `persistent-gauge-root`, with the method under `app.http.method`
    /// and the path under `app.path`.
    pub fn request_span(tracing_enabled: bool, method: String, path: String) -> (span: Option<
        RequestSpan,
    >)
        ensures
            match span {
                Some(s) => {
                    &&& tracing_enabled
                    &&& s.tracer_name@ == "persistent-gauge-root"@
                    &&& s.span_name@ == "persistent-gauge-request"@
                    &&& s.attributes@.len() == 2
                    &&& s.attributes@[0].0@ == "app.http.method"@
                    &&& s.attributes@[0].1 == method
                    &&& s.attributes@[1].0@ == "app.path"@
                    &&& s.attributes@[1].1 == path
                },
                None => !tracing_enabled,
            },
    {
        if tracing_enabled {
            let mut attributes: Vec<(String, String)> = Vec::new();
            attributes.push((String::from_str("app.http.method"), method));
            attributes.push((String::from_str("app.path"), path));
            Some(
                RequestSpan {
                    tracer_name: String::from_str("persistent-gauge-root"),
                    span_name: String::from_str("persistent-gauge-request"),
                    attributes,
                },
            )
        } else {
            None
        }
    }
}

} // verus!
