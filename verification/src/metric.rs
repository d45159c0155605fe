//! What the service reports to its metrics: the up/down gauge metric, labelled
//! with each gauge's name, and the labels of the request duration metric.
use crate::model::Gauge;
use crate::text::{decimal, decimal_digits};
use vstd::prelude::*;

verus! {

/// A change of the up/down gauge metric, labelled with a gauge's name.
#[derive(Debug)]
pub struct MetricChange {
    pub name: String,
    pub delta: i64,
}

impl MetricChange {
    /// The label of the change: the key `name` and the gauge's name.
    pub fn label(&self) -> (label: (String, String))
        ensures
            label.0@ == "name"@,
            label.1 == self.name,
    {
        (String::from_str("name"), self.name.clone())
    }
}

/// The changes of the gauge metric that the service reports.
pub struct Metric;

impl Metric {
    /// An increment of the named gauge adds one to its metric.
    pub fn increment_gauge(name: &str) -> (change: MetricChange)
        ensures
            change.name@ == name@,
            change.delta == 1,
    {
        MetricChange { name: name.to_owned(), delta: 1 }
    }

    /// A decrement of the named gauge subtracts one from its metric.
    pub fn decrement_gauge(name: &str) -> (change: MetricChange)
        ensures
            change.name@ == name@,
            change.delta == -1,
    {
        MetricChange { name: name.to_owned(), delta: -1 }
    }

    /// A new gauge's metric is reported with a change of zero.
    pub fn create_new_gauge_metric(name: &str) -> (change: MetricChange)
        ensures
            change.name@ == name@,
            change.delta == 0,
    {
        MetricChange { name: name.to_owned(), delta: 0 }
    }

    /// At start-up each stored gauge's value is added to its metric, in the
    /// order in which the gauges were listed.
    pub fn report_initial_metrics(gauges: &Vec<Gauge>) -> (changes: Vec<MetricChange>)
        ensures
            changes@.len() == gauges@.len(),
            forall|i: int|
                0 <= i < gauges@.len() ==> #[trigger] changes@[i].name == gauges@[i].name
                    && changes@[i].delta == gauges@[i].value,
    {
        let mut changes: Vec<MetricChange> = Vec::new();
        let mut i: usize = 0;
        while i < gauges.len()
            invariant
                i <= gauges@.len(),
                changes@.len() == i,
                forall|j: int|
                    0 <= j < i ==> #[trigger] changes@[j].name == gauges@[j].name
                        && changes@[j].delta == gauges@[j].value,
            decreases gauges@.len() - i,
        {
            let gauge = &gauges[i];
            changes.push(MetricChange { name: gauge.name.clone(), delta: gauge.value });
            i = i + 1;
        }
        changes
    }

    /// The labels of a request's duration: its method, its path (the route
    /// that matched, or else the path of its URI) and its status code in
    /// decimal.
    pub fn http_request_labels(
        method: String,
        matched_path: Option<String>,
        uri_path: String,
        status: u16,
    ) -> (labels: Vec<(String, String)>)
        ensures
            labels@.len() == 3,
            labels@[0].0@ == "method"@,
            labels@[0].1 == method,
            labels@[1].0@ == "path"@,
            labels@[1].1 == match matched_path {
                Some(p) => p,
                None => uri_path,
            },
            labels@[2].0@ == "status"@,
            labels@[2].1@ == decimal_digits(status as nat),
    {
        let path = match matched_path {
            Some(p) => p,
            None => uri_path,
        };
        let mut labels: Vec<(String, String)> = Vec::new();
        labels.push((String::from_str("method"), method));
        labels.push((String::from_str("path"), path));
        labels.push((String::from_str("status"), decimal(status as u64)));
        labels
    }
}

} // verus!
