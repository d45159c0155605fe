use std::collections::HashMap;

use persistent_gauge::handler::{AbortReason, Action, Event, GaugeRequest, Operation, Phase};
use persistent_gauge::metric::MetricChange;
use persistent_gauge::model::{Gauge, GaugeError, GaugeResponse};

const MISSING: &str = "NotFound";

fn moment() -> chrono::NaiveDateTime {
    chrono::NaiveDate::from_ymd_opt(2022, 3, 4)
        .unwrap()
        .and_hms_opt(5, 6, 7)
        .unwrap()
}

/// Serves a request against an in-memory table that answers faithfully.
fn serve(operation: Operation, table: &mut HashMap<String, i64>) -> Action {
    let (mut request, mut action) = GaugeRequest::new(operation);
    loop {
        let event = match &action {
            Action::Connect => Event::Connected,
            Action::FindByName(name) => match table.get(name) {
                Some(v) => Event::Found(*v),
                None => Event::Missing(MISSING.to_string()),
            },
            Action::Insert(row) => {
                table.insert(row.name.clone(), row.value);
                Event::Inserted(row.name.clone())
            }
            Action::Update(name, update) => {
                let v = update.value.unwrap();
                table.insert(name.clone(), v);
                Event::Updated(v)
            }
            Action::FindAll => {
                let mut gauges: Vec<Gauge> = table
                    .iter()
                    .map(|(n, v)| Gauge { name: n.clone(), value: *v, last_modified: moment() })
                    .collect();
                gauges.sort_by(|a, b| a.name.cmp(&b.name));
                Event::Listed(gauges)
            }
            Action::Respond(..) | Action::Abort(_) => return action,
        };
        let (next_request, next_action) = request.step(event);
        request = next_request;
        action = next_action;
    }
}

fn respond_ok(action: Action) -> (GaugeResponse, Option<MetricChange>) {
    match action {
        Action::Respond(Ok(r), change) => (r, change),
        other => panic!("unexpected {:?}", other),
    }
}

fn respond_err(action: Action) -> (GaugeError, Option<MetricChange>) {
    match action {
        Action::Respond(Err(e), change) => (e, change),
        other => panic!("unexpected {:?}", other),
    }
}

#[test]
fn create_then_increment_then_decrement() {
    let mut table = HashMap::new();
    let (r, change) = respond_ok(serve(Operation::Create("clams".to_string()), &mut table));
    assert!(matches!(r, GaugeResponse::Created(ref n) if n == "clams"));
    let change = change.unwrap();
    assert_eq!((change.name.as_str(), change.delta), ("clams", 0));
    assert_eq!(table.get("clams"), Some(&0));

    let (r, change) = respond_ok(serve(Operation::Increment("clams".to_string()), &mut table));
    assert!(matches!(r, GaugeResponse::Incremented(1)));
    assert_eq!(change.unwrap().delta, 1);
    assert_eq!(table.get("clams"), Some(&1));

    let (r, change) = respond_ok(serve(Operation::Decrement("clams".to_string()), &mut table));
    assert!(matches!(r, GaugeResponse::Decremented(0)));
    assert_eq!(change.unwrap().delta, -1);
    assert_eq!(table.get("clams"), Some(&0));
}

#[test]
fn increment_then_decrement_restores_value() {
    let mut table = HashMap::new();
    table.insert("clams".to_string(), -41);
    let before = table.clone();
    respond_ok(serve(Operation::Increment("clams".to_string()), &mut table));
    let (r, _) = respond_ok(serve(Operation::Decrement("clams".to_string()), &mut table));
    assert!(matches!(r, GaugeResponse::Decremented(-41)));
    assert_eq!(table, before);
}

#[test]
fn create_existing_is_refused() {
    let mut table = HashMap::new();
    table.insert("clams".to_string(), 5);
    let (e, change) = respond_err(serve(Operation::Create("clams".to_string()), &mut table));
    assert!(matches!(e, GaugeError::AlreadyExists(ref n) if n == "clams"));
    assert!(change.is_none());
    assert_eq!(table.get("clams"), Some(&5));
}

#[test]
fn change_of_missing_gauge_is_not_found() {
    let mut table = HashMap::new();
    let (e, _) = respond_err(serve(Operation::Increment("oysters".to_string()), &mut table));
    assert!(matches!(e, GaugeError::NotFound(ref m) if m == MISSING));
    let (e, _) = respond_err(serve(Operation::Decrement("oysters".to_string()), &mut table));
    assert!(matches!(e, GaugeError::NotFound(ref m) if m == MISSING));
    assert!(table.is_empty());
}

#[test]
fn overflow_aborts() {
    let mut table = HashMap::new();
    table.insert("big".to_string(), i64::MAX);
    table.insert("small".to_string(), i64::MIN);
    let a = serve(Operation::Increment("big".to_string()), &mut table);
    assert!(matches!(a, Action::Abort(AbortReason::AddOverflow)));
    let a = serve(Operation::Decrement("small".to_string()), &mut table);
    assert!(matches!(a, Action::Abort(AbortReason::SubtractOverflow)));
    assert_eq!(table.get("big"), Some(&i64::MAX));
    assert_eq!(AbortReason::AddOverflow.message(), "attempt to add with overflow");
    assert_eq!(AbortReason::SubtractOverflow.message(), "attempt to subtract with overflow");
    assert_eq!(
        AbortReason::NoConnection("Error(None)".to_string()).message(),
        "Couldn't get database connection from pool!: Error(None)"
    );
}

#[test]
fn list_answers_all_gauges() {
    let mut table = HashMap::new();
    table.insert("a".to_string(), 1);
    table.insert("b".to_string(), -2);
    let (r, change) = respond_ok(serve(Operation::List, &mut table));
    assert!(change.is_none());
    match r {
        GaugeResponse::Gauges(gs) => {
            assert_eq!(gs.len(), 2);
            assert_eq!((gs[0].name.as_str(), gs[0].value), ("a", 1));
            assert_eq!((gs[1].name.as_str(), gs[1].value), ("b", -2));
        }
        other => panic!("unexpected {:?}", other),
    }
}

#[test]
fn connection_failure() {
    let (request, _) = GaugeRequest::new(Operation::Increment("clams".to_string()));
    let (request, action) = request.step(Event::ConnectFailed("timed out".to_string(), "Error(None)".to_string()));
    assert_eq!(request.phase, Phase::Finished);
    assert!(matches!(action, Action::Respond(Err(GaugeError::R2D2Error(ref m)), None) if m == "timed out"));

    let (request, _) = GaugeRequest::new(Operation::Create("clams".to_string()));
    let (_, action) = request.step(Event::ConnectFailed("timed out".to_string(), "Error(None)".to_string()));
    assert!(matches!(action, Action::Abort(AbortReason::NoConnection(ref d)) if d == "Error(None)"));

    let (request, _) = GaugeRequest::new(Operation::List);
    let (_, action) = request.step(Event::ConnectFailed("timed out".to_string(), "Error(None)".to_string()));
    assert!(matches!(action, Action::Respond(Err(GaugeError::R2D2Error(_)), None)));
}

#[test]
fn database_failures() {
    // a failed lookup while creating
    let (r, _) = GaugeRequest::new(Operation::Create("c".to_string()));
    let (r, _) = r.step(Event::Connected);
    let (_, a) = r.step(Event::FindFailed("boom".to_string()));
    assert!(matches!(a, Action::Respond(Err(GaugeError::FailedToCreate(ref m)), None) if m == "boom"));

    // a failed insert
    let (r, _) = GaugeRequest::new(Operation::Create("c".to_string()));
    let (r, _) = r.step(Event::Connected);
    let (r, a) = r.step(Event::Missing(MISSING.to_string()));
    assert!(matches!(a, Action::Insert(ref row) if row.name == "c" && row.value == 0));
    let (_, a) = r.step(Event::WriteFailed("full".to_string()));
    assert!(matches!(a, Action::Respond(Err(GaugeError::FailedToCreate(ref m)), None) if m == "full"));

    // a failed lookup while incrementing is reported as not found
    let (r, _) = GaugeRequest::new(Operation::Increment("c".to_string()));
    let (r, _) = r.step(Event::Connected);
    let (_, a) = r.step(Event::FindFailed("boom".to_string()));
    assert!(matches!(a, Action::Respond(Err(GaugeError::NotFound(ref m)), None) if m == "boom"));

    // failed updates
    let (r, _) = GaugeRequest::new(Operation::Increment("c".to_string()));
    let (r, _) = r.step(Event::Connected);
    let (r, a) = r.step(Event::Found(3));
    assert!(matches!(a, Action::Update(ref n, u) if n == "c" && u.value == Some(4)));
    let (_, a) = r.step(Event::WriteFailed("lost".to_string()));
    assert!(matches!(a, Action::Respond(Err(GaugeError::FailedToIncrement(_)), None)));

    let (r, _) = GaugeRequest::new(Operation::Decrement("c".to_string()));
    let (r, _) = r.step(Event::Connected);
    let (r, a) = r.step(Event::Found(3));
    assert!(matches!(a, Action::Update(ref n, u) if n == "c" && u.value == Some(2)));
    let (_, a) = r.step(Event::WriteFailed("lost".to_string()));
    assert!(matches!(a, Action::Respond(Err(GaugeError::FailedToDecrement(_)), None)));

    // a failed listing
    let (r, _) = GaugeRequest::new(Operation::List);
    let (r, a) = r.step(Event::Connected);
    assert!(matches!(a, Action::FindAll));
    let (_, a) = r.step(Event::ListFailed("gone".to_string()));
    assert!(matches!(a, Action::Respond(Err(GaugeError::FailedToGet(ref m)), None) if m == "gone"));
}

#[test]
fn metric_follows_table() {
    // the metric starts at each gauge's value and then moves with it
    let mut table = HashMap::new();
    table.insert("a".to_string(), 10);
    let mut metric: HashMap<String, i64> = HashMap::new();
    let ops = vec![
        Operation::Increment("a".to_string()),
        Operation::Create("b".to_string()),
        Operation::Decrement("b".to_string()),
        Operation::Create("a".to_string()),
        Operation::Increment("zzz".to_string()),
        Operation::Decrement("a".to_string()),
        Operation::Decrement("a".to_string()),
    ];
    for (name, value) in table.iter() {
        metric.insert(name.clone(), *value);
    }
    for op in ops {
        if let Action::Respond(_, Some(change)) = serve(op, &mut table) {
            *metric.entry(change.name.clone()).or_insert(0) += change.delta;
        }
    }
    assert_eq!(metric, table);
    assert_eq!(table.get("a"), Some(&9));
    assert_eq!(table.get("b"), Some(&-1));
}

#[test]
fn create_then_list_shows_new_gauge_at_zero() {
    let mut table = HashMap::new();
    table.insert("a".to_string(), 4);
    respond_ok(serve(Operation::Create("clams".to_string()), &mut table));
    let (r, _) = respond_ok(serve(Operation::List, &mut table));
    match r {
        GaugeResponse::Gauges(gs) => {
            let found: Vec<&Gauge> = gs.iter().filter(|g| g.name == "clams").collect();
            assert_eq!(found.len(), 1);
            assert_eq!(found[0].value, 0);
            assert_eq!(gs.len(), 2);
        }
        other => panic!("unexpected {:?}", other),
    }
}
