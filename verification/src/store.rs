//! What serving a request does, told against a model of the gauge table: a
//! map from each gauge's name to its value, kept by a database that answers
//! every lookup, insert, update and listing faithfully.
use crate::handler::{AbortReason, Action, Event, GaugeRequest, Operation, Phase};
use crate::metric::MetricChange;
use crate::model::{Gauge, GaugeError, GaugeResponse};
use vstd::prelude::*;

verus! {

/// Whether `gauges` lists the table: each row once, with its stored value,
/// and every gauge of the table among them.
pub open spec fn lists_table(gauges: Seq<Gauge>, table: Map<Seq<char>, i64>) -> bool {
    &&& forall|i: int|
        0 <= i < gauges.len() ==> #[trigger] table.contains_key(gauges[i].name@) && table[gauges[i].name@]
            == gauges[i].value
    &&& forall|i: int, j: int|
        0 <= i < gauges.len() && 0 <= j < gauges.len() && i != j ==> gauges[i].name@
            != gauges[j].name@
    &&& forall|k: Seq<char>|
        #[trigger] table.contains_key(k) ==> exists|i: int|
            0 <= i < gauges.len() && #[trigger] gauges[i].name@ == k
}

/// What a faithful database answers to an action on `table`, where `missing`
/// is the text of its error for a name that it does not hold and `listing` is
/// the list of rows it gives for the table.
pub open spec fn table_answer(
    table: Map<Seq<char>, i64>,
    action: Action,
    missing: String,
    listing: Vec<Gauge>,
) -> Event {
    match action {
        Action::FindAll => Event::Listed(listing),
        Action::FindByName(name) => if table.contains_key(name@) {
            Event::Found(table[name@])
        } else {
            Event::Missing(missing)
        },
        Action::Insert(row) => Event::Inserted(row.name),
        Action::Update(_, update) => match update.value {
            Some(v) => Event::Updated(v),
            None => Event::WriteFailed(missing),
        },
        _ => Event::Connected,
    }
}

/// The table after a faithful database has carried out an action.
pub open spec fn table_after(table: Map<Seq<char>, i64>, action: Action) -> Map<Seq<char>, i64> {
    match action {
        Action::Insert(row) => table.insert(row.name@, row.value),
        Action::Update(name, update) => match update.value {
            Some(v) => if table.contains_key(name@) {
                table.insert(name@, v)
            } else {
                table
            },
            None => table,
        },
        _ => table,
    }
}

/// Runs a request for at most `fuel` more steps against a faithful database,
/// from the action it has just asked for: its last action and the table then.
pub open spec fn serve_steps(
    request: GaugeRequest,
    action: Action,
    table: Map<Seq<char>, i64>,
    missing: String,
    listing: Vec<Gauge>,
    fuel: nat,
) -> (Action, Map<Seq<char>, i64>)
    decreases fuel,
{
    if request.finished() || fuel == 0 {
        (action, table)
    } else {
        let step = request.next(table_answer(table, action, missing, listing));
        serve_steps(step.0, step.1, table_after(table, action), missing, listing, (fuel - 1) as nat)
    }
}

/// Serves a request from its start against a faithful database holding
/// `table` (which it lists as `listing`): the final action (the answer or the
/// abort) and the table afterwards.
pub open spec fn serve(
    operation: Operation,
    table: Map<Seq<char>, i64>,
    missing: String,
    listing: Vec<Gauge>,
) -> (
    Action,
    Map<Seq<char>, i64>,
) {
    serve_steps(
        GaugeRequest { operation, phase: Phase::Connecting },
        Action::Connect,
        table,
        missing,
        listing,
        4,
    )
}

/// A gauge's value in the table, counting a gauge that is not there as 0.
pub open spec fn table_value(table: Map<Seq<char>, i64>, name: Seq<char>) -> int {
    if table.contains_key(name) {
        table[name] as int
    } else {
        0
    }
}

/// How much a final action changes the gauge metric.
pub open spec fn metric_delta(action: Action) -> int {
    match action {
        Action::Respond(_, Some(change)) => change.delta as int,
        _ => 0,
    }
}

/// Creating a gauge that does not exist answers with its name, inserts it with
/// value 0, and reports it to the metric with a change of 0.
pub proof fn law_create_new(
    name: String,
    table: Map<Seq<char>, i64>,
    missing: String,
    listing: Vec<Gauge>,
)
    requires
        !table.contains_key(name@),
    ensures
        serve(Operation::Create(name), table, missing, listing) == (
            Action::Respond(
                Ok(GaugeResponse::Created(name)),
                Some(MetricChange { name, delta: 0 }),
            ),
            table.insert(name@, 0),
        ),
{
    reveal_with_fuel(serve_steps, 5);
}

/// Creating a gauge that exists is refused as already existing and changes
/// nothing.
pub proof fn law_create_existing(
    name: String,
    table: Map<Seq<char>, i64>,
    missing: String,
    listing: Vec<Gauge>,
)
    requires
        table.contains_key(name@),
    ensures
        serve(Operation::Create(name), table, missing, listing) == (
            Action::Respond(Err(GaugeError::AlreadyExists(name)), None),
            table,
        ),
{
    reveal_with_fuel(serve_steps, 5);
}

/// Incrementing a gauge stores and answers its value plus one, and adds one to
/// its metric.
pub proof fn law_increment(
    name: String,
    table: Map<Seq<char>, i64>,
    missing: String,
    listing: Vec<Gauge>,
)
    requires
        table.contains_key(name@),
        table[name@] < i64::MAX,
    ensures
        serve(Operation::Increment(name), table, missing, listing) == (
            Action::Respond(
                Ok(GaugeResponse::Incremented((table[name@] + 1) as i64)),
                Some(MetricChange { name, delta: 1 }),
            ),
            table.insert(name@, (table[name@] + 1) as i64),
        ),
{
    reveal_with_fuel(serve_steps, 5);
}

/// Decrementing a gauge stores and answers its value minus one, and subtracts
/// one from its metric.
pub proof fn law_decrement(
    name: String,
    table: Map<Seq<char>, i64>,
    missing: String,
    listing: Vec<Gauge>,
)
    requires
        table.contains_key(name@),
        table[name@] > i64::MIN,
    ensures
        serve(Operation::Decrement(name), table, missing, listing) == (
            Action::Respond(
                Ok(GaugeResponse::Decremented((table[name@] - 1) as i64)),
                Some(MetricChange { name, delta: -1i64 }),
            ),
            table.insert(name@, (table[name@] - 1) as i64),
        ),
{
    reveal_with_fuel(serve_steps, 5);
}

/// Incrementing or decrementing a gauge that does not exist answers "not
/// found", with the database's error text, and changes nothing.
pub proof fn law_change_missing(
    name: String,
    table: Map<Seq<char>, i64>,
    missing: String,
    listing: Vec<Gauge>,
)
    requires
        !table.contains_key(name@),
    ensures
        serve(Operation::Increment(name), table, missing, listing) == (
            Action::Respond(Err(GaugeError::NotFound(missing)), None),
            table,
        ),
        serve(Operation::Decrement(name), table, missing, listing) == (
            Action::Respond(Err(GaugeError::NotFound(missing)), None),
            table,
        ),
{
    reveal_with_fuel(serve_steps, 5);
}

/// Incrementing at the largest value, or decrementing at the smallest, gives
/// the request up and changes nothing.
pub proof fn law_overflow_aborts(
    name: String,
    table: Map<Seq<char>, i64>,
    missing: String,
    listing: Vec<Gauge>,
)
    requires
        table.contains_key(name@),
    ensures
        table[name@] == i64::MAX ==> serve(Operation::Increment(name), table, missing, listing) == (
            Action::Abort(AbortReason::AddOverflow),
            table,
        ),
        table[name@] == i64::MIN ==> serve(Operation::Decrement(name), table, missing, listing) == (
            Action::Abort(AbortReason::SubtractOverflow),
            table,
        ),
{
    reveal_with_fuel(serve_steps, 5);
}

/// An increment followed by a decrement of the same gauge leaves the table as
/// it was, and the decrement answers the original value.
pub proof fn law_increment_then_decrement(
    name: String,
    table: Map<Seq<char>, i64>,
    missing: String,
    listing: Vec<Gauge>,
)
    requires
        table.contains_key(name@),
        table[name@] < i64::MAX,
    ensures
        serve(Operation::Decrement(name), serve(Operation::Increment(name), table, missing, listing).1, missing, listing)
            == (
            Action::Respond(
                Ok(GaugeResponse::Decremented(table[name@])),
                Some(MetricChange { name, delta: -1i64 }),
            ),
            table,
        ),
{
    law_increment(name, table, missing, listing);
    let after = table.insert(name@, (table[name@] + 1) as i64);
    law_decrement(name, after, missing, listing);
    assert(after.insert(name@, (after[name@] - 1) as i64) =~= table);
}

/// Whatever request is served, only the gauge it names
/// can change, and the metric moves by exactly as much as that gauge's stored
/// value: the metric of each gauge stays equal to its value in the table.
pub proof fn law_metric_follows_table(
    operation: Operation,
    table: Map<Seq<char>, i64>,
    missing: String,
    listing: Vec<Gauge>,
)
    ensures
        ({
            let (action, after) = serve(operation, table, missing, listing);
            let name = crate::handler::operation_name(operation);
            &&& forall|k: Seq<char>|
                k != name ==> #[trigger] after.contains_key(k) == table.contains_key(k) && (
                table.contains_key(k) ==> after[k] == table[k])
            &&& table_value(after, name) == table_value(table, name) + metric_delta(action)
            &&& (action matches Action::Respond(_, Some(change)) ==> change.name@ == name)
        }),
{
    reveal_with_fuel(serve_steps, 5);
}

/// Listing the gauges answers the rows that the database lists, and changes
/// nothing.
pub proof fn law_list(table: Map<Seq<char>, i64>, missing: String, listing: Vec<Gauge>)
    requires
        lists_table(listing@, table),
    ensures
        serve(Operation::List, table, missing, listing) == (
            Action::Respond(Ok(GaugeResponse::Gauges(listing)), None),
            table,
        ),
{
    reveal_with_fuel(serve_steps, 5);
}

/// After a gauge is created, listing the gauges answers them all, and among
/// them the new gauge exactly once, with value 0.
pub proof fn law_create_then_list(
    name: String,
    table: Map<Seq<char>, i64>,
    missing: String,
    listing: Vec<Gauge>,
)
    requires
        !table.contains_key(name@),
        lists_table(listing@, table.insert(name@, 0)),
    ensures
        ({
            let after = serve(Operation::Create(name), table, missing, listing).1;
            &&& serve(Operation::List, after, missing, listing) == (
                Action::Respond(Ok(GaugeResponse::Gauges(listing)), None),
                after,
            )
            &&& exists|i: int| 0 <= i < listing@.len() && #[trigger] listing@[i].name@ == name@
            &&& forall|i: int|
                0 <= i < listing@.len() && #[trigger] listing@[i].name@ == name@ ==> listing@[i].value
                    == 0
            &&& forall|i: int, j: int|
                0 <= i < listing@.len() && 0 <= j < listing@.len() && listing@[i].name@ == name@
                    && listing@[j].name@ == name@ ==> i == j
        }),
{
    law_create_new(name, table, missing, listing);
    let after = table.insert(name@, 0);
    law_list(after, missing, listing);
    assert(after.contains_key(name@));
}

/// A failed connection gives a create request up, with the pool error's debug
/// form, and answers any other request with the pool error's text; either way
/// nothing is written and the metric does not change.
pub proof fn law_connect_failure(
    operation: Operation,
    text: String,
    detail: String,
    table: Map<Seq<char>, i64>,
)
    ensures
        ({
            let step = GaugeRequest { operation, phase: Phase::Connecting }.next(
                Event::ConnectFailed(text, detail),
            );
            &&& step.0.finished()
            &&& step.1 == match operation {
                Operation::Create(_) => Action::Abort(AbortReason::NoConnection(detail)),
                _ => Action::Respond(Err(GaugeError::R2D2Error(text)), None),
            }
            &&& table_after(table, step.1) == table
            &&& metric_delta(step.1) == 0
        }),
{
}

/// A failed lookup answers a create request with "failed to create", and an
/// increment or decrement with "not found", with the error's text; nothing is
/// written and the metric does not change.
pub proof fn law_lookup_failure(operation: Operation, text: String, table: Map<Seq<char>, i64>)
    requires
        !(operation is List),
    ensures
        ({
            let step = GaugeRequest { operation, phase: Phase::Finding }.next(
                Event::FindFailed(text),
            );
            &&& step.0.finished()
            &&& step.1 == match operation {
                Operation::Create(_) => Action::Respond(Err(GaugeError::FailedToCreate(text)), None),
                _ => Action::Respond(Err(GaugeError::NotFound(text)), None),
            }
            &&& table_after(table, step.1) == table
            &&& metric_delta(step.1) == 0
        }),
{
}

/// A failed insert or update answers with the failure of its operation
/// (create, increment or decrement) and the error's text; nothing more is
/// written and the metric does not change.
pub proof fn law_write_failure(operation: Operation, text: String, table: Map<Seq<char>, i64>)
    requires
        !(operation is List),
    ensures
        ({
            let step = GaugeRequest { operation, phase: Phase::Writing }.next(
                Event::WriteFailed(text),
            );
            &&& step.0.finished()
            &&& step.1 == match operation {
                Operation::Create(_) => Action::Respond(Err(GaugeError::FailedToCreate(text)), None),
                Operation::Increment(_) => Action::Respond(
                    Err(GaugeError::FailedToIncrement(text)),
                    None,
                ),
                _ => Action::Respond(Err(GaugeError::FailedToDecrement(text)), None),
            }
            &&& table_after(table, step.1) == table
            &&& metric_delta(step.1) == 0
        }),
{
}

/// A failed listing answers "failed to get" with the error's text; nothing is
/// written and the metric does not change.
pub proof fn law_list_failure(text: String, table: Map<Seq<char>, i64>)
    ensures
        ({
            let step = GaugeRequest { operation: Operation::List, phase: Phase::Listing }.next(
                Event::ListFailed(text),
            );
            &&& step.0.finished()
            &&& step.1 == Action::Respond(Err(GaugeError::FailedToGet(text)), None)
            &&& table_after(table, step.1) == table
            &&& metric_delta(step.1) == 0
        }),
{
}

} // verus!
