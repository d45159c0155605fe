//! The request handlers, each a state machine: from its state and what the
//! database last answered, it moves to its next state and says what to do
//! next, until it answers the request.
use crate::action::{add_new_gauge, update_gauge_value};
use crate::metric::MetricChange;
use crate::model::{Gauge, GaugeError, GaugeResponse, GaugeUpdate, NewGauge};
use vstd::prelude::*;

verus! {

/// What a request asks for.
#[derive(Debug)]
pub enum Operation {
    /// Create the gauge with this name.
    Create(String),
    /// Add one to the gauge with this name.
    Increment(String),
    /// Subtract one from the gauge with this name.
    Decrement(String),
    /// List every gauge.
    List,
}

/// How far a request has come.
#[derive(Clone, Copy, Debug, PartialEq, Eq, Structural)]
pub enum Phase {
    /// Waiting for a database connection.
    Connecting,
    /// Waiting for the lookup of the gauge by name.
    Finding,
    /// Waiting for the insert or update of the gauge.
    Writing,
    /// Waiting for the list of all gauges.
    Listing,
    /// Answered.
    Finished,
}

/// A request being served.
#[derive(Debug)]
pub struct GaugeRequest {
    pub operation: Operation,
    pub phase: Phase,
}

/// What the database (or its connection pool) answered.
#[derive(Debug)]
pub enum Event {
    /// A connection was handed out.
    Connected,
    /// No connection could be had: the pool error's text (as `Display`
    /// writes it) and its debug form (as `Debug` writes it).
    ConnectFailed(String, String),
    /// The lookup by name found the gauge; its value.
    Found(i64),
    /// The lookup by name found no such gauge; the error text.
    Missing(String),
    /// The lookup by name failed otherwise; the error text.
    FindFailed(String),
    /// The insert succeeded; the name it returned.
    Inserted(String),
    /// The update succeeded; the value it returned.
    Updated(i64),
    /// The insert or update failed; the error text.
    WriteFailed(String),
    /// Every gauge in the table.
    Listed(Vec<Gauge>),
    /// Listing the gauges failed; the error text.
    ListFailed(String),
}

/// What to do next.
#[derive(Debug)]
pub enum Action {
    /// Get a database connection.
    Connect,
    /// Look up the gauge with this name.
    FindByName(String),
    /// Insert this row.
    Insert(NewGauge),
    /// Apply this change to the gauge with this name.
    Update(String, GaugeUpdate),
    /// Load every gauge.
    FindAll,
    /// Apply the metric change, if any, and answer with the result. A created
    /// gauge is reported on the gauge metric, under the label `name` with the
    /// gauge's name, as a change of 0 (which makes the gauge's series appear
    /// at its stored value 0); an increment and a decrement are reported as
    /// changes of 1 and -1 under the same label.
    Respond(Result<GaugeResponse, GaugeError>, Option<MetricChange>),
    /// Give up on the request: panic, for this reason.
    Abort(AbortReason),
}

/// Why a request is given up.
#[derive(Debug)]
pub enum AbortReason {
    /// A create request could not get a database connection; the debug form
    /// of the pool's error.
    NoConnection(String),
    /// An increment would go past the largest value.
    AddOverflow,
    /// A decrement would go past the smallest value.
    SubtractOverflow,
}

/// The panic message of a request given up for this reason.
pub open spec fn abort_message(reason: AbortReason) -> Seq<char> {
    match reason {
        AbortReason::NoConnection(detail) => "Couldn't get database connection from pool!: "@
            + detail@,
        AbortReason::AddOverflow => "attempt to add with overflow"@,
        AbortReason::SubtractOverflow => "attempt to subtract with overflow"@,
    }
}

impl AbortReason {
    /// The panic message of a request given up for this reason (for a missing
    /// connection, the message that `Result::expect` writes: the expectation,
    /// a colon and a space, and the error's debug form).
    pub fn message(&self) -> (text: String)
        ensures
            text@ == abort_message(*self),
    {
        match self {
            AbortReason::NoConnection(detail) => {
                let mut text = String::from_str("Couldn't get database connection from pool!: ");
                text.append(detail.as_str());
                text
            },
            AbortReason::AddOverflow => String::from_str("attempt to add with overflow"),
            AbortReason::SubtractOverflow => String::from_str("attempt to subtract with overflow"),
        }
    }
}

/// The name of the gauge that an operation is about (empty for a listing).
pub open spec fn operation_name(operation: Operation) -> Seq<char> {
    match operation {
        Operation::Create(name) => name@,
        Operation::Increment(name) => name@,
        Operation::Decrement(name) => name@,
        Operation::List => Seq::empty(),
    }
}

impl GaugeRequest {
    /// Whether the request, in its present phase, waits for this event.
    pub open spec fn expects(&self, event: Event) -> bool {
        match self.phase {
            Phase::Connecting => event is Connected || event is ConnectFailed,
            Phase::Finding => match self.operation {
                Operation::List => false,
                _ => event is Found || event is Missing || event is FindFailed,
            },
            Phase::Writing => match self.operation {
                Operation::Create(_) => event is Inserted || event is WriteFailed,
                Operation::Increment(_) | Operation::Decrement(_) => event is Updated
                    || event is WriteFailed,
                Operation::List => false,
            },
            Phase::Listing => match self.operation {
                Operation::List => event is Listed || event is ListFailed,
                _ => false,
            },
            Phase::Finished => false,
        }
    }

    /// Whether the request has been answered or given up.
    pub open spec fn finished(&self) -> bool {
        self.phase == Phase::Finished
    }

    /// The request in another phase.
    pub open spec fn in_phase(self, phase: Phase) -> GaugeRequest {
        GaugeRequest { operation: self.operation, phase }
    }

    /// The request answered with `result` and the metric change `change`.
    pub open spec fn respond(
        self,
        result: Result<GaugeResponse, GaugeError>,
        change: Option<MetricChange>,
    ) -> (GaugeRequest, Action) {
        (self.in_phase(Phase::Finished), Action::Respond(result, change))
    }

    /// The request given up for `reason`.
    pub open spec fn abort(self, reason: AbortReason) -> (GaugeRequest, Action) {
        (self.in_phase(Phase::Finished), Action::Abort(reason))
    }

    /// The next state and action of a request on an event that it expects.
    pub open spec fn next(self, event: Event) -> (GaugeRequest, Action) {
        match self.phase {
            Phase::Connecting => match event {
                Event::Connected => match self.operation {
                    Operation::Create(name) => (self.in_phase(Phase::Finding), Action::FindByName(name)),
                    Operation::Increment(name) => (self.in_phase(Phase::Finding), Action::FindByName(name)),
                    Operation::Decrement(name) => (self.in_phase(Phase::Finding), Action::FindByName(name)),
                    Operation::List => (self.in_phase(Phase::Listing), Action::FindAll),
                },
                Event::ConnectFailed(e, detail) => match self.operation {
                    Operation::Create(_) => self.abort(AbortReason::NoConnection(detail)),
                    _ => self.respond(Err(GaugeError::R2D2Error(e)), None),
                },
                _ => (self, Action::Connect),
            },
            Phase::Finding => match self.operation {
                Operation::Create(name) => match event {
                    Event::Found(_) => self.respond(Err(GaugeError::AlreadyExists(name)), None),
                    Event::Missing(_) => (
                        self.in_phase(Phase::Writing),
                        Action::Insert(NewGauge { name, value: 0 }),
                    ),
                    Event::FindFailed(e) => self.respond(Err(GaugeError::FailedToCreate(e)), None),
                    _ => (self, Action::FindByName(name)),
                },
                Operation::Increment(name) => match event {
                    Event::Found(v) => if v == i64::MAX {
                        self.abort(AbortReason::AddOverflow)
                    } else {
                        (
                            self.in_phase(Phase::Writing),
                            Action::Update(name, GaugeUpdate { value: Some((v + 1) as i64) }),
                        )
                    },
                    Event::Missing(e) => self.respond(Err(GaugeError::NotFound(e)), None),
                    Event::FindFailed(e) => self.respond(Err(GaugeError::NotFound(e)), None),
                    _ => (self, Action::FindByName(name)),
                },
                Operation::Decrement(name) => match event {
                    Event::Found(v) => if v == i64::MIN {
                        self.abort(AbortReason::SubtractOverflow)
                    } else {
                        (
                            self.in_phase(Phase::Writing),
                            Action::Update(name, GaugeUpdate { value: Some((v - 1) as i64) }),
                        )
                    },
                    Event::Missing(e) => self.respond(Err(GaugeError::NotFound(e)), None),
                    Event::FindFailed(e) => self.respond(Err(GaugeError::NotFound(e)), None),
                    _ => (self, Action::FindByName(name)),
                },
                Operation::List => (self, Action::FindAll),
            },
            Phase::Writing => match self.operation {
                Operation::Create(_) => match event {
                    Event::Inserted(n) => self.respond(
                        Ok(GaugeResponse::Created(n)),
                        Some(MetricChange { name: n, delta: 0 }),
                    ),
                    Event::WriteFailed(e) => self.respond(Err(GaugeError::FailedToCreate(e)), None),
                    _ => (self, Action::Connect),
                },
                Operation::Increment(name) => match event {
                    Event::Updated(v) => self.respond(
                        Ok(GaugeResponse::Incremented(v)),
                        Some(MetricChange { name, delta: 1 }),
                    ),
                    Event::WriteFailed(e) => self.respond(Err(GaugeError::FailedToIncrement(e)), None),
                    _ => (self, Action::Connect),
                },
                Operation::Decrement(name) => match event {
                    Event::Updated(v) => self.respond(
                        Ok(GaugeResponse::Decremented(v)),
                        Some(MetricChange { name, delta: -1i64 }),
                    ),
                    Event::WriteFailed(e) => self.respond(Err(GaugeError::FailedToDecrement(e)), None),
                    _ => (self, Action::Connect),
                },
                Operation::List => (self, Action::Connect),
            },
            Phase::Listing => match event {
                Event::Listed(gauges) => self.respond(Ok(GaugeResponse::Gauges(gauges)), None),
                Event::ListFailed(e) => self.respond(Err(GaugeError::FailedToGet(e)), None),
                _ => (self, Action::FindAll),
            },
            Phase::Finished => (self, Action::Connect),
        }
    }

    /// Starts serving a request: the first thing to do is to get a connection.
    pub fn new(operation: Operation) -> (start: (GaugeRequest, Action))
        ensures
            start == (GaugeRequest { operation, phase: Phase::Connecting }, Action::Connect),
    {
        (GaugeRequest { operation, phase: Phase::Connecting }, Action::Connect)
    }

    /// Moves the request on by an event that it waits for.
    pub fn step(self, event: Event) -> (next: (GaugeRequest, Action))
        requires
            self.expects(event),
        ensures
            next == self.next(event),
    {
        let phase = self.phase;
        match phase {
            Phase::Connecting => match event {
                Event::Connected => match self.operation {
                    Operation::List => (GaugeRequest { operation: Operation::List, phase: Phase::Listing }, Action::FindAll),
                    Operation::Create(name) => {
                        let find = Action::FindByName(name.clone());
                        (GaugeRequest { operation: Operation::Create(name), phase: Phase::Finding }, find)
                    },
                    Operation::Increment(name) => {
                        let find = Action::FindByName(name.clone());
                        (GaugeRequest { operation: Operation::Increment(name), phase: Phase::Finding }, find)
                    },
                    Operation::Decrement(name) => {
                        let find = Action::FindByName(name.clone());
                        (GaugeRequest { operation: Operation::Decrement(name), phase: Phase::Finding }, find)
                    },
                },
                Event::ConnectFailed(e, detail) => match self.operation {
                    Operation::Create(name) => (
                        GaugeRequest { operation: Operation::Create(name), phase: Phase::Finished },
                        Action::Abort(AbortReason::NoConnection(detail)),
                    ),
                    operation => (
                        GaugeRequest { operation, phase: Phase::Finished },
                        Action::Respond(Err(GaugeError::R2D2Error(e)), None),
                    ),
                },
                _ => (self, Action::Connect),
            },
            Phase::Finding => match self.operation {
                Operation::Create(name) => match event {
                    Event::Found(_) => {
                        let answer = Action::Respond(Err(GaugeError::AlreadyExists(name.clone())), None);
                        (GaugeRequest { operation: Operation::Create(name), phase: Phase::Finished }, answer)
                    },
                    Event::Missing(_) => {
                        let row = add_new_gauge(name.clone());
                        (GaugeRequest { operation: Operation::Create(name), phase: Phase::Writing }, Action::Insert(row))
                    },
                    Event::FindFailed(e) => (
                        GaugeRequest { operation: Operation::Create(name), phase: Phase::Finished },
                        Action::Respond(Err(GaugeError::FailedToCreate(e)), None),
                    ),
                    _ => {
                        let find = Action::FindByName(name.clone());
                        (GaugeRequest { operation: Operation::Create(name), phase: Phase::Finding }, find)
                    },
                },
                Operation::Increment(name) => match event {
                    Event::Found(v) => if v == i64::MAX {
                        (
                            GaugeRequest { operation: Operation::Increment(name), phase: Phase::Finished },
                            Action::Abort(AbortReason::AddOverflow),
                        )
                    } else {
                        let update = Action::Update(name.clone(), update_gauge_value(v + 1));
                        (GaugeRequest { operation: Operation::Increment(name), phase: Phase::Writing }, update)
                    },
                    Event::Missing(e) => (
                        GaugeRequest { operation: Operation::Increment(name), phase: Phase::Finished },
                        Action::Respond(Err(GaugeError::NotFound(e)), None),
                    ),
                    Event::FindFailed(e) => (
                        GaugeRequest { operation: Operation::Increment(name), phase: Phase::Finished },
                        Action::Respond(Err(GaugeError::NotFound(e)), None),
                    ),
                    _ => {
                        let find = Action::FindByName(name.clone());
                        (GaugeRequest { operation: Operation::Increment(name), phase: Phase::Finding }, find)
                    },
                },
                Operation::Decrement(name) => match event {
                    Event::Found(v) => if v == i64::MIN {
                        (
                            GaugeRequest { operation: Operation::Decrement(name), phase: Phase::Finished },
                            Action::Abort(AbortReason::SubtractOverflow),
                        )
                    } else {
                        let update = Action::Update(name.clone(), update_gauge_value(v - 1));
                        (GaugeRequest { operation: Operation::Decrement(name), phase: Phase::Writing }, update)
                    },
                    Event::Missing(e) => (
                        GaugeRequest { operation: Operation::Decrement(name), phase: Phase::Finished },
                        Action::Respond(Err(GaugeError::NotFound(e)), None),
                    ),
                    Event::FindFailed(e) => (
                        GaugeRequest { operation: Operation::Decrement(name), phase: Phase::Finished },
                        Action::Respond(Err(GaugeError::NotFound(e)), None),
                    ),
                    _ => {
                        let find = Action::FindByName(name.clone());
                        (GaugeRequest { operation: Operation::Decrement(name), phase: Phase::Finding }, find)
                    },
                },
                Operation::List => (GaugeRequest { operation: Operation::List, phase }, Action::FindAll),
            },
            Phase::Writing => match self.operation {
                Operation::Create(name) => match event {
                    Event::Inserted(n) => {
                        let change = MetricChange { name: n.clone(), delta: 0 };
                        (
                            GaugeRequest { operation: Operation::Create(name), phase: Phase::Finished },
                            Action::Respond(Ok(GaugeResponse::Created(n)), Some(change)),
                        )
                    },
                    Event::WriteFailed(e) => (
                        GaugeRequest { operation: Operation::Create(name), phase: Phase::Finished },
                        Action::Respond(Err(GaugeError::FailedToCreate(e)), None),
                    ),
                    _ => (GaugeRequest { operation: Operation::Create(name), phase }, Action::Connect),
                },
                Operation::Increment(name) => match event {
                    Event::Updated(v) => {
                        let change = MetricChange { name: name.clone(), delta: 1 };
                        (
                            GaugeRequest { operation: Operation::Increment(name), phase: Phase::Finished },
                            Action::Respond(Ok(GaugeResponse::Incremented(v)), Some(change)),
                        )
                    },
                    Event::WriteFailed(e) => (
                        GaugeRequest { operation: Operation::Increment(name), phase: Phase::Finished },
                        Action::Respond(Err(GaugeError::FailedToIncrement(e)), None),
                    ),
                    _ => (GaugeRequest { operation: Operation::Increment(name), phase }, Action::Connect),
                },
                Operation::Decrement(name) => match event {
                    Event::Updated(v) => {
                        let change = MetricChange { name: name.clone(), delta: -1 };
                        (
                            GaugeRequest { operation: Operation::Decrement(name), phase: Phase::Finished },
                            Action::Respond(Ok(GaugeResponse::Decremented(v)), Some(change)),
                        )
                    },
                    Event::WriteFailed(e) => (
                        GaugeRequest { operation: Operation::Decrement(name), phase: Phase::Finished },
                        Action::Respond(Err(GaugeError::FailedToDecrement(e)), None),
                    ),
                    _ => (GaugeRequest { operation: Operation::Decrement(name), phase }, Action::Connect),
                },
                Operation::List => (GaugeRequest { operation: Operation::List, phase }, Action::Connect),
            },
            Phase::Listing => match event {
                Event::Listed(gauges) => (
                    GaugeRequest { operation: self.operation, phase: Phase::Finished },
                    Action::Respond(Ok(GaugeResponse::Gauges(gauges)), None),
                ),
                Event::ListFailed(e) => (
                    GaugeRequest { operation: self.operation, phase: Phase::Finished },
                    Action::Respond(Err(GaugeError::FailedToGet(e)), None),
                ),
                _ => (self, Action::FindAll),
            },
            Phase::Finished => (self, Action::Connect),
        }
    }
}

} // verus!
