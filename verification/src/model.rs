//! The gauge records, the answers of the service and its errors.
use vstd::prelude::*;

verus! {

/// A moment in time without a time zone, as the database stores it.
#[verifier::external_type_specification]
#[verifier::external_body]
pub struct ExNaiveDateTime(chrono::NaiveDateTime);

/// A gauge as the database holds it: its name (the key), its value and when it
/// was last changed.
#[derive(Debug)]
pub struct Gauge {
    pub name: String,
    pub value: i64,
    pub last_modified: chrono::NaiveDateTime,
}

/// A gauge row to insert.
#[derive(Debug)]
pub struct NewGauge {
    pub name: String,
    pub value: i64,
}

impl Clone for Gauge {
    fn clone(&self) -> (copy: Self)
        ensures
            copy == *self,
    {
        Gauge { name: self.name.clone(), value: self.value, last_modified: self.last_modified }
    }
}

impl Clone for NewGauge {
    fn clone(&self) -> (copy: Self)
        ensures
            copy == *self,
    {
        NewGauge { name: self.name.clone(), value: self.value }
    }
}

/// A change to a gauge row: the new value, where there is one.
#[derive(Clone, Copy, Debug, PartialEq, Eq, Structural)]
pub struct GaugeUpdate {
    pub value: Option<i64>,
}

} // verus!

verus! {

/// A successful answer of the service.
#[derive(Debug)]
pub enum GaugeResponse {
    /// The gauge's value after an increment.
    Incremented(i64),
    /// The gauge's value after a decrement.
    Decremented(i64),
    /// The name of the gauge that was created.
    Created(String),
    /// Every gauge in the database.
    Gauges(Vec<Gauge>),
}

/// A failed request, with the text of what went wrong (or, for
/// `AlreadyExists`, the gauge's name).
#[derive(Debug)]
pub enum GaugeError {
    /// The gauge to change was not found (or looking it up failed).
    NotFound(String),
    /// The gauge to create exists already; its name.
    AlreadyExists(String),
    /// Writing a decremented value failed.
    FailedToDecrement(String),
    /// Writing an incremented value failed.
    FailedToIncrement(String),
    /// Looking up or inserting the gauge to create failed.
    FailedToCreate(String),
    /// Loading the list of gauges failed. It is answered like the other
    /// failures of the database, with status 500 and the message
    /// `Failed to get gauges. Error: ` followed by the error's text.
    FailedToGet(String),
    /// No database connection could be had.
    R2D2Error(String),
}

/// The HTTP status code with which an error is answered.
pub open spec fn error_status_code(error: GaugeError) -> u16 {
    match error {
        GaugeError::NotFound(_) => 404,
        GaugeError::AlreadyExists(_) => 409,
        _ => 500,
    }
}

/// The text that an error carries: the database's error text, or for
/// `AlreadyExists` the gauge's name.
pub open spec fn error_text(error: GaugeError) -> String {
    match error {
        GaugeError::NotFound(e) => e,
        GaugeError::AlreadyExists(name) => name,
        GaugeError::FailedToDecrement(e) => e,
        GaugeError::FailedToIncrement(e) => e,
        GaugeError::FailedToCreate(e) => e,
        GaugeError::FailedToGet(e) => e,
        GaugeError::R2D2Error(e) => e,
    }
}

/// Whether two errors are of the same kind, whatever their texts.
pub open spec fn same_kind(a: GaugeError, b: GaugeError) -> bool {
    ||| (a is NotFound && b is NotFound)
    ||| (a is AlreadyExists && b is AlreadyExists)
    ||| (a is FailedToDecrement && b is FailedToDecrement)
    ||| (a is FailedToIncrement && b is FailedToIncrement)
    ||| (a is FailedToCreate && b is FailedToCreate)
    ||| (a is FailedToGet && b is FailedToGet)
    ||| (a is R2D2Error && b is R2D2Error)
}

/// A missing gauge is answered 404 Not Found, a gauge that exists already 409
/// Conflict, and every other failure 500 Internal Server Error, whatever text
/// the error carries.
pub proof fn law_error_status_codes(error: GaugeError)
    ensures
        error is NotFound ==> error_status_code(error) == 404,
        error is AlreadyExists ==> error_status_code(error) == 409,
        !(error is NotFound) && !(error is AlreadyExists) ==> error_status_code(error) == 500,
{
}

/// The status code of an error depends on its kind alone: two errors of the
/// same kind, with any texts, are answered with the same status code.
pub proof fn law_error_status_code_ignores_text(a: GaugeError, b: GaugeError)
    requires
        same_kind(a, b),
    ensures
        error_status_code(a) == error_status_code(b),
{
}

/// An error's message holds its text whole: the database's error text ends
/// the message, and the name of a gauge that exists already follows the
/// message's opening words; the words around it are the same for every text.
pub proof fn law_error_message_holds_text(a: GaugeError, b: GaugeError)
    requires
        same_kind(a, b),
    ensures
        ({
            let (ma, mb) = (error_message(a), error_message(b));
            let (ta, tb) = (error_text(a)@, error_text(b)@);
            let head: int = "The gauge you tried to create with name "@.len() as int;
            if a is AlreadyExists {
                &&& ma.subrange(head, head + ta.len()) == ta
                &&& ma.subrange(0, head) == mb.subrange(0, head)
                &&& ma.subrange(head + ta.len(), ma.len() as int) == mb.subrange(
                    head + tb.len(),
                    mb.len() as int,
                )
            } else {
                &&& ma.subrange(ma.len() - ta.len(), ma.len() as int) == ta
                &&& ma.subrange(0, ma.len() - ta.len()) == mb.subrange(0, mb.len() - tb.len())
            }
        }),
{
    let (ma, mb) = (error_message(a), error_message(b));
    let (ta, tb) = (error_text(a)@, error_text(b)@);
    if a is AlreadyExists {
        let p = "The gauge you tried to create with name "@;
        let q = " already exists. Try creating one with a different name."@;
        let head: int = p.len() as int;
        assert(ma == p + ta + q);
        assert(mb == p + tb + q);
        assert(ma.subrange(head, head + ta.len()) =~= ta);
        assert(ma.subrange(0, head) =~= p);
        assert(mb.subrange(0, head) =~= p);
        assert(ma.subrange(head + ta.len(), ma.len() as int) =~= q);
        assert(mb.subrange(head + tb.len(), mb.len() as int) =~= q);
    } else {
        let p = match a {
            GaugeError::NotFound(_) => "The gauge was not found in the database. Error: "@,
            GaugeError::FailedToDecrement(_) => "Failed to decrement the gauge. Error: "@,
            GaugeError::FailedToIncrement(_) => "Failed to increment the gauge. Error: "@,
            GaugeError::FailedToCreate(_) => "Failed to create gauge. Error: "@,
            GaugeError::FailedToGet(_) => "Failed to get gauges. Error: "@,
            _ => "Error communicating with database. Error: "@,
        };
        assert(ma == p + ta);
        assert(mb == p + tb);
        assert(ma.subrange(ma.len() - ta.len(), ma.len() as int) =~= ta);
        assert(ma.subrange(0, ma.len() - ta.len()) =~= p);
        assert(mb.subrange(0, mb.len() - tb.len()) =~= p);
    }
}

/// The message with which an error is answered.
pub open spec fn error_message(error: GaugeError) -> Seq<char> {
    match error {
        GaugeError::NotFound(e) => "The gauge was not found in the database. Error: "@ + e@,
        GaugeError::AlreadyExists(name) => "The gauge you tried to create with name "@ + name@
            + " already exists. Try creating one with a different name."@,
        GaugeError::FailedToDecrement(e) => "Failed to decrement the gauge. Error: "@ + e@,
        GaugeError::FailedToIncrement(e) => "Failed to increment the gauge. Error: "@ + e@,
        GaugeError::FailedToCreate(e) => "Failed to create gauge. Error: "@ + e@,
        GaugeError::FailedToGet(e) => "Failed to get gauges. Error: "@ + e@,
        GaugeError::R2D2Error(e) => "Error communicating with database. Error: "@ + e@,
    }
}

fn prefixed(prefix: &str, text: &String) -> (message: String)
    ensures
        message@ == prefix@ + text@,
{
    let mut message = prefix.to_owned();
    message.append(text.as_str());
    message
}

impl GaugeError {
    /// The answer to a failed request: its HTTP status code and message.
    pub fn into_response(self) -> (response: (u16, String))
        ensures
            response.0 == error_status_code(self),
            response.1@ == error_message(self),
    {
        match self {
            GaugeError::NotFound(e) => (
                404,
                prefixed("The gauge was not found in the database. Error: ", &e),
            ),
            GaugeError::AlreadyExists(name) => {
                let mut message = prefixed("The gauge you tried to create with name ", &name);
                message.append(" already exists. Try creating one with a different name.");
                (409, message)
            },
            GaugeError::FailedToDecrement(e) => (
                500,
                prefixed("Failed to decrement the gauge. Error: ", &e),
            ),
            GaugeError::FailedToIncrement(e) => (
                500,
                prefixed("Failed to increment the gauge. Error: ", &e),
            ),
            GaugeError::FailedToCreate(e) => (500, prefixed("Failed to create gauge. Error: ", &e)),
            GaugeError::FailedToGet(e) => (500, prefixed("Failed to get gauges. Error: ", &e)),
            GaugeError::R2D2Error(e) => (
                500,
                prefixed("Error communicating with database. Error: ", &e),
            ),
        }
    }
}

} // verus!
