use vstd::prelude::*;

verus! {

/// Failures surfaced by broker and management calls.
#[derive(Debug)]
pub enum ServiceBusError {
    /// The HTTP exchange itself failed (connect, TLS, reading the body).
    Http(String),
    /// A management feed could not be read as XML.
    Xml(String),
    /// No authorization could be obtained for a request.
    Auth(String),
    /// The broker answered with a status of 400 or above.
    Api { status: u16, body: String },
    /// A connection string lacked a required part.
    InvalidConnectionString(String),
    /// A lock or entity no longer exists.
    NotFound(String),
    /// An operation was refused before reaching the broker.
    Operation(String),
    /// Any other failure.
    Other(String),
}

/// Whether an HTTP status denotes a broker failure.
pub open spec fn is_failure_status(status: u16) -> bool {
    status >= 400
}

/// Decides whether a disposition (complete, abandon, dead-letter, send)
/// succeeded from the status the broker answered with.
pub fn disposition_succeeded(status: u16) -> (r: bool)
    ensures
        r == !is_failure_status(status),
{
    status < 400
}

} // verus!
