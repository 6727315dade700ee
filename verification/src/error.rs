//! The error taxonomy of the engine. Every error is terminal for the
//! operation that raised it; nothing in this core retries.

use vstd::prelude::*;

verus! {

/// Why a query failed.
#[derive(Debug, Clone)]
pub enum QueryError {
    /// The request could not be completed: a non-2xx HTTP status (the message
    /// carries the status code and the response body text), a network
    /// failure, or a timeout.
    Transport(String),
    /// The response body did not have the expected tabular JSON shape.
    Decode(String),
    /// The server itself reported an error for the statement.
    Database(String),
}

impl QueryError {
    /// The human-readable text carried by the error.
    pub fn message(&self) -> (r: &str)
        ensures
            r@ == match *self {
                QueryError::Transport(m) => m@,
                QueryError::Decode(m) => m@,
                QueryError::Database(m) => m@,
            },
    {
        match self {
            QueryError::Transport(m) => m.as_str(),
            QueryError::Decode(m) => m.as_str(),
            QueryError::Database(m) => m.as_str(),
        }
    }
}

} // verus!
