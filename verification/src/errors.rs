use vstd::prelude::*;

verus! {

/// Failure while collecting the worker status from the pool API.
#[derive(Debug)]
pub enum ServerError {
    /// The HTTP request itself failed; carries the transport error's text.
    HttpError(String),
    /// The response body did not have the expected shape, or the matched
    /// worker's last-share field could not be read as a timestamp that lies
    /// in the past.
    ParseError(String),
    /// The response parsed but listed no workers at all.
    NoWorkers,
}

/// Failure while driving the virtual machine.
#[derive(Debug)]
pub enum MachineError {
    /// An external command could not be dispatched; carries the dispatch
    /// error's text.
    CommandError(String),
}

} // verus!
