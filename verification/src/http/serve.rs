//! The serving side of the HTTP ops: their error, where the server listens,
//! and what waiting for the next request yields.
use vstd::prelude::*;

verus! {

/// The address on which the server listens.
pub const LISTEN_ADDR: &'static str = "127.0.0.1:8000";

/// How many accepted requests may wait for the script before accepting blocks.
pub const REQUEST_QUEUE_CAPACITY: usize = 10;

/// The name under which the server is kept in the op state's resource table.
pub const RESOURCE_NAME: &'static str = "http";

/// The error of the HTTP ops.
#[derive(Debug, Clone, Copy, PartialEq, Eq, Structural)]
pub enum HttpError {
    ServerError,
}

impl HttpError {
    /// The error's message.
    pub fn message(&self) -> (m: &'static str)
        ensures
            m@ == "Listener has been closed"@,
    {
        "Listener has been closed"
    }

    /// The JavaScript error class under which the script sees the error.
    pub fn class(&self) -> (c: &'static str)
        ensures
            c@ == "BadResource"@,
    {
        "BadResource"
    }
}

/// What waiting for the next request does with what the request queue gave.
#[derive(Debug, PartialEq, Eq)]
pub enum WaitStep<R> {
    /// Hand the request to the script.
    Deliver(R),
    /// The queue is closed: wait for the accept loop to end and report that
    /// no request is left.
    Finish,
}

/// The step that follows receiving `next` from the request queue.
pub fn next_wait_step<R>(next: Option<R>) -> (step: WaitStep<R>)
    ensures
        match next {
            Some(r) => step == WaitStep::Deliver(r),
            None => step == WaitStep::Finish::<R>,
        },
{
    match next {
        Some(record) => WaitStep::Deliver(record),
        None => WaitStep::Finish,
    }
}

} // verus!
