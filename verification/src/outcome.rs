use vstd::prelude::*;
use crate::error::Error;
use crate::worker::{Incoming, Step, WorkerState, lemma_run, run, start_outcome, stopped_before};

verus! {

/// What a handle learns after sending a request to the worker.
pub enum Reply<T> {
    /// The request could not be sent: the worker has dropped its receiver.
    Refused,
    /// The request was accepted, but the reply channel closed without a reply
    /// (the worker stopped before it got to the request).
    Lost,
    /// The worker answered.
    Answered(T),
}

/// The result that `call` returns for what it learned.
pub open spec fn call_outcome<T>(reply: Reply<Result<T, Error>>) -> Result<T, Error> {
    match reply {
        Reply::Answered(r) => r,
        _ => Err(Error::ConnectionClosed),
    }
}

/// The result that `close` returns for what it learned.
pub open spec fn close_outcome(reply: Reply<Result<(), rusqlite::Error>>) -> Result<(), Error> {
    match reply {
        Reply::Answered(Ok(())) => Ok(()),
        Reply::Answered(Err(e)) => Err(Error::Close(e)),
        _ => Err(Error::ConnectionClosed),
    }
}

/// The result that opening returns for what the opening thread reported
/// (`None` when it went away without a report).
pub open spec fn open_outcome(report: Option<Result<(), rusqlite::Error>>) -> Result<(), Error> {
    match report {
        Some(Ok(())) => Ok(()),
        Some(Err(e)) => Err(Error::Rusqlite(e)),
        None => Err(Error::ConnectionClosed),
    }
}

/// The result of a call: the closure's own result when the worker answered,
/// `ConnectionClosed` when the request was refused or its reply was lost.
pub fn call_result<T>(reply: Reply<Result<T, Error>>) -> (res: Result<T, Error>)
    ensures
        res == call_outcome(reply),
{
    match reply {
        Reply::Answered(r) => r,
        Reply::Refused => Err(Error::ConnectionClosed),
        Reply::Lost => Err(Error::ConnectionClosed),
    }
}

/// The result of an explicit close: `Ok` when the connection closed cleanly,
/// `Close(e)` when rusqlite reported `e` while closing, and `ConnectionClosed`
/// when the worker had already stopped.
pub fn close_result(reply: Reply<Result<(), rusqlite::Error>>) -> (res: Result<(), Error>)
    ensures
        res == close_outcome(reply),
{
    match reply {
        Reply::Answered(Ok(())) => Ok(()),
        Reply::Answered(Err(e)) => Err(Error::Close(e)),
        Reply::Refused => Err(Error::ConnectionClosed),
        Reply::Lost => Err(Error::ConnectionClosed),
    }
}

/// The result of opening: `Ok` when the worker opened the database,
/// `Rusqlite(e)` when rusqlite failed to open it with `e`, and
/// `ConnectionClosed` when the worker went away without reporting.
pub fn open_result(report: Option<Result<(), rusqlite::Error>>) -> (res: Result<(), Error>)
    ensures
        res == open_outcome(report),
{
    match report {
        Some(Ok(())) => Ok(()),
        Some(Err(e)) => Err(Error::Rusqlite(e)),
        None => Err(Error::ConnectionClosed),
    }
}

/// What the handle that sent a request learns, given the step the worker took
/// on it: the handle hears `answer` exactly when the worker acted on its
/// request; otherwise the request (and its reply channel) was dropped.
pub open spec fn heard<C, R, T>(step: Step<C, R>, answer: T) -> Reply<T> {
    match step {
        Step::Run(_) => Reply::Answered(answer),
        Step::CloseAndReport(_) => Reply::Answered(answer),
        Step::Exit => Reply::Lost,
    }
}

/// Opening succeeds exactly when rusqlite opened the database, and then the
/// worker serves; when rusqlite failed with `e`, opening returns `Rusqlite(e)`
/// and the worker never serves.
pub proof fn lemma_open_reports_rusqlite_outcome<K>(opened: Result<K, rusqlite::Error>)
    ensures
        open_outcome(Some(start_outcome(opened).2)) == match opened {
            Ok(_) => Ok::<(), Error>(()),
            Err(e) => Err(Error::Rusqlite(e)),
        },
        (start_outcome(opened).0 == WorkerState::Serving) == (opened is Ok),
{
}

/// A call answered by the worker returns exactly the closure's result.
pub proof fn lemma_call_returns_closure_result<T>(r: Result<T, Error>)
    ensures
        call_outcome(Reply::Answered(r)) == r,
{
}

/// Once the connection was closed (or every handle dropped), a later call
/// returns `ConnectionClosed`, whatever its closure would have returned, and
/// whether or not the channel still took the request.
pub proof fn lemma_call_after_close<C, R, T>(
    events: Seq<Incoming<C, R>>,
    j: int,
    answer: Result<T, Error>,
)
    requires
        0 <= j < events.len(),
        events[j] is Execute,
        stopped_before(events, j),
    ensures
        call_outcome(heard(run(WorkerState::Serving, events)[j], answer)) == Err::<T, Error>(
            Error::ConnectionClosed,
        ),
        call_outcome(Reply::<Result<T, Error>>::Refused) == Err::<T, Error>(Error::ConnectionClosed),
{
    lemma_run(WorkerState::Serving, events);
}

/// A call received while the worker still serves returns its closure's result.
pub proof fn lemma_call_before_close<C, R, T>(
    events: Seq<Incoming<C, R>>,
    j: int,
    answer: Result<T, Error>,
)
    requires
        0 <= j < events.len(),
        events[j] is Execute,
        !stopped_before(events, j),
    ensures
        run(WorkerState::Serving, events)[j] == Step::<C, R>::Run(events[j]->Execute_0),
        call_outcome(heard(run(WorkerState::Serving, events)[j], answer)) == answer,
{
    lemma_run(WorkerState::Serving, events);
}

/// Closing a connection that was already closed (or whose handles were all
/// dropped) returns `ConnectionClosed`.
pub proof fn lemma_close_after_close<C, R>(
    events: Seq<Incoming<C, R>>,
    j: int,
    report: Result<(), rusqlite::Error>,
)
    requires
        0 <= j < events.len(),
        events[j] is Close,
        stopped_before(events, j),
    ensures
        close_outcome(heard(run(WorkerState::Serving, events)[j], report)) == Err::<(), Error>(
            Error::ConnectionClosed,
        ),
        close_outcome(Reply::Refused) == Err::<(), Error>(Error::ConnectionClosed),
{
    lemma_run(WorkerState::Serving, events);
}

/// The first close request closes the connection and its caller hears how
/// that went: `Ok` for a clean close, `Close(e)` for rusqlite's error `e`.
pub proof fn lemma_first_close_reports<C, R>(
    events: Seq<Incoming<C, R>>,
    j: int,
    report: Result<(), rusqlite::Error>,
)
    requires
        0 <= j < events.len(),
        events[j] is Close,
        !stopped_before(events, j),
    ensures
        run(WorkerState::Serving, events)[j] == Step::<C, R>::CloseAndReport(events[j]->Close_0),
        close_outcome(heard(run(WorkerState::Serving, events)[j], report)) == match report {
            Ok(()) => Ok::<(), Error>(()),
            Err(e) => Err(Error::Close(e)),
        },
{
    lemma_run(WorkerState::Serving, events);
}

} // verus!
