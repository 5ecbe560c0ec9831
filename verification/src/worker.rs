use vstd::prelude::*;

verus! {

/// What one receive on the worker's request channel produced.
///
/// `C` is the payload of a call (the closure to run on the connection) and `R`
/// that of a close request (where to report the outcome of closing).
pub enum Incoming<C, R> {
    /// A handle asked to run a closure on the connection.
    Execute(C),
    /// A handle asked to close the connection and to be told how that went.
    Close(R),
    /// Every handle was dropped: the channel is disconnected.
    Disconnected,
}

/// What the worker does with one received message.
pub enum Step<C, R> {
    /// Run the closure on the connection, then wait for the next message.
    Run(C),
    /// Close the connection, report the outcome, and leave the loop.
    CloseAndReport(R),
    /// Leave the loop; the connection is dropped and any payload with it.
    Exit,
}

/// The state of the background worker that owns the connection.
#[derive(Clone, Copy, Debug, PartialEq, Eq, Structural)]
pub enum WorkerState {
    /// The worker takes requests.
    Serving,
    /// The worker has left its loop; it takes nothing more.
    Stopped,
}

/// Whether a received message ends the worker's service.
pub open spec fn is_stop<C, R>(incoming: Incoming<C, R>) -> bool {
    !(incoming is Execute)
}

/// One transition of the worker: its next state and what it does.
pub open spec fn transition<C, R>(state: WorkerState, incoming: Incoming<C, R>) -> (WorkerState, Step<C, R>) {
    match state {
        WorkerState::Stopped => (WorkerState::Stopped, Step::Exit),
        WorkerState::Serving => match incoming {
            Incoming::Execute(c) => (WorkerState::Serving, Step::Run(c)),
            Incoming::Close(r) => (WorkerState::Stopped, Step::CloseAndReport(r)),
            Incoming::Disconnected => (WorkerState::Stopped, Step::Exit),
        },
    }
}

/// The steps a worker in `state` takes on `events`, one per event, in order.
pub open spec fn run<C, R>(state: WorkerState, events: Seq<Incoming<C, R>>) -> Seq<Step<C, R>>
    decreases events.len(),
{
    if events.len() == 0 {
        Seq::empty()
    } else {
        let (next, step) = transition(state, events[0]);
        seq![step] + run(next, events.drop_first())
    }
}

/// Whether one of the first `j` events ends the service.
pub open spec fn stopped_before<C, R>(events: Seq<Incoming<C, R>>, j: int) -> bool {
    exists|i: int| 0 <= i < j && is_stop(#[trigger] events[i])
}

/// How a worker starts on the outcome of opening its database: its state, the
/// connection it serves with, and the report to the opener.
pub open spec fn start_outcome<K>(opened: Result<K, rusqlite::Error>) -> (
    WorkerState,
    Option<K>,
    Result<(), rusqlite::Error>,
) {
    match opened {
        Ok(conn) => (WorkerState::Serving, Some(conn), Ok(())),
        Err(e) => (WorkerState::Stopped, None, Err(e)),
    }
}

impl WorkerState {
    /// Start a worker on the outcome of opening its database.
    ///
    /// When the database opened, the worker serves with that connection and
    /// reports success to the opener; when opening failed with `e`, the worker
    /// never serves and reports `e`.
    pub fn start<K>(opened: Result<K, rusqlite::Error>) -> (res: (
        WorkerState,
        Option<K>,
        Result<(), rusqlite::Error>,
    ))
        ensures
            res == start_outcome(opened),
    {
        match opened {
            Ok(conn) => (WorkerState::Serving, Some(conn), Ok(())),
            Err(e) => (WorkerState::Stopped, None, Err(e)),
        }
    }

    /// Decide what to do with one received message.
    ///
    /// A serving worker runs each call it receives and keeps serving; a close
    /// request makes it close the connection, report, and stop; a disconnected
    /// channel makes it stop. A stopped worker does nothing more.
    pub fn step<C, R>(self, incoming: Incoming<C, R>) -> (res: (WorkerState, Step<C, R>))
        ensures
            res == transition(self, incoming),
    {
        match self {
            WorkerState::Stopped => (WorkerState::Stopped, Step::Exit),
            WorkerState::Serving => match incoming {
                Incoming::Execute(c) => (WorkerState::Serving, Step::Run(c)),
                Incoming::Close(r) => (WorkerState::Stopped, Step::CloseAndReport(r)),
                Incoming::Disconnected => (WorkerState::Stopped, Step::Exit),
            },
        }
    }
}

/// Once stopped, the worker stays stopped and only exits, whatever it receives.
pub proof fn lemma_stopped_is_final<C, R>(incoming: Incoming<C, R>)
    ensures
        transition(WorkerState::Stopped, incoming) == (WorkerState::Stopped, Step::<C, R>::Exit),
{
}

/// Over any sequence of received messages, the worker takes one step per
/// message; the `j`-th step is the serving transition on the `j`-th message when
/// the worker was serving and no earlier message ended the service, and `Exit`
/// otherwise. So every call received before the first close or disconnect runs,
/// in the order received, and nothing after it runs.
pub proof fn lemma_run<C, R>(state: WorkerState, events: Seq<Incoming<C, R>>)
    ensures
        run(state, events).len() == events.len(),
        forall|j: int|
            0 <= j < events.len() ==> #[trigger] run(state, events)[j] == (if state
                == WorkerState::Stopped || stopped_before(events, j) {
                Step::Exit
            } else {
                transition(WorkerState::Serving, events[j]).1
            }),
    decreases events.len(),
{
    if events.len() > 0 {
        let (next, step) = transition(state, events[0]);
        let rest = events.drop_first();
        lemma_run(next, rest);
        let steps = run(state, events);
        assert(steps == seq![step] + run(next, rest));
        assert forall|j: int| 0 <= j < events.len() implies #[trigger] steps[j] == (if state
            == WorkerState::Stopped || stopped_before(events, j) {
            Step::Exit
        } else {
            transition(WorkerState::Serving, events[j]).1
        }) by {
            if j == 0 {
                assert(!stopped_before(events, 0));
            } else {
                assert(steps[j] == run(next, rest)[j - 1]);
                assert(rest[j - 1] == events[j]);
                if stopped_before(rest, j - 1) {
                    let i = choose|i: int| 0 <= i < j - 1 && is_stop(#[trigger] rest[i]);
                    assert(events[i + 1] == rest[i]);
                    assert(stopped_before(events, j));
                }
                if stopped_before(events, j) && !stopped_before(rest, j - 1) {
                    let i = choose|i: int| 0 <= i < j && is_stop(#[trigger] events[i]);
                    if i > 0 {
                        assert(rest[i - 1] == events[i]);
                    }
                    assert(i == 0);
                }
            }
        }
    }
}

} // verus!
