//! The background monitor of a session as a state machine. The task that
//! runs it waits for the interval or for the cancellation signal, tells the
//! machine what happened, and does what the machine answers.

use vstd::prelude::*;

verus! {

/// The seconds between two re-validations.
pub const MONITOR_INTERVAL_SECS: u64 = 10;

/// Where a monitor stands.
#[derive(Debug, Clone, Copy, PartialEq, Eq, Structural)]
pub enum MonitorState {
    /// No monitor runs yet.
    Idle,
    /// The monitor waits for its interval, or re-validates.
    Running,
    /// The monitor has ended quietly; the process goes on.
    Cancelled,
    /// A re-validation failed; the process ends.
    Terminated,
}

/// What a monitor is told.
#[derive(Debug, Clone, Copy, PartialEq, Eq, Structural)]
pub enum MonitorEvent {
    /// A login succeeded and the task has been spawned.
    Started,
    /// The interval elapsed; `logged_in` is what the store says then.
    Tick { logged_in: bool },
    /// The re-validation asked for has come back; `granted` says whether it
    /// granted the key.
    Verified { granted: bool },
    /// The cancellation signal arrived.
    CancelSignal,
}

/// What the task does next.
#[derive(Debug, Clone, Copy, PartialEq, Eq, Structural)]
pub enum MonitorAction {
    /// Wait for the interval or the cancellation signal.
    Wait,
    /// Run the login protocol again with the key of the session.
    Verify,
    /// End the task and leave the process running.
    Stop,
    /// Log the failure and end the process.
    Terminate,
}

/// The state after an event.
pub open spec fn next_state(state: MonitorState, event: MonitorEvent) -> MonitorState {
    match state {
        MonitorState::Idle => match event {
            MonitorEvent::Started => MonitorState::Running,
            _ => MonitorState::Idle,
        },
        MonitorState::Running => match event {
            MonitorEvent::Started => MonitorState::Running,
            MonitorEvent::Tick { logged_in } => if logged_in {
                MonitorState::Running
            } else {
                MonitorState::Cancelled
            },
            MonitorEvent::Verified { granted } => if granted {
                MonitorState::Running
            } else {
                MonitorState::Terminated
            },
            MonitorEvent::CancelSignal => MonitorState::Cancelled,
        },
        MonitorState::Cancelled => MonitorState::Cancelled,
        MonitorState::Terminated => MonitorState::Terminated,
    }
}

/// What the task does after an event.
pub open spec fn next_action(state: MonitorState, event: MonitorEvent) -> MonitorAction {
    match state {
        MonitorState::Idle => match event {
            MonitorEvent::Started => MonitorAction::Wait,
            _ => MonitorAction::Stop,
        },
        MonitorState::Running => match event {
            MonitorEvent::Started => MonitorAction::Wait,
            MonitorEvent::Tick { logged_in } => if logged_in {
                MonitorAction::Verify
            } else {
                MonitorAction::Stop
            },
            MonitorEvent::Verified { granted } => if granted {
                MonitorAction::Wait
            } else {
                MonitorAction::Terminate
            },
            MonitorEvent::CancelSignal => MonitorAction::Stop,
        },
        MonitorState::Cancelled => MonitorAction::Stop,
        MonitorState::Terminated => MonitorAction::Terminate,
    }
}

/// The state after a sequence of events.
pub open spec fn run(state: MonitorState, events: Seq<MonitorEvent>) -> MonitorState
    decreases events.len(),
{
    if events.len() == 0 {
        state
    } else {
        next_state(run(state, events.drop_last()), events.last())
    }
}

impl MonitorState {
    /// The monitor of a session that has not been started.
    pub fn new() -> (state: Self)
        ensures
            state == MonitorState::Idle,
    {
        MonitorState::Idle
    }

    /// Takes one event: the state that follows, and what the task does next.
    ///
    /// A running monitor that finds the user logged out at its interval, or
    /// that receives the cancellation signal, ends quietly. One that finds
    /// the user logged in re-validates; if that grants the key it waits
    /// again, if not the process ends. A monitor that has ended stays so.
    pub fn step(self, event: MonitorEvent) -> (next: (MonitorState, MonitorAction))
        ensures
            next.0 == next_state(self, event),
            next.1 == next_action(self, event),
    {
        match self {
            MonitorState::Idle => match event {
                MonitorEvent::Started => (MonitorState::Running, MonitorAction::Wait),
                _ => (MonitorState::Idle, MonitorAction::Stop),
            },
            MonitorState::Running => match event {
                MonitorEvent::Started => (MonitorState::Running, MonitorAction::Wait),
                MonitorEvent::Tick { logged_in } => if logged_in {
                    (MonitorState::Running, MonitorAction::Verify)
                } else {
                    (MonitorState::Cancelled, MonitorAction::Stop)
                },
                MonitorEvent::Verified { granted } => if granted {
                    (MonitorState::Running, MonitorAction::Wait)
                } else {
                    (MonitorState::Terminated, MonitorAction::Terminate)
                },
                MonitorEvent::CancelSignal => (MonitorState::Cancelled, MonitorAction::Stop),
            },
            MonitorState::Cancelled => (MonitorState::Cancelled, MonitorAction::Stop),
            MonitorState::Terminated => (MonitorState::Terminated, MonitorAction::Terminate),
        }
    }
}

/// The process ends only through a running monitor whose re-validation did
/// not grant the key; the action to end it comes with exactly the steps that
/// lead to, or stay in, the terminated state.
pub proof fn lemma_terminated_only_by_failed_validation(state: MonitorState, event: MonitorEvent)
    ensures
        state != MonitorState::Terminated && next_state(state, event) == MonitorState::Terminated
            ==> state == MonitorState::Running && event == (MonitorEvent::Verified {
            granted: false,
        }),
        next_action(state, event) == MonitorAction::Terminate <==> next_state(state, event)
            == MonitorState::Terminated,
{
}

/// A monitor ends quietly only from the running state, on a cancellation
/// signal or on an interval at which the user is logged out.
pub proof fn lemma_cancelled_only_by_logout(state: MonitorState, event: MonitorEvent)
    ensures
        state != MonitorState::Cancelled && next_state(state, event) == MonitorState::Cancelled
            ==> state == MonitorState::Running && (event == MonitorEvent::CancelSignal || event
            == (MonitorEvent::Tick { logged_in: false })),
        state == MonitorState::Running ==> next_state(state, MonitorEvent::CancelSignal)
            == MonitorState::Cancelled,
{
}

/// A monitor that has ended stays where it is, whatever it is told, and
/// never asks for another re-validation.
pub proof fn lemma_final_states_absorb(state: MonitorState, events: Seq<MonitorEvent>)
    requires
        state == MonitorState::Cancelled || state == MonitorState::Terminated,
    ensures
        run(state, events) == state,
        forall|event: MonitorEvent|
            next_action(state, event) != MonitorAction::Verify && next_action(state, event)
                != MonitorAction::Wait,
    decreases events.len(),
{
    if events.len() > 0 {
        lemma_final_states_absorb(state, events.drop_last());
    }
}

/// A re-validation is asked for only by a running monitor at an interval at
/// which the user is logged in, and the monitor keeps running meanwhile.
pub proof fn lemma_verify_only_when_logged_in(state: MonitorState, event: MonitorEvent)
    ensures
        next_action(state, event) == MonitorAction::Verify <==> state == MonitorState::Running
            && event == (MonitorEvent::Tick { logged_in: true }),
        next_action(state, event) == MonitorAction::Verify ==> next_state(state, event)
            == MonitorState::Running,
{
}

/// Whatever a monitor is told, it reaches the terminated state only if at
/// some moment it was running and was then told that a re-validation did not
/// grant the key.
pub proof fn lemma_terminated_run_saw_failure(start: MonitorState, events: Seq<MonitorEvent>)
    requires
        start != MonitorState::Terminated,
        run(start, events) == MonitorState::Terminated,
    ensures
        exists|at: int|
            0 <= at < events.len() && #[trigger] events[at] == (MonitorEvent::Verified {
                granted: false,
            }) && run(start, events.take(at)) == MonitorState::Running,
    decreases events.len(),
{
    let earlier = events.drop_last();
    let last = events.len() - 1;
    if run(start, earlier) == MonitorState::Terminated {
        lemma_terminated_run_saw_failure(start, earlier);
        let at = choose|at: int|
            0 <= at < earlier.len() && #[trigger] earlier[at] == (MonitorEvent::Verified {
                granted: false,
            }) && run(start, earlier.take(at)) == MonitorState::Running;
        assert(earlier.take(at) == events.take(at));
        assert(events[at] == earlier[at]);
    } else {
        assert(events.take(last) == earlier);
        assert(events[last] == events.last());
    }
}

/// Whatever a monitor is told, it ends quietly only if at some moment it was
/// running and was then cancelled, or found the user logged out at its
/// interval.
pub proof fn lemma_cancelled_run_saw_logout(start: MonitorState, events: Seq<MonitorEvent>)
    requires
        start != MonitorState::Cancelled,
        run(start, events) == MonitorState::Cancelled,
    ensures
        exists|at: int|
            0 <= at < events.len() && (#[trigger] events[at] == MonitorEvent::CancelSignal
                || events[at] == (MonitorEvent::Tick { logged_in: false })) && run(
                start,
                events.take(at),
            ) == MonitorState::Running,
    decreases events.len(),
{
    let earlier = events.drop_last();
    let last = events.len() - 1;
    if run(start, earlier) == MonitorState::Cancelled {
        lemma_cancelled_run_saw_logout(start, earlier);
        let at = choose|at: int|
            0 <= at < earlier.len() && (#[trigger] earlier[at] == MonitorEvent::CancelSignal
                || earlier[at] == (MonitorEvent::Tick { logged_in: false })) && run(
                start,
                earlier.take(at),
            ) == MonitorState::Running;
        assert(earlier.take(at) == events.take(at));
        assert(events[at] == earlier[at]);
    } else {
        assert(events.take(last) == earlier);
        assert(events[last] == events.last());
    }
}

/// A monitor that is running and is told of nothing but intervals at which
/// the user is logged in, and of re-validations that grant the key, keeps
/// running.
pub proof fn lemma_valid_session_keeps_running(events: Seq<MonitorEvent>)
    requires
        forall|at: int|
            0 <= at < events.len() ==> #[trigger] events[at] == (MonitorEvent::Tick {
                logged_in: true,
            }) || events[at] == (MonitorEvent::Verified { granted: true }),
    ensures
        run(MonitorState::Running, events) == MonitorState::Running,
    decreases events.len(),
{
    if events.len() > 0 {
        let earlier = events.drop_last();
        assert forall|at: int| 0 <= at < earlier.len() implies #[trigger] earlier[at] == (
        MonitorEvent::Tick { logged_in: true }) || earlier[at] == (MonitorEvent::Verified {
            granted: true,
        }) by {
            assert(earlier[at] == events[at]);
        }
        lemma_valid_session_keeps_running(earlier);
        assert(events.last() == events[events.len() - 1]);
    }
}

} // verus!
