//! The life cycle of the server: the accept loop that dispatches workers, and
//! the shutdown controller that watches the operator's input, raises the stop
//! signal and grants the work in flight a grace period. Both are written as
//! steps from a state and an event to the next state and the action to take;
//! the caller owns the sockets, the terminal and the clock.

use crate::environment::Environment;
use vstd::prelude::*;

verus! {

/// Where the accept loop stands.
#[derive(Debug, Clone, Copy, PartialEq, Eq, Structural)]
pub enum AcceptState {
    /// Accepting connections and dispatching a worker for each.
    Running,
    /// The stop signal was seen: nothing is accepted any more, workers in
    /// flight may still finish.
    Draining,
    /// The listener is gone.
    Stopped,
}

/// What a blocking accept came back with.
#[derive(Debug, Clone, Copy, PartialEq, Eq, Structural)]
pub enum AcceptEvent {
    /// A new connection.
    Connection,
    /// An error in place of a connection.
    Failure,
    /// The listener was closed.
    Closed,
}

/// What the accept loop does with what came back.
#[derive(Debug, Clone, Copy, PartialEq, Eq, Structural)]
pub enum AcceptAction {
    /// Hand the connection to a new worker and accept again at once.
    Dispatch,
    /// Log the accept error and accept again.
    Report,
    /// Drop what came back, say that the stop signal was seen, and leave the
    /// loop.
    Leave,
    /// Nothing is left to do.
    Rest,
}

/// One iteration of the accept loop: the stop signal is looked at first, so
/// what comes back after it was seen is never dispatched; while running, a
/// connection is dispatched and an error is reported, and neither ends the
/// loop.
pub open spec fn accept_step(state: AcceptState, stop: bool, event: AcceptEvent) -> (
    AcceptState,
    AcceptAction,
) {
    match state {
        AcceptState::Running => {
            if event == AcceptEvent::Closed {
                (AcceptState::Stopped, AcceptAction::Rest)
            } else if stop {
                (AcceptState::Draining, AcceptAction::Leave)
            } else if event == AcceptEvent::Connection {
                (AcceptState::Running, AcceptAction::Dispatch)
            } else {
                (AcceptState::Running, AcceptAction::Report)
            }
        },
        AcceptState::Draining => {
            if event == AcceptEvent::Closed {
                (AcceptState::Stopped, AcceptAction::Rest)
            } else {
                (AcceptState::Draining, AcceptAction::Rest)
            }
        },
        AcceptState::Stopped => (AcceptState::Stopped, AcceptAction::Rest),
    }
}

/// The state after a run of iterations and the action of each, where every
/// iteration is the stop signal as it was seen and what the accept came back
/// with.
pub open spec fn accept_run(state: AcceptState, inputs: Seq<(bool, AcceptEvent)>) -> (
    AcceptState,
    Seq<AcceptAction>,
)
    decreases inputs.len(),
{
    if inputs.len() == 0 {
        (state, Seq::empty())
    } else {
        let (before, actions) = accept_run(state, inputs.drop_last());
        let (after, action) = accept_step(before, inputs.last().0, inputs.last().1);
        (after, actions.push(action))
    }
}

/// One iteration of the accept loop: `stop` is the stop signal as read at the
/// start of the iteration, `event` is what the accept came back with.
pub fn event_loop(state: AcceptState, stop: bool, event: AcceptEvent) -> (next: (
    AcceptState,
    AcceptAction,
))
    ensures
        next == accept_step(state, stop, event),
{
    match state {
        AcceptState::Running => {
            if event == AcceptEvent::Closed {
                (AcceptState::Stopped, AcceptAction::Rest)
            } else if stop {
                (AcceptState::Draining, AcceptAction::Leave)
            } else if event == AcceptEvent::Connection {
                (AcceptState::Running, AcceptAction::Dispatch)
            } else {
                (AcceptState::Running, AcceptAction::Report)
            }
        },
        AcceptState::Draining => {
            if event == AcceptEvent::Closed {
                (AcceptState::Stopped, AcceptAction::Rest)
            } else {
                (AcceptState::Draining, AcceptAction::Rest)
            }
        },
        AcceptState::Stopped => (AcceptState::Stopped, AcceptAction::Rest),
    }
}

/// A run has one action per iteration, and a loop that has left `Running`
/// never comes back to it.
pub proof fn lemma_accept_run_shape(state: AcceptState, inputs: Seq<(bool, AcceptEvent)>)
    ensures
        accept_run(state, inputs).1.len() == inputs.len(),
        state != AcceptState::Running ==> accept_run(state, inputs).0 != AcceptState::Running,
        state == AcceptState::Stopped ==> accept_run(state, inputs).0 == AcceptState::Stopped,
        forall|k: int|
            0 <= k < inputs.len() ==> accept_run(state, inputs.take(k + 1)).1 == accept_run(
                state,
                inputs.take(k),
            ).1.push(#[trigger] accept_run(state, inputs).1[k]),
    decreases inputs.len(),
{
    if inputs.len() > 0 {
        let shorter = inputs.drop_last();
        lemma_accept_run_shape(state, shorter);
        assert forall|k: int| 0 <= k < inputs.len() implies accept_run(
            state,
            inputs.take(k + 1),
        ).1 == accept_run(state, inputs.take(k)).1.push(
            #[trigger] accept_run(state, inputs).1[k],
        ) by {
            if k < inputs.len() - 1 {
                assert(inputs.take(k + 1) =~= shorter.take(k + 1));
                assert(inputs.take(k) =~= shorter.take(k));
            } else {
                assert(inputs.take(k + 1) =~= inputs);
            }
        }
    }
}

/// The state in which iteration `k` of a run starts.
pub open spec fn state_before(state: AcceptState, inputs: Seq<(bool, AcceptEvent)>, k: int) -> AcceptState {
    accept_run(state, inputs.take(k)).0
}

/// Action `k` of a run is the step from the state that iteration `k` starts in.
pub proof fn lemma_accept_run_action(state: AcceptState, inputs: Seq<(bool, AcceptEvent)>, k: int)
    requires
        0 <= k < inputs.len(),
    ensures
        accept_run(state, inputs).1[k] == accept_step(
            state_before(state, inputs, k),
            inputs[k].0,
            inputs[k].1,
        ).1,
        state_before(state, inputs, k + 1) == accept_step(
            state_before(state, inputs, k),
            inputs[k].0,
            inputs[k].1,
        ).0,
{
    lemma_accept_run_shape(state, inputs);
    lemma_accept_run_shape(state, inputs.take(k));
    let upto = inputs.take(k + 1);
    assert(upto.drop_last() =~= inputs.take(k));
    assert(accept_run(state, upto).1.last() == accept_run(state, inputs).1[k]);
}

/// Once an iteration has seen the stop signal, neither it nor any later
/// iteration dispatches a connection, whatever comes back from the listener
/// and whatever is read from the signal afterwards.
pub proof fn lemma_no_dispatch_after_stop(
    state: AcceptState,
    inputs: Seq<(bool, AcceptEvent)>,
    seen: int,
    later: int,
)
    requires
        0 <= seen <= later < inputs.len(),
        inputs[seen].0,
    ensures
        accept_run(state, inputs).1[later] != AcceptAction::Dispatch,
        state_before(state, inputs, later + 1) != AcceptState::Running,
    decreases later - seen,
{
    lemma_accept_run_action(state, inputs, later);
    if seen < later {
        lemma_no_dispatch_after_stop(state, inputs, seen, later - 1);
    }
}

/// While the stop signal is not seen and the listener stays open, every
/// connection is dispatched, every error is reported, and the loop goes on.
pub proof fn lemma_running_serves_every_connection(inputs: Seq<(bool, AcceptEvent)>, k: int)
    requires
        0 <= k < inputs.len(),
        forall|j: int| 0 <= j <= k ==> !(#[trigger] inputs[j]).0 && inputs[j].1 != AcceptEvent::Closed,
    ensures
        state_before(AcceptState::Running, inputs, k + 1) == AcceptState::Running,
        inputs[k].1 == AcceptEvent::Connection ==> accept_run(AcceptState::Running, inputs).1[k]
            == AcceptAction::Dispatch,
        inputs[k].1 == AcceptEvent::Failure ==> accept_run(AcceptState::Running, inputs).1[k]
            == AcceptAction::Report,
    decreases k,
{
    lemma_accept_run_action(AcceptState::Running, inputs, k);
    if k > 0 {
        lemma_running_serves_every_connection(inputs, k - 1);
    }
}

/// The three bytes that ask the server to stop: the interrupt key, read in
/// raw mode into a cleared buffer.
pub open spec fn interrupt_sequence() -> Seq<u8> {
    seq![3u8, 0u8, 0u8]
}

/// Whether `chunk` is the interrupt sequence.
pub fn is_interrupt(chunk: &[u8; 3]) -> (hit: bool)
    ensures
        hit == (chunk@ == interrupt_sequence()),
{
    let hit = chunk[0] == 3 && chunk[1] == 0 && chunk[2] == 0;
    assert(hit ==> chunk@ =~= interrupt_sequence());
    hit
}

/// The local terminal flags for raw input: `flags` without echo, line
/// buffering, signal keys and extended input processing, every other bit as
/// it was. The four parameters are the platform's bit masks for these modes.
pub fn raw_local_flags(flags: u32, echo: u32, canonical: u32, signals: u32, extended: u32) -> (raw:
    u32)
    ensures
        raw == flags & !(echo | canonical | signals | extended),
        raw & echo == 0,
        raw & canonical == 0,
        raw & signals == 0,
        raw & extended == 0,
        raw | (echo | canonical | signals | extended) == flags | (echo | canonical | signals
            | extended),
{
    let raw = flags & !(echo | canonical | signals | extended);
    assert(raw & echo == 0 && raw & canonical == 0 && raw & signals == 0 && raw & extended == 0
        && raw | (echo | canonical | signals | extended) == flags | (echo | canonical | signals
        | extended)) by (bit_vector)
        requires
            raw == flags & !(echo | canonical | signals | extended),
    ;
    raw
}

/// Where the shutdown controller stands.
#[derive(Debug, Clone, Copy, PartialEq, Eq, Structural)]
pub enum ShutdownState {
    /// Reading the operator's input, waiting for the interrupt sequence.
    Watching,
    /// The stop signal is raised; it is not yet known whether the accept side
    /// has finished.
    Signalled,
    /// The grace period is running.
    Waiting,
    /// The terminal is restored and the process may exit.
    Done,
}

/// What the caller reports to the shutdown controller.
#[derive(Debug, Clone, Copy, PartialEq, Eq)]
pub enum ShutdownEvent {
    /// The input buffer after one read.
    Input([u8; 3]),
    /// Whether the accept side has finished.
    Probe(bool),
}

/// What the shutdown controller asks the caller to do.
#[derive(Debug, Clone, Copy, PartialEq, Eq, Structural)]
pub enum ShutdownAction {
    /// Read the input again and report the buffer.
    Read,
    /// Raise the stop signal, then report whether the accept side has
    /// finished.
    Raise,
    /// Wait for so many milliseconds, then report whether the accept side has
    /// finished.
    Wait(u64),
    /// Restore the terminal and let the process end. Where `forced` is set,
    /// work is still in flight and is abandoned.
    Teardown { forced: bool },
    /// Nothing is asked for.
    Rest,
}

/// One step of the shutdown controller with grace period `grace`. Input other
/// than the interrupt sequence is ignored; after the signal, unfinished work
/// gets the grace period once, and the terminal is restored whether or not
/// the work has finished by then.
pub open spec fn shutdown_step(state: ShutdownState, grace: u64, event: ShutdownEvent) -> (
    ShutdownState,
    ShutdownAction,
) {
    match state {
        ShutdownState::Watching => match event {
            ShutdownEvent::Input(chunk) => if chunk@ == interrupt_sequence() {
                (ShutdownState::Signalled, ShutdownAction::Raise)
            } else {
                (ShutdownState::Watching, ShutdownAction::Read)
            },
            ShutdownEvent::Probe(_) => (ShutdownState::Watching, ShutdownAction::Read),
        },
        ShutdownState::Signalled => match event {
            ShutdownEvent::Input(_) => (ShutdownState::Signalled, ShutdownAction::Rest),
            ShutdownEvent::Probe(finished) => if finished {
                (ShutdownState::Done, ShutdownAction::Teardown { forced: false })
            } else {
                (ShutdownState::Waiting, ShutdownAction::Wait(grace))
            },
        },
        ShutdownState::Waiting => match event {
            ShutdownEvent::Input(_) => (ShutdownState::Waiting, ShutdownAction::Rest),
            ShutdownEvent::Probe(finished) => (
                ShutdownState::Done,
                ShutdownAction::Teardown { forced: !finished },
            ),
        },
        ShutdownState::Done => (ShutdownState::Done, ShutdownAction::Rest),
    }
}

/// The state after a run of events and the action that answered each.
pub open spec fn shutdown_run(state: ShutdownState, grace: u64, events: Seq<ShutdownEvent>) -> (
    ShutdownState,
    Seq<ShutdownAction>,
)
    decreases events.len(),
{
    if events.len() == 0 {
        (state, Seq::empty())
    } else {
        let (before, actions) = shutdown_run(state, grace, events.drop_last());
        let (after, action) = shutdown_step(before, grace, events.last());
        (after, actions.push(action))
    }
}

/// The shutdown controller of one server run.
#[derive(Debug, Clone, Copy, PartialEq, Eq)]
pub struct ShutdownController {
    state: ShutdownState,
    grace: u64,
}

impl ShutdownController {
    /// Where the controller stands.
    pub closed spec fn state(&self) -> ShutdownState {
        self.state
    }

    /// The grace period in milliseconds.
    pub closed spec fn grace(&self) -> u64 {
        self.grace
    }

    /// A controller that watches the input and will grant `grace`
    /// milliseconds.
    pub fn new(grace: u64) -> (controller: ShutdownController)
        ensures
            controller.state() == ShutdownState::Watching,
            controller.grace() == grace,
    {
        ShutdownController { state: ShutdownState::Watching, grace }
    }

    /// Where the controller stands.
    pub fn current(&self) -> (state: ShutdownState)
        ensures
            state == self.state(),
    {
        self.state
    }

    /// Takes one event and says what to do next.
    pub fn step(&mut self, event: ShutdownEvent) -> (action: ShutdownAction)
        ensures
            (final(self).state(), action) == shutdown_step(
                old(self).state(),
                old(self).grace(),
                event,
            ),
            final(self).grace() == old(self).grace(),
    {
        let (next, action) = match self.state {
            ShutdownState::Watching => match event {
                ShutdownEvent::Input(chunk) => if is_interrupt(&chunk) {
                    (ShutdownState::Signalled, ShutdownAction::Raise)
                } else {
                    (ShutdownState::Watching, ShutdownAction::Read)
                },
                ShutdownEvent::Probe(_) => (ShutdownState::Watching, ShutdownAction::Read),
            },
            ShutdownState::Signalled => match event {
                ShutdownEvent::Input(_) => (ShutdownState::Signalled, ShutdownAction::Rest),
                ShutdownEvent::Probe(finished) => if finished {
                    (ShutdownState::Done, ShutdownAction::Teardown { forced: false })
                } else {
                    (ShutdownState::Waiting, ShutdownAction::Wait(self.grace))
                },
            },
            ShutdownState::Waiting => match event {
                ShutdownEvent::Input(_) => (ShutdownState::Waiting, ShutdownAction::Rest),
                ShutdownEvent::Probe(finished) => (
                    ShutdownState::Done,
                    ShutdownAction::Teardown { forced: !finished },
                ),
            },
            ShutdownState::Done => (ShutdownState::Done, ShutdownAction::Rest),
        };
        self.state = next;
        action
    }
}

/// How far a shutdown has come.
pub open spec fn progress(state: ShutdownState) -> nat {
    match state {
        ShutdownState::Watching => 0,
        ShutdownState::Signalled => 1,
        ShutdownState::Waiting => 2,
        ShutdownState::Done => 3,
    }
}

/// What a run of shutdown steps has asked for, read off the state it is in:
/// every state is entered by the one action that leads to it, so the stop
/// signal was raised before anything else, the grace period was granted
/// before work is abandoned, and the run is done only once the terminal was
/// restored. The signal is raised at most once, and once it is raised the
/// input is not read again.
pub open spec fn shutdown_history(state: ShutdownState, grace: u64, actions: Seq<ShutdownAction>) -> bool {
    &&& progress(state) >= 1 <==> exists|k: int|
        0 <= k < actions.len() && #[trigger] actions[k] == ShutdownAction::Raise
    &&& state == ShutdownState::Waiting ==> exists|k: int|
        0 <= k < actions.len() && #[trigger] actions[k] == ShutdownAction::Wait(grace)
    &&& state == ShutdownState::Done <==> exists|k: int|
        0 <= k < actions.len() && (#[trigger] actions[k]) is Teardown
    &&& forall|k: int|
        0 <= k < actions.len() && #[trigger] actions[k] == (ShutdownAction::Teardown {
            forced: true,
        }) ==> exists|j: int| 0 <= j < k && #[trigger] actions[j] == ShutdownAction::Wait(grace)
    &&& forall|k: int|
        0 <= k < actions.len() && (#[trigger] actions[k]) is Wait ==> actions[k]
            == ShutdownAction::Wait(grace) && exists|j: int|
            0 <= j < k && #[trigger] actions[j] == ShutdownAction::Raise
    &&& forall|j: int, k: int|
        0 <= j < k < actions.len() && (#[trigger] actions[j]) is Teardown ==> (
        #[trigger] actions[k]) == ShutdownAction::Rest
    &&& forall|j: int, k: int|
        0 <= j < k < actions.len() && #[trigger] actions[j] == ShutdownAction::Raise
            ==> #[trigger] actions[k] != ShutdownAction::Raise && actions[k] != ShutdownAction::Read
}

/// Every run from `Watching` has the history that its state tells: the
/// signal is raised once and never taken back, work in flight is abandoned
/// only after the grace period was granted, the terminal is restored on every
/// path to the end, and after that nothing more is asked for.
pub proof fn lemma_shutdown_is_orderly(grace: u64, events: Seq<ShutdownEvent>)
    ensures
        shutdown_run(ShutdownState::Watching, grace, events).1.len() == events.len(),
        shutdown_history(
            shutdown_run(ShutdownState::Watching, grace, events).0,
            grace,
            shutdown_run(ShutdownState::Watching, grace, events).1,
        ),
    decreases events.len(),
{
    if events.len() > 0 {
        let shorter = events.drop_last();
        lemma_shutdown_is_orderly(grace, shorter);
        let (before, past) = shutdown_run(ShutdownState::Watching, grace, shorter);
        let action = shutdown_step(before, grace, events.last()).1;
        let actions = past.push(action);
        assert(actions[past.len() as int] == action);
        assert forall|k: int| 0 <= k < past.len() implies actions[k] == past[k] by {}
    }
}

/// The two state machines of a server run, as they stand at startup.
#[derive(Debug, Clone, Copy, PartialEq, Eq)]
pub struct Lifecycle {
    /// The accept loop.
    pub accept: AcceptState,
    /// The shutdown controller.
    pub shutdown: ShutdownController,
}

/// Starts the life cycle of a server run: the accept loop runs, and the
/// shutdown controller watches the input with the configured grace period.
pub fn start_listener(env: &Environment) -> (start: Lifecycle)
    ensures
        start.accept == AcceptState::Running,
        start.shutdown.state() == ShutdownState::Watching,
        start.shutdown.grace() == env@.timeout,
{
    Lifecycle { accept: AcceptState::Running, shutdown: ShutdownController::new(env.timeout) }
}

} // verus!
