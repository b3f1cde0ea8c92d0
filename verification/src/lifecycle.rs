//! The course of a service instance, from its launch on a thread of its own
//! to its accept loop.
//!
//! The program around this crate does the work that has an outcome (it builds
//! the scheduler, binds the socket) and reports each outcome as an [`Event`].
//! The instance answers with the [`Action`] to take next. Nothing that
//! happens to an instance is reported to the caller of the entry point, who
//! has long returned.

use crate::address::{fixed_listen_address, listen_address, SocketAddress};
use crate::handler::{greeting, reply};
use crate::message::RequestView;
use vstd::prelude::*;

verus! {

/// Where a service instance stands.
#[derive(Clone, Copy, Debug, PartialEq, Eq, Structural)]
pub enum Phase {
    /// The thread runs; it has no scheduler yet.
    Launched,
    /// The scheduler stands; the address is not bound yet.
    Binding,
    /// The address is bound and connections are accepted.
    Listening,
    /// The address could not be bound. The thread ends; the process goes on.
    Stopped,
    /// The scheduler could not be built. The thread is given up.
    Aborted,
}

/// An outcome that the surrounding program reports.
#[derive(Clone, Debug, PartialEq, Eq)]
pub enum Event {
    /// The scheduler was built.
    ContextBuilt,
    /// The scheduler could not be built.
    ContextFailed,
    /// The address was bound.
    Bound,
    /// The address could not be bound, with the transport's words for it.
    BindFailed(String),
}

/// What an [`Event`] stands for.
pub ghost enum EventView {
    ContextBuilt,
    ContextFailed,
    Bound,
    BindFailed(Seq<char>),
}

impl View for Event {
    type V = EventView;

    open spec fn view(&self) -> EventView {
        match self {
            Event::ContextBuilt => EventView::ContextBuilt,
            Event::ContextFailed => EventView::ContextFailed,
            Event::Bound => EventView::Bound,
            Event::BindFailed(reason) => EventView::BindFailed(reason@),
        }
    }
}

/// What the surrounding program is to do next.
#[derive(Clone, Debug, PartialEq, Eq)]
pub enum Action {
    /// Bind this address.
    Bind(SocketAddress),
    /// Accept connections and answer their requests, without end.
    Serve,
    /// Write this line to the diagnostic channel and let the thread end.
    Report(String),
    /// Give the thread up.
    Abort,
    /// Nothing: the event changes nothing.
    Nothing,
}

/// What an [`Action`] stands for.
pub ghost enum ActionView {
    Bind(SocketAddress),
    Serve,
    Report(Seq<char>),
    Abort,
    Nothing,
}

impl View for Action {
    type V = ActionView;

    open spec fn view(&self) -> ActionView {
        match self {
            Action::Bind(address) => ActionView::Bind(*address),
            Action::Serve => ActionView::Serve,
            Action::Report(line) => ActionView::Report(line@),
            Action::Abort => ActionView::Abort,
            Action::Nothing => ActionView::Nothing,
        }
    }
}

/// The line that reports a failed bind.
pub open spec fn diagnostic(reason: Seq<char>) -> Seq<char> {
    "server error: "@ + reason
}

/// The phase that follows `phase` on `event`, and the action that goes with
/// the move. An event that does not belong to the phase moves nothing.
pub open spec fn step(phase: Phase, event: EventView) -> (Phase, ActionView) {
    match (phase, event) {
        (Phase::Launched, EventView::ContextBuilt) => (
            Phase::Binding,
            ActionView::Bind(fixed_listen_address()),
        ),
        (Phase::Launched, EventView::ContextFailed) => (Phase::Aborted, ActionView::Abort),
        (Phase::Binding, EventView::Bound) => (Phase::Listening, ActionView::Serve),
        (Phase::Binding, EventView::BindFailed(reason)) => (
            Phase::Stopped,
            ActionView::Report(diagnostic(reason)),
        ),
        _ => (phase, ActionView::Nothing),
    }
}

/// The phase reached from `phase` by a run of events, taken in order.
pub open spec fn run(phase: Phase, events: Seq<EventView>) -> Phase
    decreases events.len(),
{
    if events.len() == 0 {
        phase
    } else {
        run(step(phase, events.first()).0, events.drop_first())
    }
}

/// Writes the line that reports a failed bind.
pub fn format_diagnostic(reason: &str) -> (line: String)
    ensures
        line@ == diagnostic(reason@),
{
    let mut line = "server error: ".to_owned();
    line.append(reason);
    line
}

/// One running service. Each call of the entry point makes one; two
/// instances share nothing.
#[derive(Debug)]
pub struct ServiceInstance {
    phase: Phase,
}

impl View for ServiceInstance {
    type V = Phase;

    closed spec fn view(&self) -> Phase {
        self.phase
    }
}

impl ServiceInstance {
    /// A new instance, as it stands when its thread starts.
    pub fn new() -> (instance: ServiceInstance)
        ensures
            instance@ == Phase::Launched,
    {
        ServiceInstance { phase: Phase::Launched }
    }

    /// Where the instance stands.
    pub fn phase(&self) -> (phase: Phase)
        ensures
            phase == self@,
    {
        self.phase
    }

    /// Takes an event, moves the instance and says what to do next.
    pub fn advance(&mut self, event: Event) -> (action: Action)
        ensures
            final(self)@ == step(old(self)@, event@).0,
            action@ == step(old(self)@, event@).1,
    {
        match self.phase {
            Phase::Launched => match event {
                Event::ContextBuilt => {
                    self.phase = Phase::Binding;
                    Action::Bind(listen_address())
                },
                Event::ContextFailed => {
                    self.phase = Phase::Aborted;
                    Action::Abort
                },
                _ => Action::Nothing,
            },
            Phase::Binding => match event {
                Event::Bound => {
                    self.phase = Phase::Listening;
                    Action::Serve
                },
                Event::BindFailed(reason) => {
                    self.phase = Phase::Stopped;
                    Action::Report(format_diagnostic(reason.as_str()))
                },
                _ => Action::Nothing,
            },
            _ => Action::Nothing,
        }
    }
}

/// An instance stays in a phase that no event moves: `Listening`, `Stopped`
/// and `Aborted`.
pub open spec fn settled(phase: Phase) -> bool {
    phase == Phase::Listening || phase == Phase::Stopped || phase == Phase::Aborted
}

/// Once an instance listens, it listens for good: no event ends the accept
/// loop, and none asks for an action. The same holds of an instance that
/// has stopped or was given up: it is not started again.
pub proof fn lemma_settled_phase_is_kept(phase: Phase, events: Seq<EventView>)
    requires
        settled(phase),
    ensures
        run(phase, events) == phase,
        forall|event: EventView| #[trigger] step(phase, event) == (phase, ActionView::Nothing),
    decreases events.len(),
{
    if events.len() > 0 {
        lemma_settled_phase_is_kept(phase, events.drop_first());
    }
}

/// A failed bind is the one thing that stops an instance, and the one thing
/// that is reported. A scheduler that cannot be built is the one thing that
/// has a thread given up.
pub proof fn lemma_endings(phase: Phase, event: EventView)
    ensures
        step(phase, event).1 is Report <==> phase == Phase::Binding && event is BindFailed,
        step(phase, event).1 is Abort <==> phase == Phase::Launched && event is ContextFailed,
        phase != Phase::Stopped && step(phase, event).0 == Phase::Stopped
            ==> step(phase, event).1 is Report,
        phase != Phase::Aborted && step(phase, event).0 == Phase::Aborted
            ==> step(phase, event).1 is Abort,
{
}

/// Nothing that is reported to a listening instance ends it, and nothing
/// changes what a request is answered: after any run of events the instance
/// listens, and the next request is owed the greeting.
pub proof fn lemma_listener_outlives_events(events: Seq<EventView>, request: RequestView)
    ensures
        run(Phase::Listening, events) == Phase::Listening,
        reply(request) == greeting(),
{
    lemma_settled_phase_is_kept(Phase::Listening, events);
}

/// A second instance that is launched while a first one listens finds the
/// address taken. It stops with a report and asks for nothing else; it does
/// not give its thread up. The first instance is no part of that move: it
/// goes on listening whatever is reported to it afterwards, and its requests
/// are owed the greeting as before.
pub proof fn lemma_second_launch_spares_first(
    reason: Seq<char>,
    later: Seq<EventView>,
    request: RequestView,
)
    ensures
        run(Phase::Launched, seq![EventView::ContextBuilt, EventView::BindFailed(reason)])
            == Phase::Stopped,
        step(Phase::Binding, EventView::BindFailed(reason)).1 == ActionView::Report(
            diagnostic(reason),
        ),
        run(Phase::Listening, later) == Phase::Listening,
        reply(request) == greeting(),
{
    reveal_with_fuel(run, 3);
    lemma_settled_phase_is_kept(Phase::Listening, later);
}

} // verus!
