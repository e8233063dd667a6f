//! What the execution engine reports, the phases a run goes through, and
//! what the worker that drives the engine is told to do next.

use vstd::prelude::*;

verus! {

/// One report of the execution engine about the program it is running.
#[derive(Debug, PartialEq, Eq)]
pub enum Event {
    /// The program wrote this text.
    Output(String),
    /// The program cannot go on before it is given a line of input.
    NeedsInput,
    /// The program failed.
    Error,
    /// The program ran to its end.
    Finished,
}

/// An [`Event`] as contracts see it.
pub enum EventView {
    Output(Seq<char>),
    NeedsInput,
    Error,
    Finished,
}

impl View for Event {
    type V = EventView;

    open spec fn view(&self) -> EventView {
        match self {
            Event::Output(text) => EventView::Output(text@),
            Event::NeedsInput => EventView::NeedsInput,
            Event::Error => EventView::Error,
            Event::Finished => EventView::Finished,
        }
    }
}

impl Clone for Event {
    fn clone(&self) -> (copy: Event)
        ensures
            copy@ == self@,
    {
        match self {
            Event::Output(text) => Event::Output(text.clone()),
            Event::NeedsInput => Event::NeedsInput,
            Event::Error => Event::Error,
            Event::Finished => Event::Finished,
        }
    }
}

impl EventView {
    /// `Error` and `Finished` end a run; nothing follows them.
    pub open spec fn is_terminal(self) -> bool {
        self is Error || self is Finished
    }
}

impl Event {
    /// Whether this event ends the run.
    pub fn is_terminal(&self) -> (b: bool)
        ensures
            b == self@.is_terminal(),
    {
        match self {
            Event::Error => true,
            Event::Finished => true,
            Event::Output(_) => false,
            Event::NeedsInput => false,
        }
    }
}

/// Where a session stands.
#[derive(Clone, Copy, Debug, PartialEq, Eq, Structural)]
pub enum Phase {
    /// No run has been started yet.
    Idle,
    /// A run is in flight and its worker is talking to the engine.
    Running,
    /// A run is in flight and its worker is suspended until a line arrives.
    AwaitingInput,
    /// The last run ended with `Finished`.
    Finished,
    /// The last run ended with `Error`.
    Errored,
}

impl Phase {
    /// A run is in flight.
    pub open spec fn spec_is_active(self) -> bool {
        self is Running || self is AwaitingInput
    }

    /// A run was started and has ended.
    pub open spec fn spec_is_terminal(self) -> bool {
        self is Finished || self is Errored
    }

    /// Whether a run is in flight.
    #[verifier::when_used_as_spec(spec_is_active)]
    pub fn is_active(self) -> (b: bool)
        ensures
            b == self.spec_is_active(),
    {
        match self {
            Phase::Running => true,
            Phase::AwaitingInput => true,
            Phase::Idle => false,
            Phase::Finished => false,
            Phase::Errored => false,
        }
    }

    /// Whether a run was started and has ended.
    #[verifier::when_used_as_spec(spec_is_terminal)]
    pub fn is_terminal(self) -> (b: bool)
        ensures
            b == self.spec_is_terminal(),
    {
        match self {
            Phase::Finished => true,
            Phase::Errored => true,
            Phase::Idle => false,
            Phase::Running => false,
            Phase::AwaitingInput => false,
        }
    }
}

/// What the worker does after it has reported an event.
#[derive(Debug, PartialEq, Eq)]
pub enum Action {
    /// Ask the engine for its next event.
    Poll,
    /// Suspend until a line has been submitted, then collect it.
    Wait,
    /// Hand this line to the engine, then ask for its next event.
    Deliver(String),
    /// The run is over: leave the loop.
    Stop,
}

/// An [`Action`] as contracts see it.
pub enum ActionView {
    Poll,
    Wait,
    Deliver(Seq<char>),
    Stop,
}

impl View for Action {
    type V = ActionView;

    open spec fn view(&self) -> ActionView {
        match self {
            Action::Poll => ActionView::Poll,
            Action::Wait => ActionView::Wait,
            Action::Deliver(line) => ActionView::Deliver(line@),
            Action::Stop => ActionView::Stop,
        }
    }
}

impl Clone for Action {
    fn clone(&self) -> (copy: Action)
        ensures
            copy@ == self@,
    {
        match self {
            Action::Poll => Action::Poll,
            Action::Wait => Action::Wait,
            Action::Deliver(line) => Action::Deliver(line.clone()),
            Action::Stop => Action::Stop,
        }
    }
}

impl ActionView {
    /// The line that this action hands to the engine, if it hands one over.
    pub open spec fn delivered(self) -> Option<Seq<char>> {
        match self {
            ActionView::Deliver(line) => Some(line),
            _ => None,
        }
    }
}

} // verus!
