//! The session: the console, the mailbox and the phase of the run, and the
//! rules by which clicks, submitted lines and engine events change them.
//!
//! Two parties work on one session. The front end starts runs, submits
//! lines and reads the console. The worker of a run reports each event of
//! the engine and does what it is told: poll again, deliver a line, wait for
//! one, or stop.

use vstd::prelude::*;
use crate::console::Console;
use crate::event::{Action, ActionView, Event, EventView, Phase};
use crate::mailbox::Mailbox;

verus! {

/// A session as contracts see it.
pub struct SessionView {
    pub phase: Phase,
    pub console: Seq<char>,
    pub mailbox: Option<Seq<char>>,
}

impl SessionView {
    /// Before the first run: nothing shown, nothing submitted.
    pub open spec fn fresh() -> SessionView {
        SessionView { phase: Phase::Idle, console: Seq::empty(), mailbox: None }
    }

    /// A run is in flight.
    pub open spec fn is_active(self) -> bool {
        self.phase.spec_is_active()
    }

    /// A run was started and has ended.
    pub open spec fn is_terminal(self) -> bool {
        self.phase.spec_is_terminal()
    }

    /// The session after a request to start a run. While a run is in flight
    /// the request changes nothing; otherwise a run begins on an empty
    /// console. A line that lies in the mailbox stays there.
    pub open spec fn started(self) -> SessionView {
        if self.is_active() {
            self
        } else {
            SessionView { phase: Phase::Running, console: Seq::empty(), mailbox: self.mailbox }
        }
    }

    /// The session after `line` was submitted: it lies in the mailbox,
    /// whatever lay there before.
    pub open spec fn submitted(self, line: Seq<char>) -> SessionView {
        SessionView { mailbox: Some(line), ..self }
    }

    /// The session after the worker reported `event`.
    ///
    /// Outside a run an event changes nothing. In a run, output is added
    /// to the console; a request for input consumes the line in the mailbox
    /// or, if there is none, suspends the run; `Error` and `Finished` end it.
    pub open spec fn after_event(self, event: EventView) -> SessionView {
        if !self.is_active() {
            self
        } else {
            match event {
                EventView::Output(text) => SessionView { console: self.console + text, ..self },
                EventView::NeedsInput => match self.mailbox {
                    Some(_) => SessionView { phase: Phase::Running, mailbox: None, ..self },
                    None => SessionView { phase: Phase::AwaitingInput, ..self },
                },
                EventView::Error => SessionView { phase: Phase::Errored, ..self },
                EventView::Finished => SessionView { phase: Phase::Finished, ..self },
            }
        }
    }

    /// What the worker is told when it reports `event`.
    pub open spec fn action_for(self, event: EventView) -> ActionView {
        if !self.is_active() {
            ActionView::Stop
        } else {
            match event {
                EventView::Output(_) => if self.phase is AwaitingInput {
                    ActionView::Wait
                } else {
                    ActionView::Poll
                },
                EventView::NeedsInput => match self.mailbox {
                    Some(line) => ActionView::Deliver(line),
                    None => ActionView::Wait,
                },
                EventView::Error => ActionView::Stop,
                EventView::Finished => ActionView::Stop,
            }
        }
    }

    /// The run is suspended and the line it waits for has arrived.
    pub open spec fn input_ready(self) -> bool {
        self.phase is AwaitingInput && self.mailbox is Some
    }

    /// The line that a suspended worker collects: the one in the mailbox if
    /// the run waits for it, none otherwise.
    pub open spec fn collected(self) -> Option<Seq<char>> {
        if self.input_ready() {
            self.mailbox
        } else {
            None
        }
    }

    /// The session after a suspended worker tried to collect its line.
    pub open spec fn resumed(self) -> SessionView {
        if self.input_ready() {
            SessionView { phase: Phase::Running, mailbox: None, ..self }
        } else {
            self
        }
    }
}

/// The state that the front end and the worker of a run share.
#[derive(Debug)]
pub struct Session {
    phase: Phase,
    console: Console,
    mailbox: Mailbox,
}

impl View for Session {
    type V = SessionView;

    closed spec fn view(&self) -> SessionView {
        SessionView { phase: self.phase, console: self.console@, mailbox: self.mailbox@ }
    }
}

impl Session {
    /// A session in which no run has been started.
    pub fn new() -> (session: Session)
        ensures
            session@ == SessionView::fresh(),
    {
        Session { phase: Phase::Idle, console: Console::new(), mailbox: Mailbox::new() }
    }

    /// Where the session stands.
    pub fn phase(&self) -> (phase: Phase)
        ensures
            phase == self@.phase,
    {
        self.phase
    }

    /// Whether a run is in flight.
    pub fn is_active(&self) -> (b: bool)
        ensures
            b == self@.is_active(),
    {
        self.phase.is_active()
    }

    /// The console, for the pane that shows it. Reading changes nothing.
    pub fn console(&self) -> (console: &Console)
        ensures
            console@ == self@.console,
    {
        &self.console
    }

    /// The mailbox. Reading changes nothing.
    pub fn mailbox(&self) -> (mailbox: &Mailbox)
        ensures
            mailbox@ == self@.mailbox,
    {
        &self.mailbox
    }

    /// Starts a run unless one is in flight, and says whether it did.
    ///
    /// A started run finds the console empty. A request made while a run is
    /// in flight is dropped: the session stays as it is.
    pub fn start(&mut self) -> (started: bool)
        ensures
            started == !old(self)@.is_active(),
            final(self)@ == old(self)@.started(),
    {
        if self.phase.is_active() {
            false
        } else {
            self.console.clear();
            self.phase = Phase::Running;
            true
        }
    }

    /// Puts a submitted line into the mailbox and says whether a suspended
    /// run is waiting for it, so that the caller can wake the worker.
    ///
    /// If no run waits, the line stays in the mailbox until a run asks for
    /// input. Only the line submitted last is kept.
    pub fn submit_input(&mut self, line: String) -> (wake: bool)
        ensures
            final(self)@ == old(self)@.submitted(line@),
            wake == (old(self)@.phase is AwaitingInput),
    {
        self.mailbox.put(line);
        match self.phase {
            Phase::AwaitingInput => true,
            _ => false,
        }
    }

    /// Takes in one event of the engine and tells the worker how to go on.
    pub fn handle_event(&mut self, event: Event) -> (action: Action)
        ensures
            final(self)@ == old(self)@.after_event(event@),
            action@ == old(self)@.action_for(event@),
            old(self)@.console.is_prefix_of(final(self)@.console),
            !old(self)@.is_active() ==> final(self)@ == old(self)@,
    {
        if !self.phase.is_active() {
            return Action::Stop;
        }
        match event {
            Event::Output(text) => {
                self.console.append(text.as_str());
                match self.phase {
                    Phase::AwaitingInput => Action::Wait,
                    _ => Action::Poll,
                }
            },
            Event::NeedsInput => {
                match self.mailbox.take() {
                    Some(line) => {
                        self.phase = Phase::Running;
                        Action::Deliver(line)
                    },
                    None => {
                        self.phase = Phase::AwaitingInput;
                        Action::Wait
                    },
                }
            },
            Event::Error => {
                self.phase = Phase::Errored;
                Action::Stop
            },
            Event::Finished => {
                self.phase = Phase::Finished;
                Action::Stop
            },
        }
    }

    /// Collects the line that a suspended run waits for.
    ///
    /// If the run is suspended and a line lies in the mailbox, the line is
    /// returned, the mailbox is left empty and the run goes on. In every
    /// other case nothing is returned and nothing changes: the worker waits
    /// on.
    pub fn take_input(&mut self) -> (line: Option<String>)
        ensures
            final(self)@ == old(self)@.resumed(),
            line.deep_view() == old(self)@.collected(),
    {
        match self.phase {
            Phase::AwaitingInput => {
                let line = self.mailbox.take();
                if line.is_some() {
                    self.phase = Phase::Running;
                }
                line
            },
            _ => None,
        }
    }
}

} // verus!
