//! The front end's own state and its reactions to the user: editing the
//! source, clicking "Run", typing into the input box and pressing Enter.

use vstd::prelude::*;
use crate::session::Session;

verus! {

/// The shell as contracts see it.
pub struct ShellView {
    /// The program text in the editor pane.
    pub source: Seq<char>,
    /// What the input box shows.
    pub input_box: Seq<char>,
}

/// The text panes that only the front end touches.
#[derive(Debug)]
pub struct Shell {
    source: String,
    input_box: String,
}

impl View for Shell {
    type V = ShellView;

    closed spec fn view(&self) -> ShellView {
        ShellView { source: self.source@, input_box: self.input_box@ }
    }
}

impl Shell {
    /// A shell with an empty editor and an empty input box.
    pub fn new() -> (shell: Shell)
        ensures
            shell@ == (ShellView { source: Seq::empty(), input_box: Seq::empty() }),
    {
        Shell { source: String::new(), input_box: String::new() }
    }

    /// The program text, for the editor pane.
    pub fn source(&self) -> (text: &str)
        ensures
            text@ == self@.source,
    {
        self.source.as_str()
    }

    /// The content of the input box, for the pane that shows it.
    pub fn input_box(&self) -> (text: &str)
        ensures
            text@ == self@.input_box,
    {
        self.input_box.as_str()
    }

    /// The editor reported a new program text: it replaces the old one,
    /// unexamined.
    pub fn on_edit(&mut self, new_text: String)
        ensures
            final(self)@ == (ShellView { source: new_text@, ..old(self)@ }),
    {
        self.source = new_text;
    }

    /// The input box reported a new content: it replaces the old one.
    pub fn on_input_edit(&mut self, new_text: String)
        ensures
            final(self)@ == (ShellView { input_box: new_text@, ..old(self)@ }),
    {
        self.input_box = new_text;
    }

    /// "Run" was clicked.
    ///
    /// If no run is in flight, one is started on an empty console, and the
    /// result is a copy of the program text as it stands now, for the worker
    /// to execute. While a run is in flight the click is dropped: nothing
    /// changes and there is nothing to execute.
    pub fn on_run_clicked(&self, session: &mut Session) -> (program: Option<String>)
        ensures
            final(session)@ == old(session)@.started(),
            program.deep_view() == if old(session)@.is_active() {
                None
            } else {
                Some(self@.source)
            },
            !old(session)@.is_active() ==> final(session)@.console == Seq::<char>::empty(),
    {
        if session.start() {
            Some(self.source.clone())
        } else {
            None
        }
    }

    /// Enter was pressed in the input box.
    ///
    /// The content of the box goes to the mailbox and the box is emptied.
    /// The result says whether a suspended run is waiting for the line, so
    /// that the caller can wake its worker.
    pub fn on_input_submit(&mut self, session: &mut Session) -> (wake: bool)
        ensures
            final(session)@ == old(session)@.submitted(old(self)@.input_box),
            final(self)@ == (ShellView { input_box: Seq::empty(), ..old(self)@ }),
            wake == (old(session)@.phase is AwaitingInput),
    {
        let mut line = String::new();
        core::mem::swap(&mut line, &mut self.input_box);
        session.submit_input(line)
    }
}

} // verus!
