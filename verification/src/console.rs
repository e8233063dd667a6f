//! The console buffer: everything the current run has written so far.

use vstd::prelude::*;
use vstd::string::*;

verus! {

/// The text that the console pane shows. During a run it only grows.
#[derive(Debug)]
pub struct Console {
    text: String,
}

impl View for Console {
    type V = Seq<char>;

    closed spec fn view(&self) -> Seq<char> {
        self.text@
    }
}

impl Console {
    /// An empty console.
    pub fn new() -> (console: Console)
        ensures
            console@ == Seq::<char>::empty(),
    {
        Console { text: String::new() }
    }

    /// Drops everything shown so far.
    pub fn clear(&mut self)
        ensures
            final(self)@ == Seq::<char>::empty(),
    {
        self.text = String::new();
    }

    /// Adds `text` after what is already shown.
    pub fn append(&mut self, text: &str)
        ensures
            final(self)@ == old(self)@ + text@,
            old(self)@.is_prefix_of(final(self)@),
    {
        self.text.append(text);
    }

    /// The text to show. Reading changes nothing.
    pub fn as_str(&self) -> (text: &str)
        ensures
            text@ == self@,
    {
        self.text.as_str()
    }
}

} // verus!
