//! The input mailbox: one slot through which a submitted line reaches the run.

use vstd::prelude::*;

verus! {

/// A single slot for a line of input. It is no queue: a line submitted while
/// another still lies in the slot takes its place.
#[derive(Debug)]
pub struct Mailbox {
    slot: Option<String>,
}

impl View for Mailbox {
    type V = Option<Seq<char>>;

    closed spec fn view(&self) -> Option<Seq<char>> {
        self.slot.deep_view()
    }
}

impl Mailbox {
    /// An empty mailbox.
    pub fn new() -> (mailbox: Mailbox)
        ensures
            mailbox@ is None,
    {
        Mailbox { slot: None }
    }

    /// Whether no line lies in the slot.
    pub fn is_empty(&self) -> (b: bool)
        ensures
            b == (self@ is None),
    {
        self.slot.is_none()
    }

    /// Puts `line` into the slot, in place of whatever lay there.
    pub fn put(&mut self, line: String)
        ensures
            final(self)@ == Some(line@),
    {
        self.slot = Some(line);
    }

    /// Takes the line out of the slot and leaves the slot empty.
    pub fn take(&mut self) -> (line: Option<String>)
        ensures
            final(self)@ is None,
            line.deep_view() == old(self)@,
    {
        self.slot.take()
    }

    /// The line in the slot, if there is one. Reading changes nothing.
    pub fn peek(&self) -> (line: Option<&str>)
        ensures
            line.deep_view() == self@,
    {
        match &self.slot {
            Some(line) => Some(line.as_str()),
            None => None,
        }
    }
}

} // verus!
