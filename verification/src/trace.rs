//! Whole runs: what a sequence of engine events makes of a session, and what
//! holds of every such sequence.

use vstd::prelude::*;
use crate::event::{ActionView, EventView, Phase};
use crate::session::SessionView;

verus! {

/// The events `Output(texts[0])`, `Output(texts[1])`, ... in this order.
pub open spec fn outputs(texts: Seq<Seq<char>>) -> Seq<EventView> {
    Seq::new(texts.len(), |i: int| EventView::Output(texts[i]))
}

/// What a run writes to the console while it takes in `events`: the texts
/// of its outputs, in the order of their arrival, up to the first event
/// that ends the run.
pub open spec fn transcript(events: Seq<EventView>) -> Seq<char>
    decreases events.len(),
{
    if events.len() == 0 {
        Seq::empty()
    } else {
        match events.first() {
            EventView::Output(text) => text + transcript(events.drop_first()),
            EventView::NeedsInput => transcript(events.drop_first()),
            EventView::Error => Seq::empty(),
            EventView::Finished => Seq::empty(),
        }
    }
}

impl SessionView {
    /// The session after the worker reported `events`, one after the other.
    pub open spec fn after_events(self, events: Seq<EventView>) -> SessionView
        decreases events.len(),
    {
        if events.len() == 0 {
            self
        } else {
            self.after_event(events.first()).after_events(events.drop_first())
        }
    }
}

/// Reporting `first` and then `rest` is reporting the two in one sequence.
pub proof fn lemma_after_events_split(
    s: SessionView,
    first: Seq<EventView>,
    rest: Seq<EventView>,
)
    ensures
        s.after_events(first + rest) == s.after_events(first).after_events(rest),
    decreases first.len(),
{
    if first.len() == 0 {
        assert(first + rest =~= rest);
    } else {
        assert((first + rest).first() == first.first());
        assert((first + rest).drop_first() =~= first.drop_first() + rest);
        lemma_after_events_split(s.after_event(first.first()), first.drop_first(), rest);
    }
}

/// Outside a run, events change nothing: not the console, not the mailbox,
/// not the phase.
pub proof fn lemma_events_outside_a_run_change_nothing(s: SessionView, events: Seq<EventView>)
    requires
        !s.is_active(),
    ensures
        s.after_events(events) == s,
    decreases events.len(),
{
    if events.len() > 0 {
        lemma_events_outside_a_run_change_nothing(s, events.drop_first());
    }
}

/// An event that ends the run ends it for good: whatever the worker reports
/// afterwards, the console stays as that event left it, and so does the
/// rest of the session.
pub proof fn lemma_nothing_follows_the_end(
    s: SessionView,
    last: EventView,
    later: Seq<EventView>,
)
    requires
        s.is_active(),
        last.is_terminal(),
    ensures
        s.action_for(last) == ActionView::Stop,
        s.after_event(last).is_terminal(),
        s.after_event(last).console == s.console,
        s.after_event(last).after_events(later) == s.after_event(last),
        s.after_event(last).after_events(later).console == s.console,
        s.after_event(last).resumed() == s.after_event(last),
{
    lemma_events_outside_a_run_change_nothing(s.after_event(last), later);
}

/// During a run the console holds what it held at first, followed by the
/// transcript of the events reported since.
pub proof fn lemma_console_is_transcript(s: SessionView, events: Seq<EventView>)
    requires
        s.is_active(),
    ensures
        s.after_events(events).console == s.console + transcript(events),
    decreases events.len(),
{
    if events.len() == 0 {
        assert(s.console + Seq::<char>::empty() =~= s.console);
    } else {
        let next = s.after_event(events.first());
        let tail = events.drop_first();
        if events.first().is_terminal() {
            lemma_events_outside_a_run_change_nothing(next, tail);
            assert(s.console + Seq::<char>::empty() =~= s.console);
        } else {
            lemma_console_is_transcript(next, tail);
            match events.first() {
                EventView::Output(text) => {
                    assert((s.console + text) + transcript(tail) =~= s.console + (text
                        + transcript(tail)));
                },
                _ => {},
            }
        }
    }
}

/// The transcript of a sequence of outputs is their concatenation.
pub proof fn lemma_transcript_of_outputs(texts: Seq<Seq<char>>)
    ensures
        transcript(outputs(texts)) == texts.flatten(),
    decreases texts.len(),
{
    if texts.len() > 0 {
        assert(outputs(texts).first() == EventView::Output(texts.first()));
        assert(outputs(texts).drop_first() =~= outputs(texts.drop_first()));
        lemma_transcript_of_outputs(texts.drop_first());
    }
}

/// A run that is sent the outputs `texts[0]`, `texts[1]`, ... shows their
/// concatenation after what the console held before, and is otherwise
/// where it was. A run that was just started shows the concatenation alone.
pub proof fn lemma_outputs_concatenate(s: SessionView, texts: Seq<Seq<char>>)
    requires
        s.is_active(),
    ensures
        s.after_events(outputs(texts)).console == s.console + texts.flatten(),
        s.after_events(outputs(texts)).phase == s.phase,
        s.after_events(outputs(texts)).mailbox == s.mailbox,
        s.console.len() == 0 ==> s.after_events(outputs(texts)).console == texts.flatten(),
{
    lemma_console_is_transcript(s, outputs(texts));
    lemma_transcript_of_outputs(texts);
    lemma_outputs_keep_phase_and_mailbox(s, texts);
    if s.console.len() == 0 {
        assert(s.console + texts.flatten() =~= texts.flatten());
    }
}

/// Output changes neither the phase nor the mailbox.
pub proof fn lemma_outputs_keep_phase_and_mailbox(s: SessionView, texts: Seq<Seq<char>>)
    ensures
        s.after_events(outputs(texts)).phase == s.phase,
        s.after_events(outputs(texts)).mailbox == s.mailbox,
    decreases texts.len(),
{
    if texts.len() > 0 {
        assert(outputs(texts).first() == EventView::Output(texts.first()));
        assert(outputs(texts).drop_first() =~= outputs(texts.drop_first()));
        lemma_outputs_keep_phase_and_mailbox(
            s.after_event(EventView::Output(texts.first())),
            texts.drop_first(),
        );
    }
}

/// A run that is started where none is in flight, and is then sent the
/// outputs `texts[0]`, `texts[1]`, ..., shows exactly their concatenation.
pub proof fn lemma_started_run_shows_its_outputs(s: SessionView, texts: Seq<Seq<char>>)
    requires
        !s.is_active(),
    ensures
        s.started().console == Seq::<char>::empty(),
        s.started().phase == Phase::Running,
        s.started().after_events(outputs(texts)).console == texts.flatten(),
{
    lemma_outputs_concatenate(s.started(), texts);
}

/// Events never take anything away from the console: what it holds before
/// them is a prefix of what it holds after them.
pub proof fn lemma_console_only_grows(s: SessionView, events: Seq<EventView>)
    ensures
        s.console.is_prefix_of(s.after_events(events).console),
{
    if s.is_active() {
        lemma_console_is_transcript(s, events);
        assert((s.console + transcript(events)).subrange(0, s.console.len() as int)
            =~= s.console);
    } else {
        lemma_events_outside_a_run_change_nothing(s, events);
    }
}

/// Whenever the front end reads the console while events come in, it sees a
/// prefix of what the console holds once all of them have come in: after
/// the first `seen` events, the console is a prefix of the console after
/// all of them.
pub proof fn lemma_every_read_is_a_prefix(s: SessionView, events: Seq<EventView>, seen: int)
    requires
        0 <= seen <= events.len(),
    ensures
        s.console.is_prefix_of(s.after_events(events.take(seen)).console),
        s.after_events(events.take(seen)).console.is_prefix_of(s.after_events(events).console),
{
    lemma_console_only_grows(s, events.take(seen));
    lemma_after_events_split(s, events.take(seen), events.skip(seen));
    assert(events.take(seen) + events.skip(seen) =~= events);
    lemma_console_only_grows(s.after_events(events.take(seen)), events.skip(seen));
}

/// A run with an empty mailbox is asked for input, and then the line `line`
/// is submitted: the engine is handed `line` once, and then the mailbox is
/// empty.
///
/// In steps: the request itself delivers nothing and suspends the run; a
/// worker that looks before the submission finds nothing; after the
/// submission it collects exactly `line` and the run goes on; a second look
/// finds nothing, and a second request suspends the run again. The console
/// is the same throughout.
pub proof fn lemma_requested_line_is_delivered_once(s: SessionView, line: Seq<char>)
    requires
        s.is_active(),
        s.mailbox is None,
    ensures
        ({
            let asked = s.after_event(EventView::NeedsInput);
            let filled = asked.submitted(line);
            let resumed = filled.resumed();
            &&& s.action_for(EventView::NeedsInput) == ActionView::Wait
            &&& asked.phase == Phase::AwaitingInput
            &&& asked.collected() is None
            &&& asked.resumed() == asked
            &&& filled.collected() == Some(line)
            &&& resumed.phase == Phase::Running
            &&& resumed.mailbox is None
            &&& resumed.console == s.console
            &&& resumed.collected() is None
            &&& resumed.action_for(EventView::NeedsInput) == ActionView::Wait
        }),
{
}

/// A suspended run with an empty mailbox stays suspended: a worker that
/// looks for its line finds none, and the look changes nothing, however
/// often it is repeated. Only a submitted line lets the run go on.
pub proof fn lemma_suspended_until_a_line_arrives(s: SessionView)
    requires
        s.phase == Phase::AwaitingInput,
        s.mailbox is None,
    ensures
        s.collected() is None,
        s.resumed() == s,
        s.resumed().resumed() == s,
        forall|line: Seq<char>| #[trigger] s.submitted(line).collected() == Some(line),
{
}

/// A line that is submitted while no run waits for it stays in the mailbox
/// until a run asks for input; the request then delivers that line at once,
/// empties the mailbox and does not suspend the run.
pub proof fn lemma_buffered_line_answers_next_request(s: SessionView, line: Seq<char>)
    requires
        s.phase == Phase::Running,
    ensures
        ({
            let filled = s.submitted(line);
            let answered = filled.after_event(EventView::NeedsInput);
            &&& filled.collected() is None
            &&& filled.resumed() == filled
            &&& filled.action_for(EventView::NeedsInput) == ActionView::Deliver(line)
            &&& answered.phase == Phase::Running
            &&& answered.mailbox is None
            &&& answered.console == s.console
        }),
{
}

} // verus!
