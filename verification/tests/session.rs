use paladin::event::{Action, Event, Phase};
use paladin::session::Session;

fn running() -> Session {
    let mut session = Session::new();
    assert!(session.start());
    session
}

#[test]
fn new_session_is_idle_and_empty() {
    let session = Session::new();
    assert_eq!(session.phase(), Phase::Idle);
    assert!(!session.is_active());
    assert_eq!(session.console().as_str(), "");
    assert!(session.mailbox().is_empty());
    assert_eq!(session.mailbox().peek(), None);
}

#[test]
fn start_begins_a_run_on_an_empty_console() {
    let mut session = Session::new();
    assert!(session.start());
    assert_eq!(session.phase(), Phase::Running);
    assert!(session.is_active());
    assert_eq!(session.console().as_str(), "");
}

#[test]
fn start_is_dropped_while_a_run_is_in_flight() {
    let mut session = running();
    assert_eq!(session.handle_event(Event::Output("kept".to_string())), Action::Poll);
    assert!(!session.start());
    assert_eq!(session.phase(), Phase::Running);
    assert_eq!(session.console().as_str(), "kept");
}

#[test]
fn start_is_dropped_while_a_run_waits_for_input() {
    let mut session = running();
    session.handle_event(Event::Output("? ".to_string()));
    assert_eq!(session.handle_event(Event::NeedsInput), Action::Wait);
    assert!(!session.start());
    assert_eq!(session.phase(), Phase::AwaitingInput);
    assert_eq!(session.console().as_str(), "? ");
}

#[test]
fn start_after_a_finished_run_clears_the_console() {
    let mut session = running();
    session.handle_event(Event::Output("old".to_string()));
    session.handle_event(Event::Finished);
    assert_eq!(session.console().as_str(), "old");
    assert!(session.start());
    assert_eq!(session.phase(), Phase::Running);
    assert_eq!(session.console().as_str(), "");
}

#[test]
fn start_after_a_failed_run_clears_the_console() {
    let mut session = running();
    session.handle_event(Event::Output("old".to_string()));
    session.handle_event(Event::Error);
    assert!(session.start());
    assert_eq!(session.phase(), Phase::Running);
    assert_eq!(session.console().as_str(), "");
}

#[test]
fn start_keeps_a_buffered_line() {
    let mut session = Session::new();
    assert!(!session.submit_input("early".to_string()));
    assert!(session.start());
    assert_eq!(session.mailbox().peek(), Some("early"));
    assert_eq!(
        session.handle_event(Event::NeedsInput),
        Action::Deliver("early".to_string())
    );
    assert!(session.mailbox().is_empty());
}

#[test]
fn outputs_are_concatenated_in_order() {
    let mut session = running();
    let texts = ["a", "", "bc", "\n", "d e", "\u{e9}"];
    let mut expected = String::new();
    for text in texts.iter() {
        let before = session.console().as_str().to_string();
        assert_eq!(session.handle_event(Event::Output(text.to_string())), Action::Poll);
        expected.push_str(text);
        assert_eq!(session.console().as_str(), expected);
        assert!(session.console().as_str().starts_with(&before));
        assert_eq!(session.phase(), Phase::Running);
    }
    assert_eq!(session.console().as_str(), "abc\nd e\u{e9}");
}

#[test]
fn hello_program_prints_and_finishes() {
    let mut session = running();
    assert_eq!(session.handle_event(Event::Output("hi".to_string())), Action::Poll);
    assert_eq!(session.handle_event(Event::Finished), Action::Stop);
    assert_eq!(session.console().as_str(), "hi");
    assert_eq!(session.phase(), Phase::Finished);
    assert!(!session.is_active());
}

#[test]
fn finished_ends_the_run_for_good() {
    let mut session = running();
    session.handle_event(Event::Output("x".to_string()));
    assert_eq!(session.handle_event(Event::Finished), Action::Stop);
    assert_eq!(session.handle_event(Event::Output("y".to_string())), Action::Stop);
    assert_eq!(session.handle_event(Event::NeedsInput), Action::Stop);
    assert_eq!(session.handle_event(Event::Error), Action::Stop);
    assert_eq!(session.handle_event(Event::Finished), Action::Stop);
    assert_eq!(session.console().as_str(), "x");
    assert_eq!(session.phase(), Phase::Finished);
}

#[test]
fn error_ends_the_run_for_good() {
    let mut session = running();
    session.handle_event(Event::Output("x".to_string()));
    assert_eq!(session.handle_event(Event::Error), Action::Stop);
    assert_eq!(session.phase(), Phase::Errored);
    assert_eq!(session.handle_event(Event::Output("y".to_string())), Action::Stop);
    assert_eq!(session.handle_event(Event::Finished), Action::Stop);
    assert_eq!(session.console().as_str(), "x");
    assert_eq!(session.phase(), Phase::Errored);
    assert_eq!(session.take_input(), None);
}

#[test]
fn events_before_any_run_are_ignored() {
    let mut session = Session::new();
    assert_eq!(session.handle_event(Event::Output("x".to_string())), Action::Stop);
    assert_eq!(session.handle_event(Event::NeedsInput), Action::Stop);
    assert_eq!(session.handle_event(Event::Finished), Action::Stop);
    assert_eq!(session.phase(), Phase::Idle);
    assert_eq!(session.console().as_str(), "");
}

#[test]
fn requested_line_is_delivered_exactly_once() {
    let mut session = running();
    assert_eq!(session.handle_event(Event::NeedsInput), Action::Wait);
    assert_eq!(session.phase(), Phase::AwaitingInput);
    assert_eq!(session.take_input(), None);
    assert!(session.submit_input("x".to_string()));
    assert_eq!(session.take_input(), Some("x".to_string()));
    assert!(session.mailbox().is_empty());
    assert_eq!(session.phase(), Phase::Running);
    assert_eq!(session.take_input(), None);
    assert_eq!(session.handle_event(Event::NeedsInput), Action::Wait);
}

#[test]
fn run_without_input_stays_suspended() {
    let mut session = running();
    assert_eq!(session.handle_event(Event::NeedsInput), Action::Wait);
    for _ in 0..100 {
        assert_eq!(session.take_input(), None);
        assert_eq!(session.phase(), Phase::AwaitingInput);
        assert!(session.mailbox().is_empty());
    }
    assert!(session.is_active());
}

#[test]
fn only_the_last_submitted_line_is_kept() {
    let mut session = running();
    session.handle_event(Event::NeedsInput);
    assert!(session.submit_input("first".to_string()));
    assert!(session.submit_input("second".to_string()));
    assert_eq!(session.mailbox().peek(), Some("second"));
    assert_eq!(session.take_input(), Some("second".to_string()));
    assert_eq!(session.take_input(), None);
}

#[test]
fn empty_line_is_a_line() {
    let mut session = running();
    session.handle_event(Event::NeedsInput);
    assert!(session.submit_input(String::new()));
    assert!(!session.mailbox().is_empty());
    assert_eq!(session.take_input(), Some(String::new()));
    assert_eq!(session.phase(), Phase::Running);
}

#[test]
fn line_submitted_early_waits_for_the_request() {
    let mut session = running();
    assert!(!session.submit_input("early".to_string()));
    assert_eq!(session.take_input(), None);
    assert_eq!(session.mailbox().peek(), Some("early"));
    assert_eq!(session.handle_event(Event::Output("? ".to_string())), Action::Poll);
    assert_eq!(
        session.handle_event(Event::NeedsInput),
        Action::Deliver("early".to_string())
    );
    assert_eq!(session.phase(), Phase::Running);
    assert!(session.mailbox().is_empty());
    assert_eq!(session.console().as_str(), "? ");
}

#[test]
fn output_during_a_wait_is_shown_and_the_wait_goes_on() {
    let mut session = running();
    session.handle_event(Event::NeedsInput);
    assert_eq!(session.handle_event(Event::Output("late".to_string())), Action::Wait);
    assert_eq!(session.phase(), Phase::AwaitingInput);
    assert_eq!(session.console().as_str(), "late");
}

#[test]
fn end_during_a_wait_ends_the_run() {
    let mut session = running();
    session.handle_event(Event::NeedsInput);
    assert_eq!(session.handle_event(Event::Finished), Action::Stop);
    assert_eq!(session.phase(), Phase::Finished);
    assert!(!session.submit_input("unused".to_string()));
    assert_eq!(session.take_input(), None);
    assert_eq!(session.mailbox().peek(), Some("unused"));
}

#[test]
fn submit_does_not_touch_console_or_phase() {
    let mut session = running();
    session.handle_event(Event::Output("out".to_string()));
    session.submit_input("in".to_string());
    assert_eq!(session.console().as_str(), "out");
    assert_eq!(session.phase(), Phase::Running);
}

#[test]
fn interactive_run_from_start_to_end() {
    let mut session = running();
    assert_eq!(session.handle_event(Event::Output("name? ".to_string())), Action::Poll);
    assert_eq!(session.handle_event(Event::NeedsInput), Action::Wait);
    assert!(session.submit_input("Ada".to_string()));
    assert_eq!(session.take_input(), Some("Ada".to_string()));
    assert_eq!(session.handle_event(Event::Output("hello Ada".to_string())), Action::Poll);
    assert_eq!(session.handle_event(Event::Finished), Action::Stop);
    assert_eq!(session.console().as_str(), "name? hello Ada");
    assert_eq!(session.phase(), Phase::Finished);
}
