use electron_repl::failure::Failure;
use electron_repl::format::{render, OutputKind};
use electron_repl::line::same_text;
use electron_repl::repl::{prompt, ReplAction, ReplEvent, ReplLoop, ReplState};
use electron_repl::session::{ChannelState, ReadOutcome, Session, WriteOutcome};

fn fresh() -> ReplLoop {
    ReplLoop::new(Session::opened())
}

fn evaluate(repl: &mut ReplLoop, line: &str, reply: &str) -> ReplAction {
    match repl.step(ReplEvent::Line(line.to_string())) {
        ReplAction::Send { .. } => {},
        other => panic!("expected a request, got {:?}", other),
    }
    assert!(matches!(repl.step(ReplEvent::Written(WriteOutcome::Sent)), ReplAction::Receive));
    repl.step(ReplEvent::Received(ReadOutcome::Text(reply.to_string())))
}

#[test]
fn expression_is_sent_and_its_value_printed() {
    let mut repl = fresh();
    match repl.step(ReplEvent::Line("2+3".to_string())) {
        ReplAction::Send { entry, frame } => {
            assert_eq!(entry, "2+3");
            assert_eq!(
                frame,
                "{\"id\":1,\"method\":\"Runtime.evaluate\",\"params\":{\"expression\":\"2+3\",\"contextId\":1,\"returnByValue\":true,\"generatePreview\":true}}"
            );
        },
        other => panic!("expected a request, got {:?}", other),
    }
    assert_eq!(repl.state(), ReplState::Evaluating);
    assert!(matches!(repl.step(ReplEvent::Written(WriteOutcome::Sent)), ReplAction::Receive));
    assert_eq!(repl.state(), ReplState::Evaluating);
    let payload = "{\"result\":{\"value\":5}}";
    let reply = format!("{{\"id\":1,\"result\":{}}}", payload);
    match repl.step(ReplEvent::Received(ReadOutcome::Text(reply))) {
        ReplAction::Print(output) => {
            assert_eq!(output.kind, OutputKind::Value);
            assert_eq!(output.text, "5");
            assert!(render(&output).contains("5"));
        },
        other => panic!("expected a value, got {:?}", other),
    }
    assert_eq!(repl.state(), ReplState::Displaying);
    assert!(matches!(repl.step(ReplEvent::Displayed), ReplAction::ReadLine));
    assert_eq!(repl.state(), ReplState::AwaitingInput);
}

#[test]
fn thrown_exception_is_printed_as_error_and_loop_goes_on() {
    let mut repl = fresh();
    let payload =
        "{\"exceptionDetails\":{\"exception\":{\"description\":\"ReferenceError: x is not defined\"}}}";
    let reply = format!("{{\"id\":1,\"result\":{}}}", payload);
    match evaluate(&mut repl, "x", &reply) {
        ReplAction::Print(output) => {
            assert_eq!(output.kind, OutputKind::Error);
            assert_eq!(output.text, "ReferenceError: x is not defined");
            assert_eq!(render(&output), "\x1b[31mReferenceError: x is not defined\x1b[0m");
        },
        other => panic!("expected an error line, got {:?}", other),
    }
    assert!(!repl.is_closed());
    assert!(matches!(repl.step(ReplEvent::Displayed), ReplAction::ReadLine));
    assert!(matches!(
        repl.step(ReplEvent::Line("1".to_string())),
        ReplAction::Send { .. }
    ));
}

#[test]
fn exit_command_ends_the_loop_without_a_request() {
    let mut repl = fresh();
    assert!(matches!(repl.step(ReplEvent::Line("exit".to_string())), ReplAction::Stop));
    assert!(repl.is_closed());
    assert_eq!(repl.session.state(), ChannelState::Closed);
    assert!(matches!(repl.step(ReplEvent::Line("1+1".to_string())), ReplAction::Stop));
    assert!(matches!(repl.step(ReplEvent::Displayed), ReplAction::Stop));
    assert!(repl.is_closed());
}

#[test]
fn exit_command_may_have_whitespace_around_it() {
    let mut repl = fresh();
    assert!(matches!(repl.step(ReplEvent::Line("  exit \t".to_string())), ReplAction::Stop));
    assert!(repl.is_closed());
}

#[test]
fn end_of_input_ends_the_loop_without_a_request() {
    let mut repl = fresh();
    assert!(matches!(repl.step(ReplEvent::EndOfInput), ReplAction::Stop));
    assert!(repl.is_closed());
    assert!(matches!(repl.step(ReplEvent::Line("1".to_string())), ReplAction::Stop));
}

#[test]
fn interrupt_ends_the_loop_without_a_request() {
    let mut repl = fresh();
    assert!(matches!(repl.step(ReplEvent::Interrupted), ReplAction::Stop));
    assert!(repl.is_closed());
}

#[test]
fn line_is_trimmed_before_it_is_sent() {
    let mut repl = fresh();
    match repl.step(ReplEvent::Line("  1 + 1  ".to_string())) {
        ReplAction::Send { entry, frame } => {
            assert_eq!(entry, "1 + 1");
            assert!(frame.contains("\"expression\":\"1 + 1\""));
        },
        other => panic!("expected a request, got {:?}", other),
    }
}

#[test]
fn empty_line_asks_for_the_next_one() {
    let mut repl = fresh();
    assert!(matches!(repl.step(ReplEvent::Line(String::new())), ReplAction::ReadLine));
    assert!(matches!(repl.step(ReplEvent::Line("   ".to_string())), ReplAction::ReadLine));
    assert_eq!(repl.state(), ReplState::AwaitingInput);
    assert_eq!(repl.session.state(), ChannelState::Idle);
}

#[test]
fn write_failure_is_reported_and_loop_goes_on() {
    let mut repl = fresh();
    assert!(matches!(
        repl.step(ReplEvent::Line("1".to_string())),
        ReplAction::Send { .. }
    ));
    match repl.step(ReplEvent::Written(WriteOutcome::Failed("reset".to_string()))) {
        ReplAction::Report(Failure::Transport(detail)) => assert_eq!(detail, "reset"),
        other => panic!("expected a report, got {:?}", other),
    }
    assert_eq!(repl.state(), ReplState::Displaying);
    assert!(matches!(repl.step(ReplEvent::Displayed), ReplAction::ReadLine));
    assert!(matches!(
        repl.step(ReplEvent::Line("2".to_string())),
        ReplAction::Send { .. }
    ));
}

#[test]
fn malformed_reply_is_reported_and_loop_goes_on() {
    let mut repl = fresh();
    assert!(matches!(
        evaluate(&mut repl, "1", "<html>"),
        ReplAction::Report(Failure::MalformedResponse)
    ));
    assert!(matches!(repl.step(ReplEvent::Displayed), ReplAction::ReadLine));
    assert!(!repl.is_closed());
}

#[test]
fn closed_channel_is_reported_for_every_later_line() {
    let mut repl = fresh();
    assert!(matches!(
        repl.step(ReplEvent::Line("1".to_string())),
        ReplAction::Send { .. }
    ));
    assert!(matches!(repl.step(ReplEvent::Written(WriteOutcome::Sent)), ReplAction::Receive));
    assert!(matches!(
        repl.step(ReplEvent::Received(ReadOutcome::Closed)),
        ReplAction::Report(Failure::ChannelClosed)
    ));
    assert!(matches!(repl.step(ReplEvent::Displayed), ReplAction::ReadLine));
    assert!(matches!(
        repl.step(ReplEvent::Line("2".to_string())),
        ReplAction::Report(Failure::ChannelClosed)
    ));
    assert!(matches!(repl.step(ReplEvent::Displayed), ReplAction::ReadLine));
    assert!(matches!(repl.step(ReplEvent::Line("exit".to_string())), ReplAction::Stop));
}

#[test]
fn input_failure_is_reported_and_loop_goes_on() {
    let mut repl = fresh();
    match repl.step(ReplEvent::InputFailed("bad terminal".to_string())) {
        ReplAction::Report(Failure::Input(detail)) => assert_eq!(detail, "bad terminal"),
        other => panic!("expected a report, got {:?}", other),
    }
    assert!(matches!(repl.step(ReplEvent::Displayed), ReplAction::ReadLine));
}

#[test]
fn events_out_of_turn_are_ignored() {
    let mut repl = fresh();
    assert!(matches!(repl.step(ReplEvent::Displayed), ReplAction::Ignore));
    assert!(matches!(repl.step(ReplEvent::Written(WriteOutcome::Sent)), ReplAction::Ignore));
    assert!(matches!(
        repl.step(ReplEvent::Line("1".to_string())),
        ReplAction::Send { .. }
    ));
    assert!(matches!(repl.step(ReplEvent::Line("2".to_string())), ReplAction::Ignore));
    assert!(matches!(repl.step(ReplEvent::EndOfInput), ReplAction::Ignore));
    assert!(matches!(
        repl.step(ReplEvent::Received(ReadOutcome::NotText)),
        ReplAction::Ignore
    ));
    assert_eq!(repl.state(), ReplState::Evaluating);
    assert_eq!(repl.session.state(), ChannelState::Writing);
}

#[test]
fn command_takes_a_line_that_is_already_trimmed() {
    let mut repl = fresh();
    assert!(matches!(repl.command(""), ReplAction::ReadLine));
    assert!(matches!(repl.command("a"), ReplAction::Send { .. }));
    let mut other = fresh();
    assert!(matches!(other.command("exit"), ReplAction::Stop));
}

#[test]
fn prompt_is_the_name_and_an_angle() {
    assert_eq!(prompt("Slack"), "Slack> ");
}

#[test]
fn whitespace_of_every_script_is_trimmed() {
    let mut repl = fresh();
    match repl.step(ReplEvent::Line("\u{3000}a b\u{a0}\n".to_string())) {
        ReplAction::Send { entry, .. } => assert_eq!(entry, "a b"),
        other => panic!("expected a request, got {:?}", other),
    }
}

#[test]
fn same_text_compares_characters() {
    assert!(same_text("exit", "exit"));
    assert!(!same_text("exit", "Exit"));
    assert!(!same_text("exit", "exit "));
}
