//! The interactive loop as a machine: what each event leads to, and what is to be done next.
//!
//! The caller performs the actions (reading a line, writing and reading on the channel,
//! printing) and reports each outcome as the next event.

use vstd::prelude::*;
use vstd::string::*;
use crate::failure::{Failure, FailureView};
use crate::format::{formatted, FormattedOutput, OutputView};
use crate::line::{same_text, trim, trimmed};
use crate::request::DEFAULT_CONTEXT_ID;
use crate::session::{
    ChannelState, ReadOutcome, ReadView, Session, WriteOutcome, WriteView,
};

verus! {

/// Where the loop stands.
#[derive(Debug, Clone, Copy, PartialEq, Eq, Structural)]
pub enum ReplState {
    /// A line of input is due.
    AwaitingInput,
    /// An evaluation is in flight: its write or its read is due.
    Evaluating,
    /// Something was handed out to be shown.
    Displaying,
    /// The loop has ended.
    Closed,
}

/// What happened outside the loop.
#[derive(Debug)]
pub enum ReplEvent {
    /// The user entered a line.
    Line(String),
    /// The input has ended.
    EndOfInput,
    /// The user interrupted the input.
    Interrupted,
    /// Reading a line failed; the text says why.
    InputFailed(String),
    /// The write of the request ended.
    Written(WriteOutcome),
    /// The read of the answer ended.
    Received(ReadOutcome),
    /// What was handed out has been shown.
    Displayed,
}

/// What the caller is to do next.
#[derive(Debug)]
pub enum ReplAction {
    /// Read a line of input.
    ReadLine,
    /// Record `entry` in the input history and write `frame` to the channel.
    Send { entry: String, frame: String },
    /// Read one message from the channel.
    Receive,
    /// Show an output.
    Print(FormattedOutput),
    /// Show a failure.
    Report(Failure),
    /// Leave the loop.
    Stop,
    /// Nothing: the event came out of turn and changed nothing.
    Ignore,
}

/// The mathematical value of a [`ReplEvent`]: texts as sequences of characters.
pub enum EventView {
    Line(Seq<char>),
    EndOfInput,
    Interrupted,
    InputFailed(Seq<char>),
    Written(WriteView),
    Received(ReadView),
    Displayed,
}

/// The mathematical value of a [`ReplAction`]: texts as sequences of characters.
pub enum ActionView {
    ReadLine,
    Send { entry: Seq<char>, frame: Seq<char> },
    Receive,
    Print(OutputView),
    Report(FailureView),
    Stop,
    Ignore,
}

impl View for ReplEvent {
    type V = EventView;

    open spec fn view(&self) -> EventView {
        match self {
            ReplEvent::Line(l) => EventView::Line(l@),
            ReplEvent::EndOfInput => EventView::EndOfInput,
            ReplEvent::Interrupted => EventView::Interrupted,
            ReplEvent::InputFailed(d) => EventView::InputFailed(d@),
            ReplEvent::Written(o) => EventView::Written(o@),
            ReplEvent::Received(o) => EventView::Received(o@),
            ReplEvent::Displayed => EventView::Displayed,
        }
    }
}

impl View for ReplAction {
    type V = ActionView;

    open spec fn view(&self) -> ActionView {
        match self {
            ReplAction::ReadLine => ActionView::ReadLine,
            ReplAction::Send { entry, frame } => ActionView::Send { entry: entry@, frame: frame@ },
            ReplAction::Receive => ActionView::Receive,
            ReplAction::Print(o) => ActionView::Print(o@),
            ReplAction::Report(f) => ActionView::Report(f@),
            ReplAction::Stop => ActionView::Stop,
            ReplAction::Ignore => ActionView::Ignore,
        }
    }
}

/// The loop: its state, the session it owns, and the context in which it evaluates.
#[derive(Debug)]
pub struct ReplLoop {
    pub state: ReplState,
    pub session: Session,
    pub context_id: u64,
}

/// The loop as contracts see it.
pub struct LoopView {
    pub state: ReplState,
    pub channel: ChannelState,
    pub context_id: nat,
}

impl View for ReplLoop {
    type V = LoopView;

    open spec fn view(&self) -> LoopView {
        LoopView {
            state: self.state,
            channel: self.session.state,
            context_id: self.context_id as nat,
        }
    }
}

impl LoopView {
    /// The state of the loop and that of its session fit together: an evaluation is in
    /// flight while the loop evaluates and at no other time, and a loop that has ended
    /// has closed its session.
    pub open spec fn well_formed(self) -> bool {
        match self.state {
            ReplState::AwaitingInput | ReplState::Displaying => self.channel == ChannelState::Idle
                || self.channel == ChannelState::Closed,
            ReplState::Evaluating => self.channel == ChannelState::Writing || self.channel
                == ChannelState::Reading,
            ReplState::Closed => self.channel == ChannelState::Closed,
        }
    }

    /// The loop after it has ended.
    pub open spec fn ended(self) -> LoopView {
        LoopView { state: ReplState::Closed, channel: ChannelState::Closed, ..self }
    }

    /// What a command (a line without the whitespace around it) leads to while input is
    /// awaited: `exit` ends the loop, an empty command asks for the next line, any other
    /// is sent for evaluation, or reported where the session cannot send.
    pub open spec fn on_command(self, command: Seq<char>) -> (LoopView, ActionView) {
        if command == "exit"@ {
            (self.ended(), ActionView::Stop)
        } else if command.len() == 0 {
            (self, ActionView::ReadLine)
        } else {
            let channel = Session::after_request(self.channel);
            match Session::request_result(self.channel, command, self.context_id) {
                Ok(frame) => (
                    LoopView { state: ReplState::Evaluating, channel, ..self },
                    ActionView::Send { entry: command, frame },
                ),
                Err(failure) => (
                    LoopView { state: ReplState::Displaying, channel, ..self },
                    ActionView::Report(failure),
                ),
            }
        }
    }

    /// What the end of the write leads to while an evaluation is in flight.
    pub open spec fn on_written(self, outcome: WriteView) -> (LoopView, ActionView) {
        let channel = Session::after_written(self.channel, outcome);
        match Session::written_result(self.channel, outcome) {
            Ok(_) => (LoopView { channel, ..self }, ActionView::Receive),
            Err(failure) => (
                LoopView { state: ReplState::Displaying, channel, ..self },
                ActionView::Report(failure),
            ),
        }
    }

    /// What the end of the read leads to while an evaluation is in flight.
    pub open spec fn on_received(self, outcome: ReadView) -> (LoopView, ActionView) {
        let channel = Session::after_received(self.channel, outcome);
        let shown = LoopView { state: ReplState::Displaying, channel, ..self };
        match Session::received_result(self.channel, outcome) {
            Ok(response) => (shown, ActionView::Print(formatted(response))),
            Err(failure) => (shown, ActionView::Report(failure)),
        }
    }

    /// The loop after `event`, and the action that is due.
    pub open spec fn next(self, event: EventView) -> (LoopView, ActionView) {
        match self.state {
            ReplState::Closed => (self, ActionView::Stop),
            ReplState::AwaitingInput => match event {
                EventView::Line(line) => self.on_command(trimmed(line)),
                EventView::EndOfInput | EventView::Interrupted => (self.ended(), ActionView::Stop),
                EventView::InputFailed(detail) => (
                    LoopView { state: ReplState::Displaying, ..self },
                    ActionView::Report(FailureView::Input(detail)),
                ),
                _ => (self, ActionView::Ignore),
            },
            ReplState::Evaluating => match event {
                EventView::Written(outcome) => if self.channel == ChannelState::Writing {
                    self.on_written(outcome)
                } else {
                    (self, ActionView::Ignore)
                },
                EventView::Received(outcome) => if self.channel == ChannelState::Reading {
                    self.on_received(outcome)
                } else {
                    (self, ActionView::Ignore)
                },
                _ => (self, ActionView::Ignore),
            },
            ReplState::Displaying => match event {
                EventView::Displayed => (
                    LoopView { state: ReplState::AwaitingInput, ..self },
                    ActionView::ReadLine,
                ),
                _ => (self, ActionView::Ignore),
            },
        }
    }

    /// The loop after the events `events`, taken from the front.
    pub open spec fn after(self, events: Seq<EventView>) -> LoopView
        decreases events.len(),
    {
        if events.len() == 0 {
            self
        } else {
            self.after(events.drop_last()).next(events.last()).0
        }
    }
}

impl ReplLoop {
    /// The loop over a session, awaiting its first line, evaluating in the default context.
    pub fn new(session: Session) -> (r: ReplLoop)
        ensures
            r.state == ReplState::AwaitingInput,
            r.session == session,
            r.context_id == DEFAULT_CONTEXT_ID,
    {
        ReplLoop { state: ReplState::AwaitingInput, session, context_id: DEFAULT_CONTEXT_ID }
    }

    /// Where the loop stands.
    pub fn state(&self) -> (r: ReplState)
        ensures
            r == self.state,
    {
        self.state
    }

    /// Whether the loop has ended.
    pub fn is_closed(&self) -> (r: bool)
        ensures
            r == (self.state == ReplState::Closed),
    {
        self.state == ReplState::Closed
    }

    fn end(&mut self)
        ensures
            final(self)@ == old(self)@.ended(),
    {
        self.state = ReplState::Closed;
        self.session.close();
    }

    /// Takes a command while input is awaited.
    pub fn command(&mut self, command: &str) -> (r: ReplAction)
        ensures
            (final(self)@, r@) == old(self)@.on_command(command@),
    {
        if same_text(command, "exit") {
            self.end();
            ReplAction::Stop
        } else if command.is_empty() {
            ReplAction::ReadLine
        } else {
            match self.session.request(command, self.context_id) {
                Ok(frame) => {
                    self.state = ReplState::Evaluating;
                    ReplAction::Send { entry: String::from_str(command), frame }
                },
                Err(failure) => {
                    self.state = ReplState::Displaying;
                    ReplAction::Report(failure)
                },
            }
        }
    }

    /// Takes the next event and says what is to be done.
    pub fn step(&mut self, event: ReplEvent) -> (r: ReplAction)
        ensures
            (final(self)@, r@) == old(self)@.next(event@),
            old(self)@.well_formed() ==> final(self)@.well_formed(),
    {
        match self.state {
            ReplState::Closed => ReplAction::Stop,
            ReplState::AwaitingInput => match event {
                ReplEvent::Line(line) => self.command(trim(line.as_str())),
                ReplEvent::EndOfInput => {
                    self.end();
                    ReplAction::Stop
                },
                ReplEvent::Interrupted => {
                    self.end();
                    ReplAction::Stop
                },
                ReplEvent::InputFailed(detail) => {
                    self.state = ReplState::Displaying;
                    ReplAction::Report(Failure::Input(detail))
                },
                _ => ReplAction::Ignore,
            },
            ReplState::Evaluating => match event {
                ReplEvent::Written(outcome) => {
                    if self.session.state() != ChannelState::Writing {
                        return ReplAction::Ignore;
                    }
                    match self.session.written(outcome) {
                        Ok(_) => ReplAction::Receive,
                        Err(failure) => {
                            self.state = ReplState::Displaying;
                            ReplAction::Report(failure)
                        },
                    }
                },
                ReplEvent::Received(outcome) => {
                    if self.session.state() != ChannelState::Reading {
                        return ReplAction::Ignore;
                    }
                    let answer = self.session.received(outcome);
                    self.state = ReplState::Displaying;
                    match answer {
                        Ok(response) => ReplAction::Print(crate::format::format(&response)),
                        Err(failure) => ReplAction::Report(failure),
                    }
                },
                _ => ReplAction::Ignore,
            },
            ReplState::Displaying => match event {
                ReplEvent::Displayed => {
                    self.state = ReplState::AwaitingInput;
                    ReplAction::ReadLine
                },
                _ => ReplAction::Ignore,
            },
        }
    }
}

/// The prompt for a target: its name, `>` and a space.
pub fn prompt(target: &str) -> (r: String)
    ensures
        r@ == target@ + "> "@,
{
    String::from_str(target).concat("> ")
}

/// Every step keeps the loop and its session fitting together.
pub proof fn lemma_step_keeps_well_formed(repl: LoopView, event: EventView)
    requires
        repl.well_formed(),
    ensures
        repl.next(event).0.well_formed(),
{
}

/// The exit command, the end of input and an interrupt end the loop while input is
/// awaited, with nothing sent.
pub proof fn lemma_exit_ends_loop(repl: LoopView, event: EventView)
    requires
        repl.state == ReplState::AwaitingInput,
        event is EndOfInput || event is Interrupted || (event matches EventView::Line(line)
            && trimmed(line) == "exit"@),
    ensures
        repl.next(event).0.state == ReplState::Closed,
        repl.next(event).0.channel == ChannelState::Closed,
        repl.next(event).1 == ActionView::Stop,
{
}

/// Once the loop has ended it stays so: whatever events follow, each is answered with
/// `Stop`, and so none with a request to send.
pub proof fn lemma_ended_loop_sends_nothing(repl: LoopView, events: Seq<EventView>)
    requires
        repl.state == ReplState::Closed,
    ensures
        repl.after(events) == repl,
        forall|i: int|
            0 <= i < events.len() ==> (#[trigger] repl.after(events.take(i))).next(events[i]).1
                == ActionView::Stop,
    decreases events.len(),
{
    if events.len() > 0 {
        lemma_ended_loop_sends_nothing(repl, events.drop_last());
        assert forall|i: int| 0 <= i < events.len() implies (#[trigger] repl.after(
            events.take(i),
        )).next(events[i]).1 == ActionView::Stop by {
            lemma_ended_loop_sends_nothing(repl, events.take(i));
        }
    }
}

/// An answer never ends the loop: a response, an error thrown by the expression and a
/// failure on the channel all lead to showing something, and from there to the next line.
pub proof fn lemma_answer_keeps_loop_running(repl: LoopView, outcome: ReadView)
    requires
        repl.state == ReplState::Evaluating,
        repl.channel == ChannelState::Reading,
    ensures
        repl.next(EventView::Received(outcome)).0.state == ReplState::Displaying,
        repl.next(EventView::Received(outcome)).0.next(EventView::Displayed).0.state
            == ReplState::AwaitingInput,
        repl.next(EventView::Received(outcome)).0.next(EventView::Displayed).1
            == ActionView::ReadLine,
{
}

/// The end of input and an interrupt are honoured only while input is awaited: while an
/// evaluation is in flight they change nothing, and its answer is still taken.
pub proof fn lemma_evaluation_is_not_interrupted(repl: LoopView, event: EventView)
    requires
        repl.state == ReplState::Evaluating,
        event is EndOfInput || event is Interrupted || event is Line,
    ensures
        repl.next(event) == (repl, ActionView::Ignore),
{
}

/// A request is sent only for a command that is neither empty nor `exit`, while input is
/// awaited and the session is idle.
pub proof fn lemma_send_only_for_command(repl: LoopView, event: EventView)
    requires
        repl.next(event).1 is Send,
    ensures
        repl.state == ReplState::AwaitingInput,
        repl.channel == ChannelState::Idle,
        event matches EventView::Line(line) && trimmed(line).len() > 0 && trimmed(line)
            != "exit"@ && repl.next(event).1->entry == trimmed(line),
{
}

} // verus!
