//! The session over the one control channel: which step of an evaluation is due, and what
//! each outcome on the channel means.

use vstd::prelude::*;
use vstd::string::*;
use crate::failure::{Failure, FailureView};
use crate::json::{json_of_text, json_string_literal, parse, Json, JsonView};
use crate::request::{frame_text, EvaluationRequest, SEQUENCE_ID};
use crate::response::{decode_frame, frame_of, EvaluationResponse, ResponseView};

verus! {

/// Where a session stands. An evaluation is one write followed by one read.
#[derive(Debug, Clone, Copy, PartialEq, Eq, Structural)]
pub enum ChannelState {
    /// Open, with no evaluation in flight.
    Idle,
    /// A request was handed out and its write is due.
    Writing,
    /// The request was written and the read of its answer is due.
    Reading,
    /// The channel is gone.
    Closed,
}

/// How a write on the channel ended.
#[derive(Debug)]
pub enum WriteOutcome {
    Sent,
    /// The write failed; the text says why.
    Failed(String),
    /// The channel turned out to be closed.
    Closed,
}

/// How a read on the channel ended.
#[derive(Debug)]
pub enum ReadOutcome {
    /// A text message.
    Text(String),
    /// A message that is not text.
    NotText,
    /// The read failed; the text says why.
    Failed(String),
    /// The channel turned out to be closed.
    Closed,
}

/// The mathematical value of a [`WriteOutcome`]: texts as sequences of characters.
pub enum WriteView {
    Sent,
    Failed(Seq<char>),
    Closed,
}

/// The mathematical value of a [`ReadOutcome`]: texts as sequences of characters.
pub enum ReadView {
    Text(Seq<char>),
    NotText,
    Failed(Seq<char>),
    Closed,
}

impl View for WriteOutcome {
    type V = WriteView;

    open spec fn view(&self) -> WriteView {
        match self {
            WriteOutcome::Sent => WriteView::Sent,
            WriteOutcome::Failed(d) => WriteView::Failed(d@),
            WriteOutcome::Closed => WriteView::Closed,
        }
    }
}

impl View for ReadOutcome {
    type V = ReadView;

    open spec fn view(&self) -> ReadView {
        match self {
            ReadOutcome::Text(t) => ReadView::Text(t@),
            ReadOutcome::NotText => ReadView::NotText,
            ReadOutcome::Failed(d) => ReadView::Failed(d@),
            ReadOutcome::Closed => ReadView::Closed,
        }
    }
}

/// The session that owns the control channel.
#[derive(Debug)]
pub struct Session {
    pub state: ChannelState,
}

/// The response in a document read from a text message: a JSON object is a frame, anything
/// else is malformed.
pub open spec fn reply_of(doc: Option<JsonView>) -> Result<ResponseView, FailureView> {
    match doc {
        Some(d) => if d is Object {
            Ok(frame_of(d))
        } else {
            Err(FailureView::MalformedResponse)
        },
        None => Err(FailureView::MalformedResponse),
    }
}

/// What a read means for the evaluation in flight.
pub open spec fn read_result(outcome: ReadView) -> Result<ResponseView, FailureView> {
    match outcome {
        ReadView::Text(t) => reply_of(json_of_text(t)),
        ReadView::NotText => Err(FailureView::MalformedResponse),
        ReadView::Failed(d) => Err(FailureView::Transport(d)),
        ReadView::Closed => Err(FailureView::ChannelClosed),
    }
}

/// What a write means for the evaluation in flight.
pub open spec fn write_result(outcome: WriteView) -> Result<(), FailureView> {
    match outcome {
        WriteView::Sent => Ok(()),
        WriteView::Failed(d) => Err(FailureView::Transport(d)),
        WriteView::Closed => Err(FailureView::ChannelClosed),
    }
}

/// What a result looks like to a contract.
pub open spec fn response_view(r: Result<EvaluationResponse, Failure>) -> Result<
    ResponseView,
    FailureView,
> {
    match r {
        Ok(response) => Ok(response@),
        Err(failure) => Err(failure@),
    }
}

/// What a result without a value looks like to a contract.
pub open spec fn unit_view(r: Result<(), Failure>) -> Result<(), FailureView> {
    match r {
        Ok(u) => Ok(u),
        Err(failure) => Err(failure@),
    }
}

/// What a result that holds a frame looks like to a contract.
pub open spec fn frame_view(r: Result<String, Failure>) -> Result<Seq<char>, FailureView> {
    match r {
        Ok(frame) => Ok(frame@),
        Err(failure) => Err(failure@),
    }
}

/// Reads a response out of a document that was read from a text message, if there is one.
pub fn interpret(doc: Option<&Json>) -> (r: Result<EvaluationResponse, Failure>)
    ensures
        response_view(r) == reply_of(
            match doc {
                Some(d) => Some(d@),
                None => None,
            },
        ),
{
    match doc {
        Some(d) => if d.is_object() {
            Ok(decode_frame(d))
        } else {
            Err(Failure::MalformedResponse)
        },
        None => Err(Failure::MalformedResponse),
    }
}

/// Reads a response out of a text message.
pub fn read_reply(text: &str) -> (r: Result<EvaluationResponse, Failure>)
    ensures
        response_view(r) == reply_of(json_of_text(text@)),
{
    let doc = parse(text);
    interpret(doc.as_ref())
}

impl Session {
    /// What `request` answers in the state `state`.
    pub open spec fn request_result(
        state: ChannelState,
        expression: Seq<char>,
        context_id: nat,
    ) -> Result<Seq<char>, FailureView> {
        match state {
            ChannelState::Idle => Ok(
                frame_text(SEQUENCE_ID as nat, json_string_literal(expression), context_id),
            ),
            ChannelState::Closed => Err(FailureView::ChannelClosed),
            _ => Err(FailureView::OutOfTurn),
        }
    }

    /// The state that `request` leaves behind.
    pub open spec fn after_request(state: ChannelState) -> ChannelState {
        if state == ChannelState::Idle {
            ChannelState::Writing
        } else {
            state
        }
    }

    /// What `written` answers in the state `state`.
    pub open spec fn written_result(state: ChannelState, outcome: WriteView) -> Result<
        (),
        FailureView,
    > {
        if state == ChannelState::Writing {
            write_result(outcome)
        } else {
            Err(FailureView::OutOfTurn)
        }
    }

    /// The state that `written` leaves behind.
    pub open spec fn after_written(state: ChannelState, outcome: WriteView) -> ChannelState {
        if state == ChannelState::Writing {
            match outcome {
                WriteView::Sent => ChannelState::Reading,
                WriteView::Failed(_) => ChannelState::Idle,
                WriteView::Closed => ChannelState::Closed,
            }
        } else {
            state
        }
    }

    /// What `received` answers in the state `state`.
    pub open spec fn received_result(state: ChannelState, outcome: ReadView) -> Result<
        ResponseView,
        FailureView,
    > {
        if state == ChannelState::Reading {
            read_result(outcome)
        } else {
            Err(FailureView::OutOfTurn)
        }
    }

    /// The state that `received` leaves behind.
    pub open spec fn after_received(state: ChannelState, outcome: ReadView) -> ChannelState {
        if state == ChannelState::Reading {
            if outcome is Closed {
                ChannelState::Closed
            } else {
                ChannelState::Idle
            }
        } else {
            state
        }
    }

    /// The session for a channel that has just been opened.
    pub fn opened() -> (r: Session)
        ensures
            r.state == ChannelState::Idle,
    {
        Session { state: ChannelState::Idle }
    }

    /// Where the session stands.
    pub fn state(&self) -> (r: ChannelState)
        ensures
            r == self.state,
    {
        self.state
    }

    /// Starts an evaluation: hands out the frame to write. On a closed channel this fails
    /// as closed, while an evaluation is in flight as out of turn; neither changes the
    /// session.
    pub fn request(&mut self, expression: &str, context_id: u64) -> (r: Result<String, Failure>)
        ensures
            frame_view(r) == Self::request_result(
                old(self).state,
                expression@,
                context_id as nat,
            ),
            final(self).state == Self::after_request(old(self).state),
    {
        match self.state {
            ChannelState::Idle => {
                let frame = EvaluationRequest::new(expression, context_id).encode();
                self.state = ChannelState::Writing;
                Ok(frame)
            },
            ChannelState::Closed => Err(Failure::ChannelClosed),
            _ => Err(Failure::OutOfTurn),
        }
    }

    /// Takes note of how the write ended. After a write that went out the read is due; a
    /// failed write ends the evaluation; a closed channel ends the session.
    pub fn written(&mut self, outcome: WriteOutcome) -> (r: Result<(), Failure>)
        ensures
            unit_view(r) == Self::written_result(old(self).state, outcome@),
            final(self).state == Self::after_written(old(self).state, outcome@),
    {
        match self.state {
            ChannelState::Writing => match outcome {
                WriteOutcome::Sent => {
                    self.state = ChannelState::Reading;
                    Ok(())
                },
                WriteOutcome::Failed(detail) => {
                    self.state = ChannelState::Idle;
                    Err(Failure::Transport(detail))
                },
                WriteOutcome::Closed => {
                    self.state = ChannelState::Closed;
                    Err(Failure::ChannelClosed)
                },
            },
            _ => Err(Failure::OutOfTurn),
        }
    }

    /// Takes note of how the read ended, and with it ends the evaluation. A closed channel
    /// ends the session too.
    pub fn received(&mut self, outcome: ReadOutcome) -> (r: Result<EvaluationResponse, Failure>)
        ensures
            response_view(r) == Self::received_result(old(self).state, outcome@),
            final(self).state == Self::after_received(old(self).state, outcome@),
    {
        match self.state {
            ChannelState::Reading => match outcome {
                ReadOutcome::Text(text) => {
                    self.state = ChannelState::Idle;
                    read_reply(text.as_str())
                },
                ReadOutcome::NotText => {
                    self.state = ChannelState::Idle;
                    Err(Failure::MalformedResponse)
                },
                ReadOutcome::Failed(detail) => {
                    self.state = ChannelState::Idle;
                    Err(Failure::Transport(detail))
                },
                ReadOutcome::Closed => {
                    self.state = ChannelState::Closed;
                    Err(Failure::ChannelClosed)
                },
            },
            _ => Err(Failure::OutOfTurn),
        }
    }

    /// Closes the session: from now on nothing can be sent.
    pub fn close(&mut self)
        ensures
            final(self).state == ChannelState::Closed,
    {
        self.state = ChannelState::Closed;
    }
}

/// One evaluation is one write and one read: once a request is handed out, no second one
/// is until the first has ended with a failed write or with its read.
pub proof fn lemma_one_request_in_flight(state: ChannelState, expression: Seq<char>, context: nat)
    requires
        state == ChannelState::Writing || state == ChannelState::Reading,
    ensures
        Session::request_result(state, expression, context) == Err::<Seq<char>, FailureView>(
            FailureView::OutOfTurn,
        ),
        Session::after_request(state) == state,
        forall|idle: ChannelState, e: Seq<char>, c: nat|
            Session::request_result(idle, e, c) is Ok ==> {
                let busy = Session::after_request(idle);
                &&& busy == ChannelState::Writing
                &&& Session::request_result(busy, expression, context) is Err
            },
{
}

/// A closed session stays closed, and every step asked of it fails: a request as closed,
/// without a write or a read.
pub proof fn lemma_closed_is_final(expression: Seq<char>, context: nat, w: WriteView, r: ReadView)
    ensures
        Session::request_result(ChannelState::Closed, expression, context) == Err::<
            Seq<char>,
            FailureView,
        >(FailureView::ChannelClosed),
        Session::after_request(ChannelState::Closed) == ChannelState::Closed,
        Session::written_result(ChannelState::Closed, w) is Err,
        Session::after_written(ChannelState::Closed, w) == ChannelState::Closed,
        Session::received_result(ChannelState::Closed, r) is Err,
        Session::after_received(ChannelState::Closed, r) == ChannelState::Closed,
{
}

} // verus!
