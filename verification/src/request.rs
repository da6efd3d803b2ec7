//! The evaluation request and the text frame that carries it.

use vstd::prelude::*;
use vstd::string::*;
use crate::decimal::{decimal, push_decimal};
use crate::json::{json_string_literal, push_string_literal};

verus! {

/// The identifier sent with every request. One request is outstanding at a time, so one
/// identifier serves them all.
pub const SEQUENCE_ID: u64 = 1;

/// The execution context in which an expression is evaluated unless the caller names one.
pub const DEFAULT_CONTEXT_ID: u64 = 1;

/// A request to evaluate one expression. Its method is always `Runtime.evaluate`, by value
/// and with a preview.
#[derive(Debug)]
pub struct EvaluationRequest {
    /// Echoed by the remote side.
    pub sequence_id: u64,
    pub expression: String,
    pub context_id: u64,
}

/// The frame for a request, given the expression already written as a JSON string literal.
pub open spec fn frame_text(sequence_id: nat, literal: Seq<char>, context_id: nat) -> Seq<char> {
    "{\"id\":"@ + decimal(sequence_id)
        + ",\"method\":\"Runtime.evaluate\",\"params\":{\"expression\":"@ + literal
        + ",\"contextId\":"@ + decimal(context_id)
        + ",\"returnByValue\":true,\"generatePreview\":true}}"@
}

impl EvaluationRequest {
    /// A request for `expression` in the context `context_id`, under the fixed identifier.
    pub fn new(expression: &str, context_id: u64) -> (r: EvaluationRequest)
        ensures
            r.sequence_id == SEQUENCE_ID,
            r.expression@ == expression@,
            r.context_id == context_id,
    {
        EvaluationRequest {
            sequence_id: SEQUENCE_ID,
            expression: String::from_str(expression),
            context_id,
        }
    }

    /// The frame to send for this request: one JSON object on one line.
    pub fn encode(&self) -> (r: String)
        ensures
            r@ == frame_text(
                self.sequence_id as nat,
                json_string_literal(self.expression@),
                self.context_id as nat,
            ),
    {
        let mut literal = String::new();
        push_string_literal(&mut literal, self.expression.as_str());
        assert(literal@ =~= json_string_literal(self.expression@));
        frame(self.sequence_id, literal.as_str(), self.context_id)
    }
}

/// Lays out the frame for a request around an expression that is already a JSON string
/// literal.
pub fn frame(sequence_id: u64, literal: &str, context_id: u64) -> (r: String)
    ensures
        r@ == frame_text(sequence_id as nat, literal@, context_id as nat),
{
    let mut r = String::from_str("{\"id\":");
    push_decimal(&mut r, sequence_id);
    r.append(",\"method\":\"Runtime.evaluate\",\"params\":{\"expression\":");
    r.append(literal);
    r.append(",\"contextId\":");
    push_decimal(&mut r, context_id);
    r.append(",\"returnByValue\":true,\"generatePreview\":true}}");
    r
}

} // verus!
