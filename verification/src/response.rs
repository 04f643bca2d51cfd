//! The response of one invocation and the line that carries it.

use crate::json::{json_string, json_text, lemma_json_string_has_no_control, quote, serialize};
use crate::request::NULL_TEXT;
use vstd::pervasive::unreached;
use vstd::prelude::*;

verus! {

/// The one artifact of an invocation that can be seen from outside.
#[derive(Debug, PartialEq)]
pub struct Response {
    /// The captured lines, joined.
    pub logs: String,
    /// What the run returned, if anything.
    pub result: Option<serde_json::Value>,
    /// Why the run failed, if it did.
    pub error: Option<String>,
}

/// How an invocation ended.
#[derive(Debug, PartialEq, Eq)]
pub enum ExecutionOutcome {
    /// The payload was no request; the engine was never reached.
    DecodeFailure(String),
    /// The engine could not run the program at all.
    EngineFailure(String),
    /// The program ran to its end and printed its response line itself.
    UserSignaled,
}

/// Why a response has no line.
#[derive(Debug, Clone, Copy, PartialEq, Eq, Structural)]
pub enum EncodeError {
    /// The serializer refused the result.
    Unserializable,
}

/// What a decode failure's message starts with.
pub const DECODE_PREFIX: &'static str = "Invalid input JSON: ";

/// The message of an engine failure whose error could not be rendered.
pub const ENGINE_FALLBACK: &'static str = "Python error";

/// The parts of a response line around its three fields.
pub const LINE_OPEN: &'static str = "{\"error\":";

pub const LINE_LOGS: &'static str = ",\"logs\":";

pub const LINE_RESULT: &'static str = ",\"result\":";

pub const LINE_CLOSE: &'static str = "}";

/// The response line whose fields have the JSON texts `error`, `logs` and
/// `result`.
pub open spec fn response_line(error: Seq<char>, logs: Seq<char>, result: Seq<char>) -> Seq<char> {
    LINE_OPEN@ + error + LINE_LOGS@ + logs + LINE_RESULT@ + result + LINE_CLOSE@
}

/// The JSON text of an error field: the quoted message, or the null text.
pub open spec fn error_field(error: Option<String>) -> Seq<char> {
    match error {
        Some(message) => json_string(message@),
        None => NULL_TEXT@,
    }
}

/// The line of the failure response with the message `message`: the quoted
/// message as the error, empty logs, and no result.
pub open spec fn failure_line(message: Seq<char>) -> Seq<char> {
    response_line(json_string(message), json_string(Seq::empty()), NULL_TEXT@)
}

/// Whether `response` is the failure response with the message `message`: no
/// logs, no result, and the message as its error.
pub open spec fn is_failure(response: Response, message: Seq<char>) -> bool {
    &&& response.logs@ == Seq::<char>::empty()
    &&& response.result is None
    &&& response.error matches Some(text) && text@ == message
}

/// The message of an engine failure, given the rendered error if rendering
/// succeeded.
pub open spec fn engine_message(rendered: Option<String>) -> Seq<char> {
    match rendered {
        Some(text) => text@,
        None => ENGINE_FALLBACK@,
    }
}

/// The message that an outcome carries, if it is a failure of the harness.
pub open spec fn failure_message(outcome: ExecutionOutcome) -> Option<Seq<char>> {
    match outcome {
        ExecutionOutcome::DecodeFailure(message) => Some(message@),
        ExecutionOutcome::EngineFailure(message) => Some(message@),
        ExecutionOutcome::UserSignaled => None,
    }
}

/// The line of a failure response is one line: it holds no line feed.
pub proof fn lemma_failure_line_is_one_line(message: Seq<char>)
    ensures
        forall|i: int|
            0 <= i < failure_line(message).len() ==> #[trigger] failure_line(message)[i] != '\n',
{
    reveal_strlit("{\"error\":");
    reveal_strlit(",\"logs\":");
    reveal_strlit(",\"result\":");
    reveal_strlit("}");
    reveal_strlit("null");
    lemma_json_string_has_no_control(message);
    lemma_json_string_has_no_control(Seq::empty());
    let error = json_string(message);
    let logs = json_string(Seq::empty());
    let a = LINE_OPEN@;
    let b = LINE_LOGS@;
    let c = LINE_RESULT@;
    let d = NULL_TEXT@;
    let e = LINE_CLOSE@;
    let line = failure_line(message);
    assert(line == a + error + b + logs + c + d + e);
    assert forall|i: int| 0 <= i < line.len() implies #[trigger] line[i] != '\n' by {
        let i1 = a.len() as int;
        let i2 = i1 + error.len();
        let i3 = i2 + b.len();
        let i4 = i3 + logs.len();
        let i5 = i4 + c.len();
        let i6 = i5 + d.len();
        if i < i1 {
            assert(line[i] == a[i]);
        } else if i < i2 {
            assert(line[i] == error[i - i1]);
        } else if i < i3 {
            assert(line[i] == b[i - i2]);
        } else if i < i4 {
            assert(line[i] == logs[i - i3]);
        } else if i < i5 {
            assert(line[i] == c[i - i4]);
        } else if i < i6 {
            assert(line[i] == d[i - i5]);
        } else {
            assert(line[i] == e[i - i6]);
        }
    }
}

/// Puts a response line together from the JSON texts of its fields.
pub fn assemble_line(error: &str, logs: &str, result: &str) -> (line: String)
    ensures
        line@ == response_line(error@, logs@, result@),
{
    let mut line = String::from_str(LINE_OPEN);
    line.append(error);
    line.append(LINE_LOGS);
    line.append(logs);
    line.append(LINE_RESULT);
    line.append(result);
    line.append(LINE_CLOSE);
    line
}

/// The JSON string literal for `text`.
fn quoted(text: &str) -> (literal: String)
    ensures
        literal@ == json_string(text@),
{
    match quote(text) {
        Ok(literal) => literal,
        Err(_) => unreached(),
    }
}

impl Response {
    /// The response of a harness-level failure: no logs, no result, and
    /// `message` as the error.
    pub fn failure(message: String) -> (response: Response)
        ensures
            is_failure(response, message@),
    {
        Response { logs: String::new(), result: None, error: Some(message) }
    }

    /// The line that carries this response: a JSON object with the fields
    /// `error`, `logs` and `result`, in that order and without spaces. An
    /// absent error or result is written as null. There is a line unless the
    /// serializer refuses the result.
    pub fn to_line(&self) -> (line: Result<String, EncodeError>)
        ensures
            match self.result {
                None => line matches Ok(text) && text@ == response_line(
                    error_field(self.error),
                    json_string(self.logs@),
                    NULL_TEXT@,
                ),
                Some(value) => match json_text(value) {
                    Some(result) => line matches Ok(text) && text@ == response_line(
                        error_field(self.error),
                        json_string(self.logs@),
                        result,
                    ),
                    None => line == Err::<String, EncodeError>(EncodeError::Unserializable),
                },
            },
    {
        let result = match &self.result {
            None => String::from_str(NULL_TEXT),
            Some(value) => match serialize(value) {
                Ok(text) => text,
                Err(_) => {
                    return Err(EncodeError::Unserializable);
                },
            },
        };
        let error = match &self.error {
            Some(message) => quoted(message.as_str()),
            None => String::from_str(NULL_TEXT),
        };
        let logs = quoted(self.logs.as_str());
        Ok(assemble_line(error.as_str(), logs.as_str(), result.as_str()))
    }
}

impl ExecutionOutcome {
    /// The outcome of a payload that could not be decoded, from the
    /// decoder's own words.
    pub fn decode_failure(detail: &str) -> (outcome: ExecutionOutcome)
        ensures
            outcome matches ExecutionOutcome::DecodeFailure(message) && message@ == DECODE_PREFIX@
                + detail@,
    {
        let mut message = String::from_str(DECODE_PREFIX);
        message.append(detail);
        ExecutionOutcome::DecodeFailure(message)
    }

    /// The outcome of a program that the engine could not run, from the
    /// engine's error as text, where it could be rendered.
    pub fn engine_failure(rendered: Option<String>) -> (outcome: ExecutionOutcome)
        ensures
            outcome matches ExecutionOutcome::EngineFailure(message) && message@ == engine_message(
                rendered,
            ),
    {
        match rendered {
            Some(text) => ExecutionOutcome::EngineFailure(text),
            None => ExecutionOutcome::EngineFailure(String::from_str(ENGINE_FALLBACK)),
        }
    }

    /// What the harness itself has to answer: the failure response for a
    /// failure of its own, and nothing where the program has printed its
    /// response line, so that every invocation has exactly one response.
    pub fn into_response(self) -> (response: Option<Response>)
        ensures
            match failure_message(self) {
                Some(message) => response matches Some(r) && is_failure(r, message),
                None => response is None,
            },
    {
        match self {
            ExecutionOutcome::DecodeFailure(message) => Some(Response::failure(message)),
            ExecutionOutcome::EngineFailure(message) => Some(Response::failure(message)),
            ExecutionOutcome::UserSignaled => None,
        }
    }

    /// The line that the harness itself has to write: the line of the
    /// failure response for a failure of its own, and none where the program
    /// has printed its response line.
    pub fn into_line(self) -> (line: Option<String>)
        ensures
            match failure_message(self) {
                Some(message) => line matches Some(text) && text@ == failure_line(message),
                None => line is None,
            },
    {
        match self.into_response() {
            None => None,
            Some(response) => match response.to_line() {
                Ok(line) => Some(line),
                Err(_) => unreached(),
            },
        }
    }
}

} // verus!
