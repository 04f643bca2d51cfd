//! One invocation, step by step: from the payload to the program to run, and
//! from what the engine reports to the outcome.

use crate::request::{decoding, embedded_text, planned_program, Request};
use crate::response::{
    engine_message, failure_line, failure_message, is_failure, lemma_failure_line_is_one_line,
    ExecutionOutcome, Response, DECODE_PREFIX,
};
use vstd::prelude::*;

verus! {

/// What is owed for a payload before the engine is reached: the text of the
/// program to run, or the message of the decode failure.
pub open spec fn prepared(payload: Seq<char>) -> Result<Seq<char>, Seq<char>> {
    match decoding(payload) {
        Ok((mode, code, input)) => Ok(planned_program(mode, code, embedded_text(input))),
        Err(message) => Err(DECODE_PREFIX@ + message),
    }
}

/// Decodes the payload and builds the program to run. A payload that is no
/// request gives the decode failure instead, and no program.
pub fn prepare(payload: &str) -> (step: Result<String, ExecutionOutcome>)
    ensures
        match prepared(payload@) {
            Ok(text) => step matches Ok(program) && program@ == text,
            Err(message) => step matches Err(ExecutionOutcome::DecodeFailure(held)) && held@
                == message,
        },
{
    match Request::decode(payload) {
        Ok(request) => Ok(request.program()),
        Err(error) => {
            let detail = error.message();
            Err(ExecutionOutcome::decode_failure(detail.as_str()))
        },
    }
}

/// The outcome of a run: the program reported by itself where the engine ran
/// it to its end, and an engine failure otherwise, with the engine's error as
/// text where it could be rendered.
pub fn conclude(run: Result<(), Option<String>>) -> (outcome: ExecutionOutcome)
    ensures
        match run {
            Ok(_) => outcome == ExecutionOutcome::UserSignaled,
            Err(rendered) => outcome matches ExecutionOutcome::EngineFailure(message) && message@
                == engine_message(rendered),
        },
{
    match run {
        Ok(_) => ExecutionOutcome::UserSignaled,
        Err(rendered) => ExecutionOutcome::engine_failure(rendered),
    }
}

/// A payload that is no request is answered by the harness itself: the
/// outcome that `prepare` gives for it has the response with the decode
/// message as its error, no logs and no result, and the line of that
/// response is one line.
pub proof fn lemma_undecodable_payload_is_answered(
    payload: Seq<char>,
    outcome: ExecutionOutcome,
    response: Response,
)
    requires
        decoding(payload) is Err,
        outcome matches ExecutionOutcome::DecodeFailure(held) && prepared(payload) == Err::<
            Seq<char>,
            Seq<char>,
        >(held@),
        failure_message(outcome) matches Some(message) && is_failure(response, message),
    ensures
        response.logs@.len() == 0,
        response.result is None,
        response.error matches Some(text) && text@ == DECODE_PREFIX@ + decoding(payload)->Err_0,
        forall|i: int|
            0 <= i < failure_line(DECODE_PREFIX@ + decoding(payload)->Err_0).len()
                ==> #[trigger] failure_line(DECODE_PREFIX@ + decoding(payload)->Err_0)[i] != '\n',
{
    lemma_failure_line_is_one_line(DECODE_PREFIX@ + decoding(payload)->Err_0);
}

/// One payload has one answer before the engine: whatever two invocations
/// prepare for the same payload is the same.
pub proof fn lemma_prepare_is_determined(
    payload: Seq<char>,
    first: Result<String, ExecutionOutcome>,
    second: Result<String, ExecutionOutcome>,
)
    requires
        match prepared(payload) {
            Ok(text) => first matches Ok(program) && program@ == text,
            Err(message) => first matches Err(ExecutionOutcome::DecodeFailure(held)) && held@
                == message,
        },
        match prepared(payload) {
            Ok(text) => second matches Ok(program) && program@ == text,
            Err(message) => second matches Err(ExecutionOutcome::DecodeFailure(held)) && held@
                == message,
        },
    ensures
        match (first, second) {
            (Ok(a), Ok(b)) => a@ == b@,
            (Err(ExecutionOutcome::DecodeFailure(a)), Err(ExecutionOutcome::DecodeFailure(b))) => a@
                == b@,
            _ => false,
        },
{
}

} // verus!
