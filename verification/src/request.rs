//! A decoded request and the program that answers it.

use crate::json::{
    describe, error_text, json_member, json_str, json_text, member, parse, parsed_json, serialize,
    text_of,
};
use crate::text::same_text;
use crate::wrapper::{executor_program, test_program, wrap_executor, wrap_test};
use vstd::prelude::*;

verus! {

/// How the harness treats the code of a request.
#[derive(Debug, Clone, Copy, PartialEq, Eq, Structural)]
pub enum Mode {
    /// The code runs as it stands.
    Executor,
    /// The code defines the entry point, which is called on the input.
    Test,
}

/// One request: the mode, the user's code, and the input of a test run.
#[derive(Debug)]
pub struct Request {
    pub mode: Mode,
    pub code: String,
    pub input: Option<serde_json::Value>,
}

/// Why a payload is no request.
#[derive(Debug, PartialEq, Eq)]
pub enum DecodeError {
    /// The payload is no JSON text; the parser's words are held here.
    Malformed(String),
    /// The payload is no object, or names no mode.
    MissingMode,
    /// The payload's mode is no string.
    ModeNotText,
    /// The payload's mode is none of the known ones; it is held here.
    UnknownMode(String),
    /// The payload holds no code.
    MissingCode,
    /// The payload's code is no string.
    CodeNotText,
}

/// The key of the mode in a payload.
pub const MODE_KEY: &'static str = "mode";

/// The key of the code in a payload.
pub const CODE_KEY: &'static str = "code";

/// The key of the input in a payload.
pub const INPUT_KEY: &'static str = "input";

/// The name of the executor mode in a payload.
pub const EXECUTOR_NAME: &'static str = "executor";

/// The name of the test mode in a payload.
pub const TEST_NAME: &'static str = "test";

/// The message for a payload without a mode.
pub const MISSING_MODE: &'static str = "missing field `mode`";

/// The message for a payload whose mode is no string.
pub const MODE_NOT_TEXT: &'static str = "invalid type for field `mode`, expected a string";

/// The message for a payload without code.
pub const MISSING_CODE: &'static str = "missing field `code`";

/// The message for a payload whose code is no string.
pub const CODE_NOT_TEXT: &'static str = "invalid type for field `code`, expected a string";

/// The message for an unknown mode, up to the mode.
pub const UNKNOWN_MODE_OPEN: &'static str = "unknown variant `";

/// The message for an unknown mode, after the mode.
pub const UNKNOWN_MODE_CLOSE: &'static str = "`, expected `executor` or `test`";

/// The JSON text that stands for an input that is absent or cannot be written.
pub const NULL_TEXT: &'static str = "null";

/// The mode that `name` names: the two names are matched letter for letter.
pub open spec fn mode_named(name: Seq<char>) -> Option<Mode> {
    if name == EXECUTOR_NAME@ {
        Some(Mode::Executor)
    } else if name == TEST_NAME@ {
        Some(Mode::Test)
    } else {
        None
    }
}

/// What a decode error says.
pub open spec fn decode_message(error: DecodeError) -> Seq<char> {
    match error {
        DecodeError::Malformed(words) => words@,
        DecodeError::MissingMode => MISSING_MODE@,
        DecodeError::ModeNotText => MODE_NOT_TEXT@,
        DecodeError::UnknownMode(name) => UNKNOWN_MODE_OPEN@ + name@ + UNKNOWN_MODE_CLOSE@,
        DecodeError::MissingCode => MISSING_CODE@,
        DecodeError::CodeNotText => CODE_NOT_TEXT@,
    }
}

/// What a parsed payload holds: the mode, the code and the input of a
/// request, or the message of the first thing that is wrong with it. The
/// mode is looked at before the code; the input may be absent.
pub open spec fn decoding_value(value: serde_json::Value) -> Result<
    (Mode, Seq<char>, Option<serde_json::Value>),
    Seq<char>,
> {
    match json_member(value, MODE_KEY@) {
        None => Err(MISSING_MODE@),
        Some(mode) => match json_str(mode) {
            None => Err(MODE_NOT_TEXT@),
            Some(name) => match mode_named(name) {
                None => Err(UNKNOWN_MODE_OPEN@ + name + UNKNOWN_MODE_CLOSE@),
                Some(known) => match json_member(value, CODE_KEY@) {
                    None => Err(MISSING_CODE@),
                    Some(code) => match json_str(code) {
                        None => Err(CODE_NOT_TEXT@),
                        Some(text) => Ok((known, text, json_member(value, INPUT_KEY@))),
                    },
                },
            },
        },
    }
}

/// What a payload holds: a request's mode, code and input, or the message of
/// what is wrong with it. A payload that does not parse has the parser's
/// words as its message.
pub open spec fn decoding(payload: Seq<char>) -> Result<
    (Mode, Seq<char>, Option<serde_json::Value>),
    Seq<char>,
> {
    match parsed_json(payload) {
        Err(error) => Err(error_text(error)),
        Ok(value) => decoding_value(value),
    }
}

/// The text that is embedded for an input: its compact JSON text, or the
/// null text where the input is absent or cannot be written.
pub open spec fn embedded_text(input: Option<serde_json::Value>) -> Seq<char> {
    match input {
        None => NULL_TEXT@,
        Some(value) => match json_text(value) {
            Some(text) => text,
            None => NULL_TEXT@,
        },
    }
}

/// The program for a request in `mode` with the code `code`, where `input`
/// is the text of its input. An executor program ignores the input.
pub open spec fn planned_program(mode: Mode, code: Seq<char>, input: Seq<char>) -> Seq<char> {
    match mode {
        Mode::Executor => executor_program(code),
        Mode::Test => test_program(code, input),
    }
}

/// Builds the program for a request in `mode`: the executor program for
/// `code`, or the test program for `code` and `input_json`.
pub fn build_program(mode: Mode, code: &str, input_json: &str) -> (program: String)
    ensures
        program@ == planned_program(mode, code@, input_json@),
{
    match mode {
        Mode::Executor => wrap_executor(code),
        Mode::Test => wrap_test(code, input_json),
    }
}

impl Mode {
    /// The mode that `name` names, if it names one.
    pub fn from_name(name: &str) -> (mode: Option<Mode>)
        ensures
            mode == mode_named(name@),
    {
        if same_text(name, EXECUTOR_NAME) {
            Some(Mode::Executor)
        } else if same_text(name, TEST_NAME) {
            Some(Mode::Test)
        } else {
            None
        }
    }
}

impl DecodeError {
    /// What this error says, for the response.
    pub fn message(&self) -> (text: String)
        ensures
            text@ == decode_message(*self),
    {
        match self {
            DecodeError::Malformed(words) => words.clone(),
            DecodeError::MissingMode => String::from_str(MISSING_MODE),
            DecodeError::ModeNotText => String::from_str(MODE_NOT_TEXT),
            DecodeError::UnknownMode(name) => {
                let mut text = String::from_str(UNKNOWN_MODE_OPEN);
                text.append(name.as_str());
                text.append(UNKNOWN_MODE_CLOSE);
                text
            },
            DecodeError::MissingCode => String::from_str(MISSING_CODE),
            DecodeError::CodeNotText => String::from_str(CODE_NOT_TEXT),
        }
    }
}

impl Request {
    /// Decodes a payload. It has to parse as JSON and to hold a known mode
    /// and the code, both as strings; the input may be absent. Anything else
    /// is refused with the first thing that is wrong: the parse, then the
    /// mode, then the code.
    pub fn decode(payload: &str) -> (request: Result<Request, DecodeError>)
        ensures
            match decoding(payload@) {
                Ok((mode, code, input)) => request matches Ok(r) && r.mode == mode && r.code@
                    == code && r.input == input,
                Err(message) => request matches Err(e) && decode_message(e) == message,
            },
    {
        let value = match parse(payload) {
            Ok(value) => value,
            Err(error) => {
                return Err(DecodeError::Malformed(describe(&error)));
            },
        };
        let mode = match member(&value, MODE_KEY) {
            Some(mode) => mode,
            None => {
                return Err(DecodeError::MissingMode);
            },
        };
        let name = match text_of(&mode) {
            Some(name) => name,
            None => {
                return Err(DecodeError::ModeNotText);
            },
        };
        let known = match Mode::from_name(name.as_str()) {
            Some(known) => known,
            None => {
                return Err(DecodeError::UnknownMode(name));
            },
        };
        let code = match member(&value, CODE_KEY) {
            Some(code) => code,
            None => {
                return Err(DecodeError::MissingCode);
            },
        };
        let text = match text_of(&code) {
            Some(text) => text,
            None => {
                return Err(DecodeError::CodeNotText);
            },
        };
        let input = member(&value, INPUT_KEY);
        Ok(Request { mode: known, code: text, input })
    }

    /// The text of this request's input: its compact JSON form, or the null
    /// text where the request holds no input or the input cannot be written.
    pub fn input_json(&self) -> (text: String)
        ensures
            text@ == embedded_text(self.input),
    {
        match &self.input {
            None => String::from_str(NULL_TEXT),
            Some(value) => match serialize(value) {
                Ok(text) => text,
                Err(_) => String::from_str(NULL_TEXT),
            },
        }
    }

    /// Builds the program for this request from its mode, its code and the
    /// text of its input.
    pub fn program(&self) -> (program: String)
        ensures
            program@ == planned_program(self.mode, self.code@, embedded_text(self.input)),
    {
        let input_json = self.input_json();
        build_program(self.mode, self.code.as_str(), input_json.as_str())
    }
}

} // verus!
