//! The program skeletons and the wrapping of user code into them.

use crate::json::{
    json_string, lemma_json_string_has_no_control, lemma_literal_closes_at_its_end, literal_end,
    quote,
};
use crate::text::{indent, indent_text};
use vstd::pervasive::unreached;
use vstd::prelude::*;

verus! {

/// How many spaces put user code one level below the fault boundary.
pub const BODY_INDENT: usize = 4;

/// Start of an executor program: the capture sink is installed and the fault
/// boundary begins.
pub const EXECUTOR_PRELUDE: &'static str = r#"import json
import sys

_logs = []

def _lc_write(*args):
    try:
        _logs.append(' '.join(str(a) for a in args))
    except Exception:
        _logs.append('[log error]')

class _LCStdout:
    def write(self, s):
        if s is None:
            return 0
        # splitlines keeps output readable
        for line in str(s).splitlines():
            if line.strip() != '':
                _logs.append(line)
        return len(str(s))
    def flush(self):
        return None

_old_out, _old_err = sys.stdout, sys.stderr
sys.stdout, sys.stderr = _LCStdout(), _LCStdout()

try:
"#;

/// Start of a test program: the capture sink is installed and the fault
/// boundary begins.
pub const TEST_PRELUDE: &'static str = r#"import json
import sys

_logs = []

class _LCStdout:
    def write(self, s):
        if s is None:
            return 0
        for line in str(s).splitlines():
            if line.strip() != '':
                _logs.append(line)
        return len(str(s))
    def flush(self):
        return None

_old_out, _old_err = sys.stdout, sys.stderr
sys.stdout, sys.stderr = _LCStdout(), _LCStdout()

try:
"#;

/// What an executor program does once the user code has run through.
pub const EXECUTOR_SUCCESS: &'static str = r#"
    _result = None
    _err = None
"#;

/// In a test program, what leads up to the embedded input.
pub const TEST_LOAD: &'static str = r#"
    _input_data = json.loads("#;

/// In a test program, what follows the embedded input: the entry point is
/// called on the parsed input.
pub const TEST_CALL: &'static str = r#")
    _result = solution(_input_data)
    _err = None
"#;

/// End of every program: the fault boundary closes, the streams are put
/// back, and the one result line is printed.
pub const EPILOGUE: &'static str = r#"except Exception as e:
    _result = None
    _err = repr(e)

sys.stdout, sys.stderr = _old_out, _old_err

print(json.dumps({"logs": "\n".join(_logs), "result": _result, "error": _err}))
"#;

/// The executor program for `code`.
pub open spec fn executor_program(code: Seq<char>) -> Seq<char> {
    EXECUTOR_PRELUDE@ + indent_text(code, BODY_INDENT as nat) + EXECUTOR_SUCCESS@ + EPILOGUE@
}

/// The test program for `code`, with `input` embedded as a string literal in
/// which every quote, backslash and control character of the input is
/// escaped.
pub open spec fn test_program(code: Seq<char>, input: Seq<char>) -> Seq<char> {
    TEST_PRELUDE@ + indent_text(code, BODY_INDENT as nat) + TEST_LOAD@ + json_string(input)
        + TEST_CALL@ + EPILOGUE@
}

/// Where the literal of the embedded input opens in the test program for
/// `code`.
pub open spec fn input_start(code: Seq<char>) -> int {
    (TEST_PRELUDE@.len() + indent_text(code, BODY_INDENT as nat).len() + TEST_LOAD@.len()) as int
}

/// No text of the input takes part in the program: the literal that holds
/// the input opens at `input_start`, holds no line feed or other control
/// character, and closes at its own last character, whatever the input is.
pub proof fn lemma_input_stays_in_its_literal(code: Seq<char>, input: Seq<char>)
    ensures
        ({
            let program = test_program(code, input);
            let open = input_start(code);
            let close = open + json_string(input).len() - 1;
            &&& 0 <= open < close < program.len()
            &&& program.subrange(open, close + 1) == json_string(input)
            &&& program[open] == '"'
            &&& literal_end(program, open + 1) == close
            &&& forall|i: int| open <= i <= close ==> (#[trigger] program[i]) as u32 >= 0x20
        }),
{
    let before = TEST_PRELUDE@ + indent_text(code, BODY_INDENT as nat) + TEST_LOAD@;
    let after = TEST_CALL@ + EPILOGUE@;
    let program = test_program(code, input);
    let open = input_start(code);
    let close = open + json_string(input).len() - 1;
    assert(program =~= before + json_string(input) + after);
    lemma_literal_closes_at_its_end(before, input, after);
    lemma_json_string_has_no_control(input);
    assert forall|i: int| open <= i <= close implies (#[trigger] program[i]) as u32 >= 0x20 by {
        assert(program.subrange(open, close + 1)[i - open] == program[i]);
    }
}

/// Wraps `code` for free-form execution: the code stands re-indented inside
/// the fault boundary, and the program reports no result of its own.
pub fn wrap_executor(code: &str) -> (program: String)
    ensures
        program@ == executor_program(code@),
{
    let body = indent(code, BODY_INDENT);
    let mut program = String::from_str(EXECUTOR_PRELUDE);
    program.append(body.as_str());
    program.append(EXECUTOR_SUCCESS);
    program.append(EPILOGUE);
    program
}

/// Wraps `code` for a test run: after the re-indented code the program parses
/// the embedded `input_json` and calls the entry point `solution` on it. The
/// input is embedded as an escaped string literal, so that no text of it,
/// whatever it holds, is read as program text.
pub fn wrap_test(code: &str, input_json: &str) -> (program: String)
    ensures
        program@ == test_program(code@, input_json@),
{
    let body = indent(code, BODY_INDENT);
    let literal = match quote(input_json) {
        Ok(literal) => literal,
        Err(_) => unreached(),
    };
    let mut program = String::from_str(TEST_PRELUDE);
    program.append(body.as_str());
    program.append(TEST_LOAD);
    program.append(literal.as_str());
    program.append(TEST_CALL);
    program.append(EPILOGUE);
    program
}

} // verus!
