use snippet_harness::wrapper::{wrap_executor, wrap_test};

fn executor_text(body: &str) -> String {
    format!(
        r#"import json
import sys

_logs = []

def _lc_write(*args):
    try:
        _logs.append(' '.join(str(a) for a in args))
    except Exception:
        _logs.append('[log error]')

class _LCStdout:
    def write(self, s):
        if s is None:
            return 0
        # splitlines keeps output readable
        for line in str(s).splitlines():
            if line.strip() != '':
                _logs.append(line)
        return len(str(s))
    def flush(self):
        return None

_old_out, _old_err = sys.stdout, sys.stderr
sys.stdout, sys.stderr = _LCStdout(), _LCStdout()

try:
{body}
    _result = None
    _err = None
except Exception as e:
    _result = None
    _err = repr(e)

sys.stdout, sys.stderr = _old_out, _old_err

print(json.dumps({{"logs": "\n".join(_logs), "result": _result, "error": _err}}))
"#,
        body = body
    )
}

// `literal` is the input as it has to stand in the program.
fn test_text(body: &str, literal: &str) -> String {
    format!(
        r#"import json
import sys

_logs = []

class _LCStdout:
    def write(self, s):
        if s is None:
            return 0
        for line in str(s).splitlines():
            if line.strip() != '':
                _logs.append(line)
        return len(str(s))
    def flush(self):
        return None

_old_out, _old_err = sys.stdout, sys.stderr
sys.stdout, sys.stderr = _LCStdout(), _LCStdout()

try:
{body}
    _input_data = json.loads({literal})
    _result = solution(_input_data)
    _err = None
except Exception as e:
    _result = None
    _err = repr(e)

sys.stdout, sys.stderr = _old_out, _old_err

print(json.dumps({{"logs": "\n".join(_logs), "result": _result, "error": _err}}))
"#,
        body = body,
        literal = literal
    )
}

#[test]
fn executor_program_holds_the_code_one_level_down() {
    assert_eq!(wrap_executor("print(1)"), executor_text("    print(1)"));
    assert_eq!(
        wrap_executor("for i in range(2):\n    print(i)\n"),
        executor_text("    for i in range(2):\n        print(i)")
    );
}

#[test]
fn executor_program_for_blank_code_has_an_empty_body() {
    assert_eq!(wrap_executor(""), executor_text(""));
    assert_eq!(wrap_executor("  \n\t\n   "), executor_text("\n\n"));
}

#[test]
fn executor_program_starts_and_ends_as_fixed() {
    let program = wrap_executor("x = 1");
    assert!(program.starts_with("import json\nimport sys\n\n_logs = []\n"));
    assert!(program.contains("\ntry:\n    x = 1\n    _result = None\n    _err = None\nexcept Exception as e:\n"));
    assert!(program.ends_with("\"result\": _result, \"error\": _err}))\n"));
    assert_eq!(program.matches("\"\\n\".join(_logs)").count(), 1);
}

#[test]
fn test_program_embeds_the_input_and_calls_the_entry_point() {
    let code = "def solution(x):\n    return x + 1";
    assert_eq!(
        wrap_test(code, "41"),
        test_text("    def solution(x):\n        return x + 1", "\"41\"")
    );
    let program = wrap_test(code, "{\"a\":[1,2]}");
    assert!(program.contains(
        "\n    _input_data = json.loads(\"{\\\"a\\\":[1,2]}\")\n    _result = solution(_input_data)\n    _err = None\n"
    ));
}

#[test]
fn test_program_escapes_what_would_end_the_literal() {
    assert_eq!(wrap_test("pass", ""), test_text("    pass", "\"\""));
    assert_eq!(wrap_test("pass", "\""), test_text("    pass", "\"\\\"\""));
    assert_eq!(wrap_test("pass", "\\"), test_text("    pass", "\"\\\\\""));
    assert_eq!(wrap_test("pass", "\"a\\\"b\""), test_text("    pass", "\"\\\"a\\\\\\\"b\\\"\""));
    assert_eq!(wrap_test("pass", "a\nb\r\tc"), test_text("    pass", "\"a\\nb\\r\\tc\""));
    assert_eq!(
        wrap_test("pass", "\u{0}\u{8}\u{b}\u{c}\u{1f}\u{7f}"),
        test_text("    pass", "\"\\u0000\\b\\u000b\\f\\u001f\u{7f}\"")
    );
    assert_eq!(wrap_test("pass", "\u{e9}\u{2028}\u{1f600}"), test_text("    pass", "\"\u{e9}\u{2028}\u{1f600}\""));
}

#[test]
fn test_program_keeps_quotes_of_other_kinds_as_they_are() {
    assert_eq!(wrap_test("pass", "'''"), test_text("    pass", "\"'''\""));
    assert_eq!(
        wrap_test("pass", "\"''' + str(print('pwned')) + r'''\""),
        test_text("    pass", "\"\\\"''' + str(print('pwned')) + r'''\\\"\"")
    );
}

#[test]
fn test_program_embeds_the_input_as_the_serializer_quotes_it() {
    let mut inputs: Vec<String> = Vec::new();
    let mut code: u32 = 0;
    while code < 0x300 {
        if let Some(c) = char::from_u32(code) {
            inputs.push(format!("a{}b", c));
        }
        code += 1;
    }
    inputs.push("\"''' + x + r'''\"".to_owned());
    inputs.push("\\\"\\\\\"\n\"".to_owned());
    for input in inputs {
        let literal = serde_json::to_string(input.as_str()).unwrap();
        assert_eq!(wrap_test("pass", &input), test_text("    pass", &literal), "{:?}", input);
    }
}

#[test]
fn the_embedded_literal_is_one_line_and_closes_at_its_end() {
    for input in ["41", "\"a\\nb\"", "\"", "\\", "\\\"", "\"''' + x + r'''\"", "a\nb", ""] {
        let program = wrap_test("x = \"doc\"", input);
        let open = "json.loads(\"";
        let start = program.find(open).unwrap() + open.len();
        let rest: Vec<char> = program[start..].chars().collect();
        let mut i = 0;
        while rest[i] != '"' {
            assert_ne!(rest[i], '\n');
            i += if rest[i] == '\\' { 2 } else { 1 };
        }
        let tail: String = rest[i..].iter().collect();
        assert!(tail.starts_with("\")\n    _result = solution(_input_data)\n"), "{:?}", input);
    }
}

#[test]
fn the_two_programs_differ_in_their_shim_and_body() {
    let executor = wrap_executor("pass");
    let test = wrap_test("pass", "null");
    assert!(executor.contains("def _lc_write(*args):"));
    assert!(!test.contains("_lc_write"));
    assert!(!executor.contains("solution"));
    assert!(test.contains("json.loads(\"null\")"));
}
