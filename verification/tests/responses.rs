use serde_json::Value;
use snippet_harness::harness::{conclude, prepare};
use snippet_harness::request::{Mode, Request};
use snippet_harness::response::{assemble_line, ExecutionOutcome, Response};

// The same object as the serializer writes it.
fn written(logs: &str, result: Value, error: Option<&str>) -> String {
    let mut object = serde_json::Map::new();
    object.insert("logs".to_owned(), Value::from(logs));
    object.insert("result".to_owned(), result);
    object.insert("error".to_owned(), error.map(Value::from).unwrap_or(Value::Null));
    Value::Object(object).to_string()
}

#[test]
fn decode_failure_carries_the_decoders_words() {
    assert_eq!(
        ExecutionOutcome::decode_failure("EOF while parsing an object at line 1 column 1"),
        ExecutionOutcome::DecodeFailure(
            "Invalid input JSON: EOF while parsing an object at line 1 column 1".to_owned()
        )
    );
    assert_eq!(
        ExecutionOutcome::decode_failure(""),
        ExecutionOutcome::DecodeFailure("Invalid input JSON: ".to_owned())
    );
}

#[test]
fn engine_failure_carries_the_rendered_error() {
    assert_eq!(
        ExecutionOutcome::engine_failure(Some("invalid syntax".to_owned())),
        ExecutionOutcome::EngineFailure("invalid syntax".to_owned())
    );
    assert_eq!(
        ExecutionOutcome::engine_failure(Some(String::new())),
        ExecutionOutcome::EngineFailure(String::new())
    );
}

#[test]
fn engine_failure_without_a_rendering_has_a_fixed_message() {
    assert_eq!(
        ExecutionOutcome::engine_failure(None),
        ExecutionOutcome::EngineFailure("Python error".to_owned())
    );
}

#[test]
fn a_failure_has_a_response_with_the_error_alone() {
    let response = ExecutionOutcome::DecodeFailure("bad".to_owned()).into_response().unwrap();
    assert_eq!(response, Response { logs: String::new(), result: None, error: Some("bad".to_owned()) });
    let response = ExecutionOutcome::EngineFailure("worse".to_owned()).into_response().unwrap();
    assert_eq!(
        response,
        Response { logs: String::new(), result: None, error: Some("worse".to_owned()) }
    );
    assert_eq!(
        Response::failure("x".to_owned()),
        Response { logs: String::new(), result: None, error: Some("x".to_owned()) }
    );
}

#[test]
fn a_program_that_reported_leaves_nothing_to_answer() {
    assert_eq!(ExecutionOutcome::UserSignaled.into_response(), None);
    assert_eq!(ExecutionOutcome::UserSignaled.into_line(), None);
}

#[test]
fn a_failure_has_one_line() {
    assert_eq!(
        ExecutionOutcome::DecodeFailure("bad".to_owned()).into_line(),
        Some("{\"error\":\"bad\",\"logs\":\"\",\"result\":null}".to_owned())
    );
    let message = "line 1\nline 2\r\n\"q\" \\ \u{0}\u{1f}\u{7f}\u{2028} \u{e9}";
    let line = ExecutionOutcome::EngineFailure(message.to_owned()).into_line().unwrap();
    assert_eq!(line, written("", Value::Null, Some(message)));
    assert_eq!(line.matches('\n').count(), 0);
    assert!(line.chars().all(|c| c >= ' '));
    let back: Value = serde_json::from_str(&line).unwrap();
    assert_eq!(back["error"], Value::from(message));
    assert_eq!(back["logs"], Value::from(""));
    assert_eq!(back["result"], Value::Null);
}

#[test]
fn a_line_is_put_together_in_a_fixed_order() {
    assert_eq!(assemble_line("\"e\"", "\"l\"", "1"), "{\"error\":\"e\",\"logs\":\"l\",\"result\":1}");
    assert_eq!(assemble_line("null", "\"\"", "null"), "{\"error\":null,\"logs\":\"\",\"result\":null}");
    assert_eq!(assemble_line("", "", ""), "{\"error\":,\"logs\":,\"result\":}");
}

#[test]
fn a_failure_line_is_what_the_serializer_writes() {
    let line = Response::failure("Invalid input JSON: expected value at line 1 column 1".to_owned())
        .to_line()
        .unwrap();
    assert_eq!(
        line,
        "{\"error\":\"Invalid input JSON: expected value at line 1 column 1\",\"logs\":\"\",\"result\":null}"
    );
    assert_eq!(
        line,
        written("", Value::Null, Some("Invalid input JSON: expected value at line 1 column 1"))
    );
}

#[test]
fn strings_in_a_line_are_quoted_and_escaped() {
    let message = "a \"quoted\" \\ back\nnew\ttab \u{1} \u{e9} \u{1f600} '''";
    let line = Response::failure(message.to_owned()).to_line().unwrap();
    assert_eq!(
        line,
        "{\"error\":\"a \\\"quoted\\\" \\\\ back\\nnew\\ttab \\u0001 \u{e9} \u{1f600} '''\",\"logs\":\"\",\"result\":null}"
    );
    assert_eq!(line, written("", Value::Null, Some(message)));
}

#[test]
fn every_character_is_quoted_as_the_serializer_quotes_it() {
    let mut code: u32 = 0;
    while code <= 0x10FFFF {
        if let Some(c) = char::from_u32(code) {
            let text = format!("{}x", c);
            let line = Response { logs: text.clone(), result: None, error: None }.to_line().unwrap();
            let literal = if c == '"' {
                "\"\\\"x\"".to_owned()
            } else if c == '\\' {
                "\"\\\\x\"".to_owned()
            } else if c == '\u{8}' {
                "\"\\bx\"".to_owned()
            } else if c == '\u{c}' {
                "\"\\fx\"".to_owned()
            } else if c == '\n' {
                "\"\\nx\"".to_owned()
            } else if c == '\r' {
                "\"\\rx\"".to_owned()
            } else if c == '\t' {
                "\"\\tx\"".to_owned()
            } else if code < 0x20 {
                format!("\"\\u00{:x}{:x}x\"", code / 16, code % 16)
            } else {
                format!("\"{}x\"", c)
            };
            assert_eq!(line, format!("{{\"error\":null,\"logs\":{},\"result\":null}}", literal));
        }
        code += if code < 0x3000 { 1 } else { 97 };
    }
}

#[test]
fn every_field_of_a_response_is_written() {
    let response = Response {
        logs: "hello\nworld".to_owned(),
        result: Some(serde_json::from_str("{\"b\":[1,2],\"a\":\"x\"}").unwrap()),
        error: None,
    };
    let line = response.to_line().unwrap();
    assert_eq!(line, "{\"error\":null,\"logs\":\"hello\\nworld\",\"result\":{\"a\":\"x\",\"b\":[1,2]}}");
    assert_eq!(
        line,
        written("hello\nworld", serde_json::from_str("{\"b\":[1,2],\"a\":\"x\"}").unwrap(), None)
    );
    let response = Response { logs: String::new(), result: Some(Value::Null), error: None };
    assert_eq!(response.to_line().unwrap(), "{\"error\":null,\"logs\":\"\",\"result\":null}");
}

#[test]
fn a_request_is_prepared_as_its_program() {
    let request = Request { mode: Mode::Test, code: "pass".to_owned(), input: Some(Value::from(41)) };
    assert_eq!(
        prepare("{\"mode\":\"test\",\"code\":\"pass\",\"input\":41}"),
        Ok(request.program())
    );
    let request = Request { mode: Mode::Executor, code: "print(1)".to_owned(), input: None };
    assert_eq!(prepare("{\"code\":\"print(1)\",\"mode\":\"executor\"}"), Ok(request.program()));
}

#[test]
fn a_payload_that_is_no_request_is_prepared_as_a_decode_failure() {
    assert_eq!(
        prepare("[\"executor\", \"print(1)\", null]"),
        Err(ExecutionOutcome::DecodeFailure("Invalid input JSON: missing field `mode`".to_owned()))
    );
    assert_eq!(
        prepare("{\"mode\":\"run\",\"code\":\"x\"}"),
        Err(ExecutionOutcome::DecodeFailure(
            "Invalid input JSON: unknown variant `run`, expected `executor` or `test`".to_owned()
        ))
    );
    let cut = "{\"mode\": \"test\", \"code\": \"def sol";
    let words = serde_json::from_str::<Value>(cut).unwrap_err().to_string();
    assert_eq!(
        prepare(cut),
        Err(ExecutionOutcome::DecodeFailure(format!("Invalid input JSON: {}", words)))
    );
}

#[test]
fn a_run_is_concluded_by_what_the_engine_reports() {
    assert_eq!(conclude(Ok(())), ExecutionOutcome::UserSignaled);
    assert_eq!(
        conclude(Err(Some("invalid syntax".to_owned()))),
        ExecutionOutcome::EngineFailure("invalid syntax".to_owned())
    );
    assert_eq!(conclude(Err(None)), ExecutionOutcome::EngineFailure("Python error".to_owned()));
}
