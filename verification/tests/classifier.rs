use command_bridge::classify::{classify, BridgeError, InvocationResult};

fn invocation(exit_code: i32, stdout: &[u8], stderr: &[u8]) -> InvocationResult {
    InvocationResult { exit_code, stdout: stdout.to_vec(), stderr: stderr.to_vec() }
}

#[test]
fn zero_exit_with_valid_json_is_success_with_parsed_value() {
    let r = classify(invocation(0, b"{\"totals\": {\"count\": 5}}", b""));
    let v = r.expect("valid JSON on a zero exit classifies as success");
    let expected: serde_json::Value =
        serde_json::from_str("{\"totals\": {\"count\": 5}}").unwrap();
    assert_eq!(v, expected);
    assert_eq!(v["totals"]["count"], serde_json::Value::from(5));
}

#[test]
fn nonzero_exit_is_engine_error_with_stderr_text() {
    let r = classify(invocation(1, b"", b"db locked"));
    match r {
        Err(BridgeError::EngineError { stderr_text }) => {
            assert!(stderr_text.contains("db locked"));
            assert_eq!(stderr_text, "db locked");
        }
        other => panic!("expected an engine error, got {:?}", other.is_ok()),
    }
}

#[test]
fn zero_exit_with_invalid_json_is_malformed_output_with_excerpt() {
    let r = classify(invocation(0, b"not json", b""));
    match r {
        Err(BridgeError::MalformedOutput { parse_error, excerpt }) => {
            assert_eq!(excerpt, "not json");
            assert!(!parse_error.is_empty());
        }
        other => panic!("expected malformed output, got {:?}", other.is_ok()),
    }
}

#[test]
fn nonzero_exit_wins_even_if_stdout_is_valid_json() {
    let r = classify(invocation(2, b"{}", b"boom"));
    match r {
        Err(BridgeError::EngineError { stderr_text }) => assert_eq!(stderr_text, "boom"),
        other => panic!("expected an engine error, got {:?}", other.is_ok()),
    }
}

#[test]
fn malformed_output_excerpt_is_bounded() {
    let long = vec![b'x'; 2000];
    let r = classify(invocation(0, &long, b""));
    match r {
        Err(BridgeError::MalformedOutput { excerpt, .. }) => {
            assert_eq!(excerpt.chars().count(), 512);
            assert!(excerpt.chars().all(|c| c == 'x'));
        }
        other => panic!("expected malformed output, got {:?}", other.is_ok()),
    }
}

#[test]
fn invalid_utf8_stderr_is_decoded_lossily() {
    let r = classify(invocation(1, b"", &[0xff, 0xfe, b'o', b'k']));
    match r {
        Err(BridgeError::EngineError { stderr_text }) => {
            assert!(stderr_text.contains('\u{FFFD}'));
            assert!(stderr_text.contains("ok"));
        }
        other => panic!("expected an engine error, got {:?}", other.is_ok()),
    }
}

#[test]
fn messages_combine_kind_and_diagnostic_text() {
    let engine = BridgeError::EngineError { stderr_text: "db locked".to_string() };
    assert_eq!(engine.message(), "engine error: db locked");
    let unavailable = BridgeError::InterpreterUnavailable {
        last_error: "failed to execute uv".to_string(),
    };
    assert_eq!(unavailable.message(), "interpreter unavailable: failed to execute uv");
    let malformed = BridgeError::MalformedOutput {
        parse_error: "expected value at line 1 column 1".to_string(),
        excerpt: "not json".to_string(),
    };
    assert_eq!(
        malformed.message(),
        "malformed output: expected value at line 1 column 1 | output: not json"
    );
}

#[test]
fn empty_stdout_on_zero_exit_is_malformed_output() {
    let r = classify(invocation(0, b"", b""));
    match r {
        Err(BridgeError::MalformedOutput { excerpt, .. }) => assert_eq!(excerpt, ""),
        other => panic!("expected malformed output, got {:?}", other.is_ok()),
    }
}
