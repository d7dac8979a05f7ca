use playground_websocket::error::{
    job_result, CoordinatorManagerError, ExecuteError, SessionError,
};
use playground_websocket::json::{create_server_meta, encode_string, encode_value, Meta};
use playground_websocket::message::{
    encode_response, error_to_response, frame_message, response_to_message, text_to_send,
    ExecuteResponse, FeatureFlags, MessageResponse, WSError, LAST_CHANCE_ERROR,
};
use serde_json::Value;
use std::sync::Arc;

fn meta() -> Meta {
    Arc::new(Value::from_iter([("sequenceNumber", 42)]))
}

#[test]
fn server_meta_is_minus_one() {
    let value: &Value = &create_server_meta();
    assert_eq!(value, &Value::from_iter([("sequenceNumber", -1)]));
    assert_eq!(encode_value(value).unwrap(), r#"{"sequenceNumber":-1}"#);
}

#[test]
fn strings_are_quoted_and_escaped() {
    assert_eq!(encode_string("plain").unwrap(), "\"plain\"");
    assert_eq!(encode_string("a\"b\\c\n").unwrap(), "\"a\\\"b\\\\c\\n\"");
    assert_eq!(encode_string("").unwrap(), "\"\"");
    assert_eq!(encode_string("\u{1}é").unwrap(), "\"\\u0001é\"");
}

#[test]
fn values_are_written_compactly() {
    assert_eq!(encode_value(&Value::Null).unwrap(), "null");
    let parsed: Value = serde_json::from_str("{ \"b\" : [1, 2.5], \"a\" : true }").unwrap();
    assert_eq!(encode_value(&parsed).unwrap(), r#"{"a":true,"b":[1,2.5]}"#);
}

#[test]
fn error_message_text() {
    let text = response_to_message(MessageResponse::Error {
        payload: WSError { error: "say \"no\"".to_string() },
        meta: meta(),
    });
    assert_eq!(
        text,
        r#"{"type":"websocket/error","payload":{"error":"say \"no\""},"meta":{"sequenceNumber":42}}"#
    );
}

#[test]
fn feature_flags_text() {
    let with = response_to_message(MessageResponse::FeatureFlags {
        payload: FeatureFlags { execute_via_websocket_threshold: Some(Value::from(0.25)) },
        meta: create_server_meta(),
    });
    assert_eq!(
        with,
        r#"{"type":"featureFlags","payload":{"executeViaWebsocketThreshold":0.25},"meta":{"sequenceNumber":-1}}"#
    );
    let without = response_to_message(MessageResponse::FeatureFlags {
        payload: FeatureFlags { execute_via_websocket_threshold: None },
        meta: create_server_meta(),
    });
    assert_eq!(
        without,
        r#"{"type":"featureFlags","payload":{"executeViaWebsocketThreshold":null},"meta":{"sequenceNumber":-1}}"#
    );
}

#[test]
fn execution_texts() {
    assert_eq!(
        response_to_message(MessageResponse::ExecuteBegin { meta: meta() }),
        r#"{"type":"output/execute/wsExecuteBegin","meta":{"sequenceNumber":42}}"#
    );
    assert_eq!(
        response_to_message(MessageResponse::ExecuteStdout {
            payload: "Hello\n".to_string(),
            meta: meta()
        }),
        r#"{"type":"output/execute/wsExecuteStdout","payload":"Hello\n","meta":{"sequenceNumber":42}}"#
    );
    assert_eq!(
        response_to_message(MessageResponse::ExecuteStderr {
            payload: "oh".to_string(),
            meta: meta()
        }),
        r#"{"type":"output/execute/wsExecuteStderr","payload":"oh","meta":{"sequenceNumber":42}}"#
    );
    for (success, word) in [(true, "true"), (false, "false")] {
        assert_eq!(
            response_to_message(MessageResponse::ExecuteEnd {
                payload: ExecuteResponse { success },
                meta: meta()
            }),
            format!(
                r#"{{"type":"output/execute/wsExecuteEnd","payload":{{"success":{word}}},"meta":{{"sequenceNumber":42}}}}"#
            )
        );
    }
}

#[test]
fn message_text_is_json_with_its_parts() {
    let response = MessageResponse::ExecuteStdout { payload: "\u{0}\t\"".to_string(), meta: meta() };
    let text = encode_response(&response).unwrap();
    let value: Value = serde_json::from_str(&text).unwrap();
    assert_eq!(value["type"], "output/execute/wsExecuteStdout");
    assert_eq!(value["payload"], "\u{0}\t\"");
    assert_eq!(value["meta"], *meta());
}

#[test]
fn output_survives_encoding() {
    let mut control: String = (0u8..128).map(char::from).collect();
    control.push_str("\u{7f}\u{80}é\u{2028}\u{1f980}");
    for payload in [control, "".to_string(), "\\\"\\u0041".to_string(), "}\",\"meta\":1".to_string()]
    {
        for stdout in [true, false] {
            let payload = payload.clone();
            let (tag, response) = if stdout {
                (
                    "output/execute/wsExecuteStdout",
                    MessageResponse::ExecuteStdout { payload: payload.clone(), meta: meta() },
                )
            } else {
                (
                    "output/execute/wsExecuteStderr",
                    MessageResponse::ExecuteStderr { payload: payload.clone(), meta: meta() },
                )
            };
            let value: Value = serde_json::from_str(&response_to_message(response)).unwrap();
            let members = value.as_object().unwrap();
            assert_eq!(members.len(), 3);
            assert_eq!(members["type"], tag);
            assert_eq!(members["payload"], payload);
            assert_eq!(members["meta"], *meta());
        }
    }
}

#[test]
fn every_escape_is_written_as_stated() {
    assert_eq!(
        encode_string("\u{8}\t\n\u{c}\r\"\\/\u{0}\u{1f}\u{b}\u{7f}").unwrap(),
        "\"\\b\\t\\n\\f\\r\\\"\\\\/\\u0000\\u001f\\u000b\u{7f}\""
    );
}

#[test]
fn every_value_can_be_written() {
    let mut deep = Value::Null;
    for _ in 0..200 {
        deep = Value::from(vec![deep]);
    }
    assert_eq!(encode_value(&deep).unwrap().len(), 404);
    for (value, text) in [
        (Value::from(i64::MIN), "-9223372036854775808"),
        (Value::from(u64::MAX), "18446744073709551615"),
        (Value::from(1e300), "1e+300"),
        (Value::from(f64::NAN), "null"),
        (Value::from_iter([("", true), ("\"\n", false)]), r#"{"":true,"\"\n":false}"#),
    ] {
        assert_eq!(encode_value(&value).unwrap(), text);
        assert_eq!(
            response_to_message(MessageResponse::ExecuteBegin { meta: Arc::new(value) }),
            format!(r#"{{"type":"output/execute/wsExecuteBegin","meta":{text}}}"#)
        );
    }
}

#[test]
fn frame_puts_the_parts_in_order() {
    assert_eq!(
        frame_message("t", &Some("1".to_string()), "{}"),
        r#"{"type":"t","payload":1,"meta":{}}"#
    );
    assert_eq!(frame_message("t", &None, "null"), r#"{"type":"t","meta":null}"#);
}

#[test]
fn last_chance_takes_the_place_of_a_missing_text() {
    assert_eq!(text_to_send(Some("x".to_string())), "x");
    assert_eq!(text_to_send(None), LAST_CHANCE_ERROR);
    assert_eq!(
        LAST_CHANCE_ERROR,
        r#"{ "type": "WEBSOCKET_ERROR", "error": "Unable to serialize JSON" }"#
    );
}

#[test]
fn errors_become_messages_without_a_request() {
    match error_to_response("broken".to_string()) {
        MessageResponse::Error { payload, meta } => {
            assert_eq!(payload.error, "broken");
            assert_eq!(*meta, *create_server_meta());
        }
        other => panic!("{other:?}"),
    }
}

#[test]
fn coordinator_errors_are_worded() {
    let source = "docker".to_string();
    assert_eq!(
        CoordinatorManagerError::New { source: source.clone() }.message(),
        "Could not create the coordinator"
    );
    assert_eq!(
        CoordinatorManagerError::OutstandingCoordinator.message(),
        "The coordinator is still referenced and cannot be shut down"
    );
    assert_eq!(
        CoordinatorManagerError::Shutdown { source }.message(),
        "Could not shut down the coordinator"
    );
}

#[test]
fn execute_errors_are_worded() {
    assert_eq!(
        ExecuteError::BadRequest { inner: "no such channel".to_string() }.message(),
        "The request could not be parsed: no such channel"
    );
    assert_eq!(
        ExecuteError::Begin { source: "x".to_string() }.message(),
        "Could not begin the execution session"
    );
    assert_eq!(
        ExecuteError::End { source: "x".to_string() }.message(),
        "Could not end the execution session"
    );
}

#[test]
fn job_result_wraps_the_execution_error() {
    assert!(job_result(Ok(())).is_ok());
    match job_result(Err(ExecuteError::Begin { source: "x".to_string() })) {
        Err(SessionError::StreamingExecute { source: ExecuteError::Begin { source } }) => {
            assert_eq!(source, "x")
        }
        other => panic!("{other:?}"),
    }
}
