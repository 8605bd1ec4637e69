use lark_codex_bridge::codex::protocol::decode_line;
use lark_codex_bridge::codex::protocol::encode_line;
use lark_codex_bridge::codex::protocol::InboundMessage;
use lark_codex_bridge::codex::protocol::OutboundMessage;
use lark_codex_bridge::codex::protocol::ProtocolError;
use lark_codex_bridge::codex::protocol::RequestId;
use lark_codex_bridge::codex::protocol::RpcErrorObject;
use lark_codex_bridge::limits::MAX_JSONL_LINE_BYTES;
use serde_json::Value;

fn decode(text: &str) -> Result<InboundMessage, ProtocolError> {
    decode_line(text.as_bytes(), false)
}

#[test]
fn envelopes_are_told_apart() {
    assert!(matches!(
        decode("{\"id\":1,\"result\":null}"),
        Ok(InboundMessage::Response {
            id: RequestId::Integer(1),
            result: Value::Null
        })
    ));
    assert!(matches!(
        decode("{\"id\":\"a\",\"method\":\"m\",\"params\":{}}"),
        Ok(InboundMessage::Request { params: Some(_), .. })
    ));
    assert!(matches!(
        decode("{\"method\":\"m\"}"),
        Ok(InboundMessage::Notification { params: None, .. })
    ));
    assert!(matches!(
        decode("{\"id\":1,\"error\":{\"code\":-1,\"message\":\"no\"}}"),
        Ok(InboundMessage::ErrorResponse { .. })
    ));
}

#[test]
fn mixed_envelopes_are_refused() {
    for text in [
        "{\"id\":1,\"result\":1,\"error\":{\"code\":1,\"message\":\"m\"}}",
        "{\"id\":1}",
        "{}",
        "{\"method\":\"\"}",
        "{\"id\":1,\"error\":null}",
    ] {
        assert!(matches!(decode(text), Err(ProtocolError::InvalidEnvelope(_))));
    }
    assert!(matches!(decode("{"), Err(ProtocolError::InvalidJson)));
}

#[test]
fn a_written_message_is_read_back() {
    let line = encode_line(&OutboundMessage::Request {
        id: RequestId::String("one".to_owned()),
        method: "thread/list".to_owned(),
        params: Some(Value::Bool(true)),
    })
    .ok()
    .expect("within the bound");
    assert_eq!(
        line,
        b"{\"id\":\"one\",\"method\":\"thread/list\",\"params\":true}\n".to_vec()
    );
    let text = String::from_utf8(line).expect("text");
    let message = decode(&text).ok().expect("a message");
    assert!(matches!(
        message,
        InboundMessage::Request {
            params: Some(Value::Bool(true)),
            ..
        }
    ));
}

#[test]
fn long_records_are_refused() {
    let line = vec![b'x'; MAX_JSONL_LINE_BYTES + 2];
    assert!(matches!(
        decode_line(&line, false),
        Err(ProtocolError::LineTooLong { .. })
    ));
}

#[test]
fn messages_are_shown_without_content() {
    let error = RpcErrorObject {
        code: -32000,
        message: "private".to_owned(),
        data: None,
    };
    assert_eq!(
        error.debug_text(),
        "RpcErrorObject { code: -32000, message: \"[redacted]\", has_data: false }"
    );
    let response = OutboundMessage::ErrorResponse {
        id: RequestId::Integer(7),
        error,
    };
    assert_eq!(
        response.debug_text(),
        "ErrorResponse { id: Integer(7), error: RpcErrorObject { code: -32000, message: \"[redacted]\", has_data: false } }"
    );
    let request = InboundMessage::Request {
        id: RequestId::String("a\"b".to_owned()),
        method: "m".to_owned(),
        params: Some(Value::Null),
    };
    assert_eq!(
        request.debug_text(),
        "Request { id: String(\"a\\\"b\"), method: \"m\", has_params: true }"
    );
}

#[test]
fn a_line_holds_one_line_feed_and_reads_back() {
    let message = OutboundMessage::Notification {
        method: "turn\nstarted".to_owned(),
        params: None,
    };
    let line = encode_line(&message).ok().expect("within the bound");
    assert_eq!(line.iter().filter(|byte| **byte == b'\n').count(), 1);
    assert_eq!(line.last(), Some(&b'\n'));
    match decode_line(&line, false) {
        Ok(InboundMessage::Notification { method, params }) => {
            assert_eq!(method, "turn\nstarted");
            assert_eq!(params, None);
        }
        _ => panic!("a notification was written"),
    }
    let explicit = encode_line(&OutboundMessage::Notification {
        method: "m".to_owned(),
        params: Some(Value::Null),
    })
    .ok()
    .expect("within the bound");
    match decode_line(&explicit, false) {
        Ok(InboundMessage::Notification { params, .. }) => assert_eq!(params, Some(Value::Null)),
        _ => panic!("a notification was written"),
    }
}

#[test]
fn values_nest_as_deep_as_they_are_read() {
    let nested = |depth: usize| {
        let mut value = Value::from(7);
        for _ in 0..depth {
            value = Value::Array(vec![value]);
        }
        OutboundMessage::Response {
            id: RequestId::Integer(1),
            result: value,
        }
    };
    let deep = encode_line(&nested(126)).ok().expect("within the bound");
    assert!(matches!(
        decode_line(&deep, false),
        Ok(InboundMessage::Response { .. })
    ));
    let deeper = encode_line(&nested(127)).ok().expect("within the bound");
    assert!(matches!(
        decode_line(&deeper, false),
        Err(ProtocolError::InvalidJson)
    ));
}

#[test]
fn ambiguous_and_foreign_records_are_refused() {
    let line = b"{\"id\":1,\"id\":2,\"result\":null}";
    assert!(matches!(
        decode_line(line, true),
        Err(ProtocolError::InvalidJson)
    ));
    assert!(matches!(decode("[]"), Err(ProtocolError::ExpectedObject)));
    assert!(matches!(decode(""), Err(ProtocolError::InvalidJson)));
    assert!(matches!(decode("{} {}"), Err(ProtocolError::InvalidJson)));
    assert!(matches!(
        decode("{\"method\":\"m\",\"extra\":[1]}\r\n"),
        Ok(InboundMessage::Notification { .. })
    ));
}
