use ocpp_client::frames::{
    call_frame, error_frame, new_call, read_frame, result_frame, retry_after, IncomingFrame, SEND_ATTEMPTS,
};
use ocpp_client::json::{parse_json, JsonDocument, JsonItem};

#[test]
fn reads_a_call() {
    let f = read_frame(r#"[2, "abc-1", "BootNotification", {"chargePointVendor": "V"}]"#).unwrap();
    match f {
        IncomingFrame::Call { message_id, action, payload } => {
            assert_eq!(message_id, "abc-1");
            assert_eq!(action, "BootNotification");
            assert_eq!(payload, JsonItem::Nested(r#"{"chargePointVendor":"V"}"#.to_string()));
        }
        other => panic!("unexpected {:?}", other),
    }
}

#[test]
fn reads_a_result_and_an_error() {
    match read_frame(r#"[3, "id7", {"status": "Accepted"}]"#).unwrap() {
        IncomingFrame::CallResult { message_id, payload } => {
            assert_eq!(message_id, "id7");
            assert_eq!(payload, JsonItem::Nested(r#"{"status":"Accepted"}"#.to_string()));
        }
        other => panic!("unexpected {:?}", other),
    }
    match read_frame(r#"[4, "id8", "NotImplemented", "no handler", {}]"#).unwrap() {
        IncomingFrame::CallError { message_id, code, description, details } => {
            assert_eq!(message_id, "id8");
            assert_eq!(code, "NotImplemented");
            assert_eq!(description, "no handler");
            assert_eq!(details, JsonItem::Nested("{}".to_string()));
        }
        other => panic!("unexpected {:?}", other),
    }
}

#[test]
fn bad_frames_are_told_apart() {
    assert_eq!(read_frame("[7, \"x\"]").unwrap(), IncomingFrame::UnknownType(7));
    assert_eq!(read_frame("[2.5, \"x\"]").unwrap(), IncomingFrame::NotInteger);
    assert_eq!(read_frame("[-2, \"x\"]").unwrap(), IncomingFrame::NotInteger);
    assert_eq!(read_frame("[\"2\", \"x\"]").unwrap(), IncomingFrame::FirstNotNumber);
    assert_eq!(read_frame("[]").unwrap(), IncomingFrame::EmptyArray);
    assert_eq!(read_frame("{\"a\": 1}").unwrap(), IncomingFrame::NotArray);
    assert_eq!(read_frame("[2, \"id\"]").unwrap(), IncomingFrame::Malformed(2));
    assert_eq!(read_frame("[3, 5, {}]").unwrap(), IncomingFrame::Malformed(3));
    assert_eq!(read_frame("[4, \"id\", \"c\", \"d\"]").unwrap(), IncomingFrame::Malformed(4));
    assert!(read_frame("[2, ").is_err());
}

#[test]
fn writes_frames_compactly() {
    assert_eq!(call_frame("abc", "Heartbeat", "{}"), r#"[2,"abc","Heartbeat",{}]"#);
    assert_eq!(result_frame("abc", r#"{"status":"Accepted"}"#), r#"[3,"abc",{"status":"Accepted"}]"#);
    assert_eq!(
        error_frame("abc", "InternalError", "went \"wrong\"", "{}"),
        r#"[4,"abc","InternalError","went \"wrong\"",{}]"#
    );
}

#[test]
fn frame_texts_are_escaped() {
    assert_eq!(
        call_frame("a\\b\n\t\r", "x\u{8}\u{c}\u{1}\u{1f}\u{e9}", "{}"),
        "[2,\"a\\\\b\\n\\t\\r\",\"x\\b\\f\\u0001\\u001f\u{e9}\",{}]"
    );
    assert_eq!(result_frame("/\u{7f}", "1"), "[3,\"/\u{7f}\",1]");
}

#[test]
fn written_call_reads_back() {
    let call = new_call("Authorize", r#"{"idTag":"TAG1"}"#);
    assert_eq!(call.message_id.len(), 36);
    let id: Vec<char> = call.message_id.chars().collect();
    for (i, c) in id.iter().enumerate() {
        if [8, 13, 18, 23].contains(&i) {
            assert_eq!(*c, '-');
        } else {
            assert!(c.is_ascii_digit() || ('a'..='f').contains(c));
        }
    }
    assert_eq!(id[14], '4');
    assert!(['8', '9', 'a', 'b'].contains(&id[19]));
    assert!(call.frame.contains(&call.message_id));
    match read_frame(&call.frame).unwrap() {
        IncomingFrame::Call { message_id, action, payload } => {
            assert_eq!(message_id, call.message_id);
            assert_eq!(action, "Authorize");
            assert_eq!(payload, JsonItem::Nested(r#"{"idTag":"TAG1"}"#.to_string()));
        }
        other => panic!("unexpected {:?}", other),
    }
    let other = new_call("Authorize", "{}");
    assert_ne!(other.message_id, call.message_id);
}

#[test]
fn retries_stop_after_the_budget() {
    assert_eq!(SEND_ATTEMPTS, 3);
    assert_eq!(retry_after(3, false), Some(2));
    assert_eq!(retry_after(2, false), Some(1));
    assert_eq!(retry_after(1, false), None);
    assert_eq!(retry_after(3, true), None);
}

#[test]
fn parse_json_takes_documents_apart() {
    let doc = parse_json(r#"{"b": [1, 2], "a": null, "c": true, "d": 18446744073709551615, "e": "x"}"#).unwrap();
    match doc {
        JsonDocument::Object(members) => {
            let get = |k: &str| members.iter().find(|(n, _)| n == k).map(|(_, v)| v.clone()).unwrap();
            assert_eq!(get("a"), JsonItem::Null);
            assert_eq!(get("b"), JsonItem::Nested("[1,2]".to_string()));
            assert_eq!(get("c"), JsonItem::Bool(true));
            assert_eq!(
                get("d"),
                JsonItem::Number { unsigned: Some(u64::MAX), text: "18446744073709551615".to_string() }
            );
            assert_eq!(get("e"), JsonItem::Text("x".to_string()));
        }
        other => panic!("unexpected {:?}", other),
    }
    assert_eq!(
        parse_json("2.0").unwrap(),
        JsonDocument::Scalar(JsonItem::Number { unsigned: None, text: "2.0".to_string() })
    );
    assert!(parse_json("").is_err());
}
