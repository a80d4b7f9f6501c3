use botstream::json::JsonMsg;
use serde_json::Value;

#[test]
fn candidate_text_escapes_what_json_reserves() {
    let message = JsonMsg::Ice {
        candidate: "a\"b\\c\u{1}\u{1f}\u{8}\t\n\u{c}\r/\u{7f}é".to_string(),
        sdp_mline_index: 4294967295,
    };
    assert_eq!(
        message.encode(),
        "{\"ice\":{\"candidate\":\"a\\\"b\\\\c\\u0001\\u001f\\b\\t\\n\\f\\r/\u{7f}é\",\
         \"sdpMLineIndex\":4294967295}}"
    );
}

#[test]
fn description_text() {
    let message = JsonMsg::Sdp { type_: "offer".to_string(), sdp: "v=0\r\n".to_string() };
    assert_eq!(message.encode(), "{\"sdp\":{\"type\":\"offer\",\"sdp\":\"v=0\\r\\n\"}}");
}

#[test]
fn free_text() {
    let message = JsonMsg::Msg { msg: String::new() };
    assert_eq!(message.encode(), "{\"msg\":{\"msg\":\"\"}}");
}

#[test]
fn every_control_character_is_read_back() {
    let all: String = (0u32..0x100).map(|c| char::from_u32(c).unwrap()).collect();
    let message = JsonMsg::Sdp { type_: all.clone(), sdp: all.clone() };
    let value: Value = serde_json::from_str(&message.encode()).unwrap();
    assert_eq!(value["sdp"]["type"], Value::String(all.clone()));
    assert_eq!(value["sdp"]["sdp"], Value::String(all));
    assert_eq!(value.as_object().unwrap().len(), 1);
    assert_eq!(value["sdp"].as_object().unwrap().len(), 2);
}

#[test]
fn index_is_read_back() {
    for index in [0u32, 9, 10, 99, 100, 65535, u32::MAX] {
        let message = JsonMsg::Ice { candidate: "c".to_string(), sdp_mline_index: index };
        let value: Value = serde_json::from_str(&message.encode()).unwrap();
        assert_eq!(value["ice"]["sdpMLineIndex"].as_u64(), Some(u64::from(index)));
        assert_eq!(value["ice"]["candidate"].as_str(), Some("c"));
    }
}

#[test]
fn different_messages_have_different_texts() {
    let text = |s: &str| s.to_string();
    let messages = [
        JsonMsg::Ice { candidate: text("a"), sdp_mline_index: 1 },
        JsonMsg::Ice { candidate: text("a"), sdp_mline_index: 11 },
        JsonMsg::Sdp { type_: text("a"), sdp: text("b") },
        JsonMsg::Sdp { type_: text("a\",\"sdp\":\"b"), sdp: text("") },
        JsonMsg::Sdp { type_: text(""), sdp: text("a\",\"sdp\":\"b") },
        JsonMsg::Msg { msg: text("a") },
        JsonMsg::Msg { msg: text("\\u0061") },
    ];
    for i in 0..messages.len() {
        for j in 0..messages.len() {
            assert_eq!(messages[i].encode() == messages[j].encode(), i == j);
        }
    }
}
