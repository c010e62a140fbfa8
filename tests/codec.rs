use bybit_ws::{
    assemble_request, kind_from_members, build_auth, build_request, build_subscribe, build_unsubscribe, classify, is_acknowledgement_frame,
    orderbook_topic, topic, FrameKind,
};

fn strings(v: &[&str]) -> Vec<String> {
    v.iter().map(|s| s.to_string()).collect()
}

#[test]
fn subscribe_request_for_one_topic() {
    let r = build_subscribe(&strings(&["trade.ETHUSDT"]));
    assert_eq!(r, r#"{"op":"subscribe","args":["trade.ETHUSDT"]}"#);
}

#[test]
fn subscribe_request_keeps_duplicates_in_order() {
    let r = build_subscribe(&strings(&["a", "b", "a"]));
    assert_eq!(r, r#"{"op":"subscribe","args":["a","b","a"]}"#);
}

#[test]
fn subscribe_request_without_topics() {
    assert_eq!(build_subscribe(&Vec::new()), r#"{"op":"subscribe","args":[]}"#);
}

#[test]
fn unsubscribe_request() {
    let r = build_unsubscribe(&strings(&["orderbook.1.BTCUSDT", "tickers.BTCUSDT"]));
    assert_eq!(r, r#"{"op":"unsubscribe","args":["orderbook.1.BTCUSDT","tickers.BTCUSDT"]}"#);
}

#[test]
fn auth_request_carries_the_credential() {
    assert_eq!(build_auth("k-e-sig"), r#"{"op":"auth","args":["k-e-sig"]}"#);
}

#[test]
fn request_arguments_are_escaped() {
    let r = build_request("subscribe", &strings(&["a\"b\\c"]));
    assert_eq!(r, r#"{"op":"subscribe","args":["a\"b\\c"]}"#);
}

#[test]
fn orderbook_topic_is_composed() {
    assert_eq!(orderbook_topic("50", "ETHUSDT"), "orderbook.50.ETHUSDT");
}

#[test]
fn subscribe_ack_is_classified() {
    assert_eq!(classify(r#"{"success":true,"op":"subscribe"}"#), FrameKind::SubscribeAck);
    assert_eq!(classify(r#"{"success":true,"op":"unsubscribe","conn_id":"x"}"#), FrameKind::SubscribeAck);
    assert!(is_acknowledgement_frame(r#"{"success":true,"op":"subscribe"}"#));
}

#[test]
fn auth_ack_is_classified() {
    assert_eq!(classify(r#"{"success":true,"ret_msg":"","op":"auth","conn_id":"c"}"#), FrameKind::AuthAck);
}

#[test]
fn pong_reply_is_classified_and_no_acknowledgement() {
    assert_eq!(classify(r#"{"success":true,"ret_msg":"pong","op":"ping"}"#), FrameKind::PongReply);
    assert_eq!(classify(r#"{"op":"pong","args":["1"]}"#), FrameKind::PongReply);
    assert!(!is_acknowledgement_frame(r#"{"op":"pong","args":["1"]}"#));
}

#[test]
fn auth_ack_is_an_acknowledgement() {
    assert!(is_acknowledgement_frame(r#"{"success":true,"op":"auth"}"#));
}

#[test]
fn control_characters_are_escaped() {
    let r = build_request("subscribe", &strings(&["a\nb\u{1}c\td\u{1f}"]));
    assert_eq!(r, r#"{"op":"subscribe","args":["a\nb\u0001c\td\u001f"]}"#);
    let r = build_auth("\u{8}\u{c}\r\u{7f}é");
    assert_eq!(r, "{\"op\":\"auth\",\"args\":[\"\\b\\f\\r\u{7f}é\"]}");
}

#[test]
fn data_frame_is_classified() {
    let t = r#"{"topic":"orderbook.50.ETHUSDT","type":"snapshot","data":{"s":"ETHUSDT"}}"#;
    assert_eq!(classify(t), FrameKind::Data);
    assert!(!is_acknowledgement_frame(t));
}

#[test]
fn data_mentioning_subscribe_is_not_a_control_reply() {
    let t = r#"{"topic":"subscribe.auth","data":{"note":"subscribe auth"}}"#;
    assert_eq!(classify(t), FrameKind::Data);
    assert!(!is_acknowledgement_frame(t));
}

#[test]
fn unknown_frames_are_unrecognized() {
    assert_eq!(classify("not json"), FrameKind::Unrecognized);
    assert_eq!(classify(""), FrameKind::Unrecognized);
    assert_eq!(classify(r#"{"op":"order"}"#), FrameKind::Unrecognized);
    assert_eq!(classify(r#"{"op":1,"topic":"x"}"#), FrameKind::Data);
    assert_eq!(classify(r#"["subscribe"]"#), FrameKind::Unrecognized);
    assert_eq!(classify(r#"{"data":{}}"#), FrameKind::Unrecognized);
    assert!(!is_acknowledgement_frame(r#"{"data":{}}"#));
}

#[test]
fn topic_of_a_data_frame() {
    let t = r#"{"topic":"orderbook.50.ETHUSDT","data":{}}"#;
    assert_eq!(topic(t), Some("orderbook.50.ETHUSDT".to_string()));
    assert_eq!(topic(r#"{"op":"subscribe"}"#), None);
    assert_eq!(topic("{"), None);
}

#[test]
fn request_is_assembled_from_encoded_pieces() {
    let r = assemble_request("\"subscribe\"", &strings(&["\"a\"", "\"b\""]));
    assert_eq!(r, r#"{"op":"subscribe","args":["a","b"]}"#);
    assert_eq!(assemble_request("\"auth\"", &Vec::new()), r#"{"op":"auth","args":[]}"#);
}

#[test]
fn kind_follows_the_members() {
    let s = |t: &str| Some(t.to_string());
    assert_eq!(kind_from_members(&s("subscribe"), &None), FrameKind::SubscribeAck);
    assert_eq!(kind_from_members(&s("unsubscribe"), &s("x")), FrameKind::SubscribeAck);
    assert_eq!(kind_from_members(&s("auth"), &None), FrameKind::AuthAck);
    assert_eq!(kind_from_members(&s("ping"), &None), FrameKind::PongReply);
    assert_eq!(kind_from_members(&s("pong"), &None), FrameKind::PongReply);
    assert_eq!(kind_from_members(&s("order"), &s("x")), FrameKind::Unrecognized);
    assert_eq!(kind_from_members(&None, &s("trade.ETHUSDT")), FrameKind::Data);
    assert_eq!(kind_from_members(&None, &None), FrameKind::Unrecognized);
}
