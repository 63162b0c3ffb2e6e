use openai_realtime_proxy::message::{to_downstream, to_upstream, CloseBody, DownMessage, UpMessage};

fn round_trip(m: DownMessage) -> Option<DownMessage> {
    to_downstream(to_upstream(m))
}

#[test]
fn text_round_trip() {
    let m = DownMessage::Text(String::from("hello"));
    assert_eq!(round_trip(m.clone()), Some(m));
}

#[test]
fn binary_round_trip() {
    let m = DownMessage::Binary(vec![0u8, 1, 2, 255]);
    assert_eq!(round_trip(m.clone()), Some(m));
}

#[test]
fn ping_round_trip() {
    let m = DownMessage::Ping(vec![9u8, 9]);
    assert_eq!(round_trip(m.clone()), Some(m));
}

#[test]
fn pong_round_trip() {
    let m = DownMessage::Pong(Vec::new());
    assert_eq!(round_trip(m.clone()), Some(m));
}

#[test]
fn close_with_body_round_trip() {
    let m = DownMessage::Close(Some(CloseBody { code: 1001, reason: String::from("going away") }));
    assert_eq!(round_trip(m.clone()), Some(m));
}

#[test]
fn close_without_body_round_trip() {
    let m = DownMessage::Close(None);
    assert_eq!(round_trip(m.clone()), Some(m));
}

#[test]
fn empty_reason_is_not_absent_body() {
    let with_empty = DownMessage::Close(Some(CloseBody { code: 1000, reason: String::new() }));
    let absent = DownMessage::Close(None);
    let back = round_trip(with_empty.clone());
    assert_eq!(back, Some(with_empty));
    assert_ne!(back, Some(absent));
}

#[test]
fn close_frame_arrives_verbatim() {
    let sent = DownMessage::Close(Some(CloseBody { code: 1000, reason: String::from("bye") }));
    match to_upstream(sent) {
        UpMessage::Close(Some(body)) => {
            assert_eq!(body.code, 1000);
            assert_eq!(body.reason, "bye");
        }
        other => panic!("expected a close frame with a body, got {:?}", other),
    }
}

#[test]
fn raw_frame_is_dropped() {
    assert_eq!(to_downstream(UpMessage::Frame(vec![1u8, 2, 3])), None);
}

#[test]
fn text_maps_to_upstream_text() {
    match to_upstream(DownMessage::Text(String::from("abc"))) {
        UpMessage::Text(s) => assert_eq!(s, "abc"),
        other => panic!("expected a text frame, got {:?}", other),
    }
}
