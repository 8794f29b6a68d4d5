use std::collections::HashMap;

use marketstore_client::codec::{classify, encode_subscribe, Decoded};
use marketstore_client::error::MarketStoreError;
use marketstore_client::models::{ErrorMessage, StreamPayload, SubscribeMessage};
use marketstore_client::pattern::is_valid_stream_format;
use marketstore_client::requests::StreamSubscription;
use marketstore_client::session::{
    Action, CloseFrame, ConnectionState, Event, Inbound, LoopState, Outbound, Phase, Session,
    NORMAL_CLOSURE,
};

#[test]
fn test_valid_stream_format() {
    let valid_streams = vec![
        "BTCUSDT/1Min/OHLCV",
        "ETHUSDT/1H/OHLCV",
        "AAPL/1D/OHLCV",
        "*/1Min/OHLCV",
        "BTCUSDT/*/OHLCV",
        "BTCUSDT/1Min/*",
    ];

    for stream in valid_streams {
        assert!(is_valid_stream_format(stream), "Stream {} should be valid", stream);
    }
}

#[test]
fn test_invalid_stream_format() {
    let invalid_streams = vec![
        "BTCUSDT",
        "BTCUSDT/1Min",
        "BTCUSDT//OHLCV",
        "/1Min/OHLCV",
        "BTCUSDT/1Min/",
        "BTCUSDT/1Min/OHLCV/extra",
    ];

    for stream in invalid_streams {
        assert!(!is_valid_stream_format(stream), "Stream {} should be invalid", stream);
    }
}

#[test]
fn pattern_edge_cases() {
    assert!(!is_valid_stream_format(""));
    assert!(!is_valid_stream_format("//"));
    assert!(is_valid_stream_format("*/*/*"));
    assert!(is_valid_stream_format("a/b/c"));
    assert!(!is_valid_stream_format("a/b//c"));
}

fn decode_streams(bytes: &[u8]) -> Vec<String> {
    let (streams,): (Vec<String>,) = rmp_serde::from_slice(bytes).unwrap();
    streams
}

#[test]
fn test_subscribe_message_serialization() {
    let message = SubscribeMessage {
        streams: vec!["BTCUSDT/1Min/OHLCV".to_string(), "ETHUSDT/1Min/OHLCV".to_string()],
    };

    let msgpack_data = encode_subscribe(&message).unwrap();
    let deserialized = decode_streams(&msgpack_data);

    assert_eq!(message.streams, deserialized);
}

#[test]
fn subscribe_round_trip_keeps_order() {
    let message =
        SubscribeMessage { streams: vec!["A/1Min/OHLCV".to_string(), "B/1H/TICK".to_string()] };
    let bytes = encode_subscribe(&message).unwrap();
    assert_eq!(decode_streams(&bytes), vec!["A/1Min/OHLCV".to_string(), "B/1H/TICK".to_string()]);
    // A one-element array holding an array of two strings.
    assert_eq!(bytes[0], 0x91);
    assert_eq!(bytes[1], 0x92);
}

#[test]
fn subscribe_frame_of_no_patterns() {
    let bytes = encode_subscribe(&SubscribeMessage { streams: Vec::new() }).unwrap();
    assert_eq!(bytes, vec![0x91, 0x90]);
}

fn payload(key: &str, close: f64) -> StreamPayload {
    let mut data = HashMap::new();
    data.insert("epoch".to_string(), serde_json::Value::from(1640995200i64));
    data.insert("open".to_string(), serde_json::Value::from(100.0));
    data.insert("high".to_string(), serde_json::Value::from(101.0));
    data.insert("low".to_string(), serde_json::Value::from(99.0));
    data.insert("close".to_string(), serde_json::Value::from(close));
    data.insert("volume".to_string(), serde_json::Value::from(1000.0));
    StreamPayload { key: key.to_string(), data }
}

#[test]
fn test_stream_payload_creation() {
    let payload = payload("BTCUSDT/1Min/OHLCV", 100.5);

    assert_eq!(payload.key, "BTCUSDT/1Min/OHLCV");
    assert_eq!(payload.data.len(), 6);
    assert_eq!(payload.data["close"], serde_json::Value::from(100.5));
}

#[test]
fn classification_priority() {
    let echo = SubscribeMessage { streams: vec!["A/1Min/OHLCV".to_string()] };
    let notice = ErrorMessage { error: "Invalid stream format".to_string() };
    match classify(Some(payload("K", 1.0)), Some(echo.clone()), Some(notice.clone())) {
        Decoded::DataPayload(p) => assert_eq!(p.key, "K"),
        other => panic!("unexpected {:?}", other),
    }
    match classify(None, Some(echo), Some(notice.clone())) {
        Decoded::SubscribeEcho(m) => assert_eq!(m.streams, vec!["A/1Min/OHLCV".to_string()]),
        other => panic!("unexpected {:?}", other),
    }
    match classify(None, None, Some(notice)) {
        Decoded::ErrorNotice(n) => assert_eq!(n.error, "Invalid stream format"),
        other => panic!("unexpected {:?}", other),
    }
    assert!(matches!(classify(None, None, None), Decoded::Undecodable));
}

fn opened(patterns: &[&str]) -> (Session, Action) {
    let mut subscription = StreamSubscription::new();
    for p in patterns {
        subscription = subscription.add_stream(p);
    }
    Session::open(&subscription)
}

fn listening() -> Session {
    let (mut session, _) = opened(&["BTCUSDT/1Min/OHLCV"]);
    assert!(matches!(session.step(Event::Sent), Action::Receive));
    session
}

#[test]
fn open_sends_the_subscribe_frame_first() {
    let (session, action) = opened(&["A/1Min/OHLCV", "B/1H/TICK"]);
    assert_eq!(session.phase(), Phase::Subscribing);
    assert_eq!(session.connection_state(), ConnectionState::Open);
    match action {
        Action::Send(Outbound::Binary(bytes)) => {
            assert_eq!(decode_streams(&bytes), vec!["A/1Min/OHLCV", "B/1H/TICK"]);
        }
        other => panic!("unexpected {:?}", other),
    }
}

#[test]
fn empty_subscription_is_a_valid_session() {
    let (mut session, action) = opened(&[]);
    match action {
        Action::Send(Outbound::Binary(bytes)) => assert!(decode_streams(&bytes).is_empty()),
        other => panic!("unexpected {:?}", other),
    }
    assert!(matches!(session.step(Event::Sent), Action::Receive));
    assert_eq!(session.loop_state(), LoopState::Running);
}

#[test]
fn failed_subscribe_send_is_fatal() {
    let (mut session, _) = opened(&["A/1Min/OHLCV"]);
    match session.step(Event::SendFailed("broken pipe".to_string())) {
        Action::Finish(Err(MarketStoreError::WebSocket(m))) => assert_eq!(m, "broken pipe"),
        other => panic!("unexpected {:?}", other),
    }
    assert!(session.is_terminated());
}

fn data_frame(key: &str) -> Event {
    Event::Received(Inbound::Binary(Decoded::DataPayload(payload(key, 1.0))))
}

#[test]
fn payloads_are_delivered_in_arrival_order() {
    let mut session = listening();
    let mut keys = Vec::new();
    for key in ["first", "second", "third"] {
        match session.step(data_frame(key)) {
            Action::Deliver(p) => keys.push(p.key),
            other => panic!("unexpected {:?}", other),
        }
        assert_eq!(session.phase(), Phase::Dispatching);
        // A failing handler does not end the session.
        assert!(matches!(session.step(Event::HandlerReturned), Action::Receive));
    }
    assert_eq!(keys, vec!["first", "second", "third"]);
}

#[test]
fn other_frames_are_passed_over() {
    let mut session = listening();
    let frames = vec![
        Event::Received(Inbound::Text("hello".to_string())),
        Event::Received(Inbound::Pong(vec![1])),
        Event::Received(Inbound::Raw),
        Event::Received(Inbound::Binary(Decoded::SubscribeEcho(SubscribeMessage {
            streams: Vec::new(),
        }))),
        Event::Received(Inbound::Binary(Decoded::ErrorNotice(ErrorMessage {
            error: "bad".to_string(),
        }))),
    ];
    for frame in frames {
        assert!(matches!(session.step(frame), Action::Receive));
        assert_eq!(session.phase(), Phase::Listening);
    }
}

#[test]
fn random_bytes_are_undecodable_and_skipped() {
    let bytes: Vec<u8> = vec![0xc1, 0xff, 0x00, 0x13, 0x37];
    let as_payload: Option<(String, HashMap<String, serde_json::Value>)> =
        rmp_serde::from_slice(&bytes).ok();
    let as_echo: Option<(Vec<String>,)> = rmp_serde::from_slice(&bytes).ok();
    let as_notice: Option<(String,)> = rmp_serde::from_slice(&bytes).ok();
    assert!(as_payload.is_none() && as_echo.is_none() && as_notice.is_none());
    let decoded = classify(None, None, None);
    assert!(matches!(decoded, Decoded::Undecodable));
    let mut session = listening();
    assert!(matches!(session.step(Event::Received(Inbound::Binary(decoded))), Action::Receive));
    assert!(!session.is_terminated());
    assert!(matches!(session.step(data_frame("after")), Action::Deliver(_)));
}

#[test]
fn ping_is_answered_before_the_next_read() {
    let mut session = listening();
    match session.step(Event::Received(Inbound::Ping(Vec::new()))) {
        Action::Send(Outbound::Pong(data)) => assert!(data.is_empty()),
        other => panic!("unexpected {:?}", other),
    }
    assert_eq!(session.phase(), Phase::Answering);
    assert!(matches!(session.step(Event::Sent), Action::Receive));
    assert_eq!(session.phase(), Phase::Listening);
}

#[test]
fn failed_pong_is_fatal() {
    let mut session = listening();
    session.step(Event::Received(Inbound::Ping(vec![7])));
    match session.step(Event::SendFailed("closed".to_string())) {
        Action::Finish(Err(MarketStoreError::WebSocket(m))) => assert_eq!(m, "closed"),
        other => panic!("unexpected {:?}", other),
    }
    assert_eq!(session.connection_state(), ConnectionState::Closed);
}

#[test]
fn cancel_before_any_frame_ends_cleanly() {
    let mut session = listening();
    match session.step(Event::Cancelled) {
        Action::Send(Outbound::Close(Some(frame))) => {
            assert_eq!(frame.code, NORMAL_CLOSURE);
            assert_eq!(frame.code, 1000);
            assert_eq!(frame.reason, "Normal closure");
        }
        other => panic!("unexpected {:?}", other),
    }
    assert_eq!(session.connection_state(), ConnectionState::ClosingLocal);
    assert_eq!(session.loop_state(), LoopState::Draining);
    assert!(matches!(session.step(Event::Sent), Action::AwaitCloseEcho));
    let close = Event::Received(Inbound::Close(Some(CloseFrame {
        code: 1000,
        reason: "bye".to_string(),
    })));
    assert!(matches!(session.step(close), Action::Finish(Ok(()))));
    assert!(session.is_terminated());
}

#[test]
fn unanswered_close_times_out_cleanly() {
    let mut session = listening();
    session.step(Event::Cancelled);
    session.step(Event::Sent);
    // Frames other than a close frame do not end the wait, nor are they delivered.
    assert!(matches!(session.step(data_frame("late")), Action::AwaitCloseEcho));
    assert!(matches!(
        session.step(Event::Received(Inbound::Ping(Vec::new()))),
        Action::AwaitCloseEcho
    ));
    assert!(matches!(session.step(Event::TimedOut), Action::Finish(Ok(()))));
    assert_eq!(session.connection_state(), ConnectionState::Closed);
}

#[test]
fn read_error_during_close_wait_ends_cleanly() {
    let mut session = listening();
    session.step(Event::Cancelled);
    session.step(Event::Sent);
    assert!(matches!(
        session.step(Event::ReceiveFailed("reset".to_string())),
        Action::Finish(Ok(()))
    ));
}

#[test]
fn failed_close_frame_is_fatal() {
    let mut session = listening();
    session.step(Event::Cancelled);
    assert!(matches!(
        session.step(Event::SendFailed("gone".to_string())),
        Action::Finish(Err(MarketStoreError::WebSocket(_)))
    ));
}

#[test]
fn peer_close_is_echoed() {
    let mut session = listening();
    let frame = CloseFrame { code: 1001, reason: "going away".to_string() };
    match session.step(Event::Received(Inbound::Close(Some(frame)))) {
        Action::Send(Outbound::Close(Some(echo))) => {
            assert_eq!(echo.code, 1001);
            assert_eq!(echo.reason, "going away");
        }
        other => panic!("unexpected {:?}", other),
    }
    assert_eq!(session.connection_state(), ConnectionState::ClosingRemote);
    assert!(matches!(session.step(Event::Sent), Action::Finish(Ok(()))));
}

#[test]
fn bare_peer_close_gets_a_bare_echo() {
    let mut session = listening();
    assert!(matches!(
        session.step(Event::Received(Inbound::Close(None))),
        Action::Send(Outbound::Close(None))
    ));
}

#[test]
fn stream_end_and_read_error() {
    let mut session = listening();
    assert!(matches!(session.step(Event::StreamEnded), Action::Finish(Ok(()))));
    let mut session = listening();
    match session.step(Event::ReceiveFailed("protocol violation".to_string())) {
        Action::Finish(Err(MarketStoreError::WebSocket(m))) => assert_eq!(m, "protocol violation"),
        other => panic!("unexpected {:?}", other),
    }
}

#[test]
fn standalone_close_handshake() {
    let (mut session, action) = Session::closing();
    match action {
        Action::Send(Outbound::Close(Some(frame))) => {
            assert_eq!(frame.code, 1000);
            assert_eq!(frame.reason, "Normal closure");
        }
        other => panic!("unexpected {:?}", other),
    }
    assert_eq!(session.connection_state(), ConnectionState::ClosingLocal);
    assert!(matches!(session.step(Event::Sent), Action::AwaitCloseEcho));
    assert!(matches!(session.step(Event::StreamEnded), Action::Finish(Ok(()))));
}

#[test]
fn payloads_before_a_peer_close_are_each_delivered() {
    let (mut session, _) = opened(&["A/1Min/OHLCV"]);
    let events = vec![
        Event::Sent,
        data_frame("one"),
        Event::HandlerReturned,
        Event::Received(Inbound::Ping(vec![9])),
        Event::Sent,
        data_frame("two"),
        Event::HandlerReturned,
        Event::Received(Inbound::Close(None)),
        Event::Sent,
    ];
    let mut delivered = Vec::new();
    let mut last = None;
    for event in events {
        match session.step(event) {
            Action::Deliver(p) => delivered.push(p.key),
            other => last = Some(other),
        }
    }
    assert_eq!(delivered, vec!["one", "two"]);
    assert!(matches!(last, Some(Action::Finish(Ok(())))));
    assert!(session.is_terminated());
}
