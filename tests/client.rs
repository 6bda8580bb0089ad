use std::collections::HashSet;

use nats_listener::client::{
    finish_request, prepare_request, reply_text, subject_of, ReplyOutcome, RequestError,
};
use nats_listener::codec::{encode_response, payload_text, text_payload, DecodeError};
use nats_listener::dispatch::{Dispatcher, StartAction};
use nats_listener::envelope::Response;
use nats_listener::receive::{LoopAction, LoopEvent};

fn is_v4(id: &str) -> bool {
    let b = id.as_bytes();
    b.len() == 36
        && b.iter().enumerate().all(|(i, c)| {
            if i == 8 || i == 13 || i == 18 || i == 23 {
                *c == b'-'
            } else {
                c.is_ascii_digit() || (b'a'..=b'f').contains(c)
            }
        })
        && b[14] == b'4'
        && matches!(b[19], b'8' | b'9' | b'a' | b'b')
}

#[test]
fn subject_is_pattern_encoding() {
    assert_eq!(subject_of("{\"cmd\":\"ping\"}"), "{\"cmd\":\"ping\"}");
    assert_eq!(subject_of("{\"cmd\":\"a\"}"), subject_of("{\"cmd\":\"a\"}"));
    assert_ne!(subject_of("{\"cmd\":\"a\"}"), subject_of("{\"cmd\":\"b\"}"));
}

#[test]
fn prepared_request_is_framed_with_fresh_id() {
    let call = prepare_request("{\"cmd\":\"ping\"}", "7");
    assert_eq!(call.subject, "{\"cmd\":\"ping\"}");
    assert!(is_v4(&call.id));
    let expected = format!("{{\"pattern\":{{\"cmd\":\"ping\"}},\"id\":\"{}\",\"data\":7}}", call.id);
    assert_eq!(call.payload, expected.into_bytes());
}

#[test]
fn correlation_ids_are_pairwise_distinct() {
    let mut seen = HashSet::new();
    for _ in 0..1000 {
        let call = prepare_request("{\"cmd\":\"x\"}", "null");
        assert!(is_v4(&call.id));
        assert!(seen.insert(call.id));
    }
    assert_eq!(seen.len(), 1000);
}

#[test]
fn transport_failure_is_reported() {
    assert_eq!(reply_text(ReplyOutcome::TransportFailed), Err(RequestError::Transport));
}

#[test]
fn non_text_reply_is_reported() {
    assert_eq!(
        reply_text(ReplyOutcome::Delivered(vec![0x80, 0x80])),
        Err(RequestError::InvalidText)
    );
    assert_eq!(reply_text(ReplyOutcome::Delivered(b"ok".to_vec())), Ok("ok".to_string()));
}

#[test]
fn decode_failures_become_request_errors() {
    let bad: Result<Response<u8, u8>, DecodeError> = Err(DecodeError::InvalidShape);
    assert!(matches!(finish_request(bad), Err(RequestError::InvalidShape)));
    let bad: Result<Response<u8, u8>, DecodeError> = Err(DecodeError::InvalidText);
    assert!(matches!(finish_request(bad), Err(RequestError::InvalidText)));
    let good: Result<Response<u8, u8>, DecodeError> =
        Ok(Response { pattern: 1, id: "i".to_string(), data: 2, disposed: true });
    let r = finish_request(good).ok().unwrap();
    assert_eq!((r.pattern, r.id.as_str(), r.data, r.disposed), (1, "i", 2, true));
}

#[test]
fn response_answers_its_own_id_only() {
    let r = Response { pattern: (), id: "abc".to_string(), data: (), disposed: false };
    assert!(r.answers(&"abc".to_string()));
    assert!(!r.answers(&"abd".to_string()));
}

#[test]
fn basic_ping_exchange() {
    // caller side
    let call = prepare_request("{\"cmd\":\"ping\"}", "7");
    // listener side: one listener on the ping subject
    let mut d = Dispatcher::new(1);
    assert_eq!(d.subscription_result(true), StartAction::StartLoops);
    let text = match d.deliver(0, LoopEvent::<serde_json::Value>::Delivered(call.payload.clone())) {
        LoopAction::Decode(t) => t,
        _ => panic!("expected the request text"),
    };
    let req: serde_json::Value = serde_json::from_str(&text).unwrap();
    let req = match d.deliver(0, LoopEvent::Decoded(Ok(req))) {
        LoopAction::Handle(r) => r,
        _ => panic!("expected the handler to run"),
    };
    assert_eq!(req["pattern"]["cmd"].as_str(), Some("ping"));
    assert_eq!(req["data"].as_u64(), Some(7));
    let id = req["id"].as_str().unwrap().to_string();
    assert_eq!(id, call.id);
    let reply = encode_response("{\"cmd\":\"ping\"}", &id, "8", false);
    assert!(matches!(d.deliver(0, LoopEvent::<serde_json::Value>::Handled(true)), LoopAction::Await));
    // back at the caller
    let text = reply_text(ReplyOutcome::Delivered(text_payload(&reply))).unwrap();
    let v: serde_json::Value = serde_json::from_str(&text).unwrap();
    let resp = Response {
        pattern: v["pattern"].clone(),
        id: v["id"].as_str().unwrap().to_string(),
        data: v["data"].as_u64().unwrap(),
        disposed: v["disposed"].as_bool().unwrap(),
    };
    let resp = finish_request::<serde_json::Value, u64>(Ok(resp)).ok().unwrap();
    assert!(resp.answers(&call.id));
    assert_eq!(resp.data, 8);
    assert!(!resp.disposed);
    assert_eq!(payload_text(&call.payload).unwrap().len(), call.payload.len());
}
