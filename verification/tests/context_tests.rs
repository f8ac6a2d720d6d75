//! Context behaviour: accessors, the attribute store, sticky termination
//! flags, and the send/flush error taxonomy.

use tcplane::attrs::AttrValue;
use tcplane::context::Context;
use tcplane::context::InnerContext;
use tcplane::error::ResponseError;
use tcplane::response::Response;

#[test]
fn fresh_context_is_empty() {
    let ctx = Context::new();
    assert!(ctx.get_stream().is_none());
    assert!(ctx.get_request().is_empty());
    assert!(ctx.get_response().get_response_data().is_empty());
    assert!(!ctx.is_terminated());
}

#[test]
fn from_inner_context_wraps_state() {
    let ctx = Context::from_inner_context(InnerContext::new());
    assert!(ctx.get_stream().is_none());
    assert!(!ctx.is_terminated());
}

#[test]
fn request_and_response_accessors_round_trip() {
    let mut ctx = Context::new();
    ctx.set_request(b"ping".to_vec());
    assert_eq!(ctx.get_request().as_slice(), b"ping");
    ctx.set_response(Response::from(b"pong".to_vec()));
    assert_eq!(ctx.get_response().get_response_data().as_slice(), b"pong");
}

#[test]
fn send_without_stream_fails_not_found() {
    let mut ctx = Context::new();
    let r = ctx.send(b"data".to_vec());
    assert_eq!(r, Err(ResponseError::NotFoundStream));
    assert!(ctx.get_response().get_response_data().is_empty());
}

#[test]
fn send_after_close_fails_terminated() {
    let mut ctx = Context::new();
    ctx.close();
    let r = ctx.send(b"data".to_vec());
    assert_eq!(r, Err(ResponseError::Terminated));
    // No bytes were produced for the transport layer and nothing changed.
    assert!(ctx.get_response().get_response_data().is_empty());
}

#[test]
fn send_after_abort_fails_terminated() {
    let mut ctx = Context::new();
    ctx.abort();
    assert_eq!(ctx.send(b"data".to_vec()), Err(ResponseError::Terminated));
}

#[test]
fn termination_flags_are_sticky_until_cleared() {
    let mut ctx = Context::new();
    ctx.abort();
    assert!(ctx.is_terminated());
    ctx.cancel_abort();
    assert!(!ctx.is_terminated());
    ctx.close();
    assert!(ctx.is_terminated());
    ctx.open();
    assert!(!ctx.is_terminated());
}

#[test]
fn flush_without_stream_fails_not_found() {
    let ctx = Context::new();
    assert_eq!(ctx.flush(), Err(ResponseError::NotFoundStream));
}

#[test]
fn attribute_store_round_trips_values() {
    let mut ctx = Context::new();
    let key = String::from("counter");
    ctx.set_data_value(&key, AttrValue::Int(7));
    match ctx.get_data_value(&key) {
        Some(AttrValue::Int(n)) => assert_eq!(*n, 7),
        other => panic!("unexpected attribute: {:?}", other),
    }
}

#[test]
fn attribute_store_overwrites_and_removes() {
    let mut ctx = Context::new();
    let key = String::from("k");
    ctx.set_data_value(&key, AttrValue::Flag(true));
    ctx.set_data_value(&key, AttrValue::Text(String::from("new")));
    match ctx.get_data_value(&key) {
        Some(AttrValue::Text(s)) => assert_eq!(s, "new"),
        other => panic!("unexpected attribute: {:?}", other),
    }
    ctx.remove_data_value(&key);
    assert!(ctx.get_data_value(&key).is_none());
}

#[test]
fn attribute_store_clear_drops_everything() {
    let mut ctx = Context::new();
    let a = String::from("a");
    let b = String::from("b");
    ctx.set_data_value(&a, AttrValue::Int(1));
    ctx.set_data_value(&b, AttrValue::Int(2));
    ctx.clear_data();
    assert!(ctx.get_data_value(&a).is_none());
    assert!(ctx.get_data_value(&b).is_none());
}

#[test]
fn typed_read_of_wrong_shape_is_not_found() {
    let mut ctx = Context::new();
    let key = String::from("k");
    ctx.set_data_value(&key, AttrValue::Text(String::from("text")));
    // The value exists, but under another shape: a failed cast reads as
    // absent, not as an error.
    assert!(ctx.get_bytes_value(&key).is_none());
    ctx.set_data_value(&key, AttrValue::Bytes(b"raw".to_vec()));
    assert_eq!(ctx.get_bytes_value(&key).unwrap().as_slice(), b"raw");
}

#[test]
fn absent_key_is_not_found() {
    let ctx = Context::new();
    assert!(ctx.get_data_value(&String::from("missing")).is_none());
}
