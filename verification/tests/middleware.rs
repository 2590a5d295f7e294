use cloud_startup::middleware::{compose, Layer, HEADER_TOKEN, JSON_BODY_LIMIT};
use cloud_startup::session::SessionKey;

fn key(seed: u8) -> SessionKey {
    match SessionKey::from_generated(Some([seed; 64])) {
        Ok(key) => key,
        Err(_) => panic!("a key is given"),
    }
}

#[test]
fn layers_are_wrapped_in_the_fixed_order() {
    let worker = compose(&key(7));
    assert_eq!(worker.layers, vec![Layer::Identity, Layer::Session, Layer::Cors, Layer::Tracing]);
}

#[test]
fn json_bodies_are_bounded_at_4096_bytes() {
    assert_eq!(JSON_BODY_LIMIT, 4096);
    assert_eq!(compose(&key(7)).json_limit, 4096);
}

#[test]
fn session_cookie_is_named_after_the_token_header() {
    assert_eq!(HEADER_TOKEN, "token");
    assert_eq!(compose(&key(7)).cookie_name, "token");
}

#[test]
fn session_layer_takes_the_given_key() {
    assert_eq!(compose(&key(7)).session_key.master(), &[7u8; 64]);
    assert_eq!(compose(&key(9)).session_key.master(), &[9u8; 64]);
}
