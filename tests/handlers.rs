use hello_service::routes::{echo, hello, index, manual_hello, mut_state_test, Body, Reply, STATUS_OK};
use hello_service::state::{AppState, AppStateWithCounter};

fn ok_text(r: Reply) -> String {
    assert_eq!(r.status, 200);
    match r.body {
        Body::Text(s) => s,
        Body::Bytes(_) => panic!("expected a text body"),
    }
}

fn ok_bytes(r: Reply) -> Vec<u8> {
    assert_eq!(r.status, 200);
    match r.body {
        Body::Bytes(b) => b,
        Body::Text(_) => panic!("expected a byte body"),
    }
}

#[test]
fn status_is_200() {
    assert_eq!(STATUS_OK, 200);
}

#[test]
fn hello_greets_the_world() {
    assert_eq!(ok_text(hello()), "Hello world!");
    assert_eq!(ok_text(hello()), "Hello world!");
}

#[test]
fn manual_hello_says_hey() {
    assert_eq!(ok_text(manual_hello()), "Hey there!");
}

#[test]
fn echo_empty_body() {
    assert_eq!(ok_bytes(echo(Vec::new())), Vec::<u8>::new());
}

#[test]
fn echo_ascii_text() {
    let body = b"some plain text, with punctuation!".to_vec();
    assert_eq!(ok_bytes(echo(body.clone())), body);
}

#[test]
fn echo_binary_payload() {
    let body: Vec<u8> = vec![0, 255, 128, 10, 13, 0xC3, 0x28, 7];
    assert_eq!(ok_bytes(echo(body.clone())), body);
}

#[test]
fn echo_payload_over_one_mebibyte() {
    let body: Vec<u8> = (0..(1024 * 1024 + 17)).map(|i| (i % 251) as u8).collect();
    assert_eq!(ok_bytes(echo(body.clone())), body);
}

#[test]
fn index_with_default_name() {
    let state = AppState::default();
    assert_eq!(state.app_name, "Actix web");
    assert_eq!(ok_text(index(&state)), "Hello Actix web");
}

#[test]
fn index_with_other_names() {
    assert_eq!(ok_text(index(&AppState::new("Rocket".to_string()))), "Hello Rocket");
    assert_eq!(ok_text(index(&AppState::new(String::new()))), "Hello ");
    assert_eq!(ok_text(index(&AppState::new("héllo wörld".to_string()))), "Hello héllo wörld");
}

#[test]
fn counter_starts_at_zero() {
    let c = AppStateWithCounter::new();
    assert_eq!(c.count(), 0);
}

#[test]
fn increment_returns_new_value() {
    let mut c = AppStateWithCounter::new();
    assert_eq!(c.increment(), 1);
    assert_eq!(c.increment(), 2);
    assert_eq!(c.count(), 2);
}

#[test]
fn first_request_is_number_one() {
    let mut c = AppStateWithCounter::new();
    assert_eq!(ok_text(mut_state_test(&mut c)), "Requests number: 1");
    assert_eq!(c.count(), 1);
}

#[test]
fn request_numbers_carry_into_more_digits() {
    let mut c = AppStateWithCounter::new();
    let mut last = String::new();
    for _ in 0..10 {
        last = ok_text(mut_state_test(&mut c));
    }
    assert_eq!(last, "Requests number: 10");
    for _ in 10..1000 {
        last = ok_text(mut_state_test(&mut c));
    }
    assert_eq!(last, "Requests number: 1000");
}

#[test]
fn hundred_requests_get_one_to_hundred_once_each() {
    let mut c = AppStateWithCounter::new();
    let mut seen: Vec<String> = Vec::new();
    for _ in 0..100 {
        seen.push(ok_text(mut_state_test(&mut c)));
    }
    let expected: Vec<String> = (1..=100).map(|n| format!("Requests number: {}", n)).collect();
    assert_eq!(seen, expected);
    let mut sorted = seen.clone();
    sorted.sort();
    sorted.dedup();
    assert_eq!(sorted.len(), 100);
}

#[test]
fn shared_counter_under_a_lock() {
    let shared = std::sync::Mutex::new(AppStateWithCounter::new());
    let mut values: Vec<u64> = Vec::new();
    for _ in 0..100 {
        let mut guard = shared.lock().unwrap();
        values.push(guard.increment());
    }
    values.sort();
    let expected: Vec<u64> = (1..=100).collect();
    assert_eq!(values, expected);
}
