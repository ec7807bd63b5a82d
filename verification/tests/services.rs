use netplay::greeting::{say_bye, say_hello};
use netplay::http::{handle_post, hello, tests, MyRequest, MyResponse, PostData, Protocol};

#[test]
fn say_hello_appends_greeting_line() {
    let mut out = Vec::new();
    say_hello(&mut out);
    assert_eq!(out, b"hello world\n".to_vec());
    say_hello(&mut out);
    assert_eq!(out, b"hello world\nhello world\n".to_vec());
}

#[test]
fn say_bye_writes_nothing() {
    let mut out = b"kept".to_vec();
    say_bye(&mut out);
    assert_eq!(out, b"kept".to_vec());
}

#[test]
fn root_replies_hello_world() {
    let reply = hello();
    assert_eq!(reply.status, 200);
    assert_eq!(reply.body, "Hello World!");
}

#[test]
fn submit_replies_question_added() {
    let reply = handle_post(&PostData { message: "what is verus?".to_string() });
    assert_eq!(reply.status, 200);
    assert_eq!(reply.body, "Question added");
}

#[test]
fn test_endpoint_answers_empty_success() {
    let request = MyRequest { equipment_sn: "SN-001".to_string(), protocol: Some(Protocol {}) };
    let response = tests(&request);
    assert_eq!(response.status, 0);
    assert_eq!(response.rows, 0);
    assert_eq!(response.msg, "");
    assert!(response.timestamp > 1_600_000_000);
}

#[test]
fn response_with_timestamp_keeps_fields() {
    let response = MyResponse::with_timestamp(7, "done", 1_700_000_000);
    assert_eq!(response.status, 7);
    assert_eq!(response.rows, 0);
    assert_eq!(response.msg, "done");
    assert_eq!(response.timestamp, 1_700_000_000);
}

#[test]
fn new_response_is_stamped_with_current_time() {
    let response = MyResponse::new(-1, "error");
    assert_eq!(response.status, -1);
    assert_eq!(response.msg, "error");
    assert!(response.timestamp > 1_600_000_000);
}
