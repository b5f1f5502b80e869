use deno_server::http::http_stream::{
    response_head, set_promise_complete, HttpParts, HttpStream,
};

fn stream() -> HttpStream<u32> {
    HttpStream::new(HttpParts {
        method: "GET".to_string(),
        uri: "/".to_string(),
        version: "HTTP/1.1".to_string(),
    })
}

#[test]
fn fresh_stream_is_pending_and_empty() {
    let s = stream();
    assert!(!s.is_ready());
    assert_eq!(s.status(), None);
    assert!(s.response_body().is_none());
    assert_eq!(s.get_method(), "GET");
    assert_eq!(s.request_parts().uri, "/");
    assert_eq!(s.request_parts().version, "HTTP/1.1");
}

#[test]
fn pending_poll_waker_is_handed_back_on_complete() {
    let mut s = stream();
    assert!(!s.poll_response_ready(7));
    s.set_response_body("hello".to_string());
    s.set_status(201);
    assert_eq!(s.complete(), Some(7));
    assert!(s.is_ready());
    assert_eq!(s.status(), Some(201));
    assert_eq!(s.response_body().map(|b| b.as_str()), Some("hello"));
}

#[test]
fn later_poll_replaces_the_waker() {
    let mut s = stream();
    assert!(!s.poll_response_ready(1));
    assert!(!s.poll_response_ready(2));
    assert_eq!(s.complete(), Some(2));
}

#[test]
fn complete_without_waiter_wakes_nobody() {
    let mut s = stream();
    assert_eq!(s.complete(), None);
    assert!(s.is_ready());
}

#[test]
fn ready_is_sticky_and_complete_happens_once() {
    let mut s = stream();
    assert!(!s.poll_response_ready(3));
    assert_eq!(s.complete(), Some(3));
    assert!(s.poll_response_ready(4));
    assert_eq!(s.complete(), None);
    s.set_status(500);
    assert!(s.is_ready());
    assert!(s.poll_response_ready(5));
    assert_eq!(s.get_method(), "GET");
}

#[test]
fn set_promise_complete_sets_status_and_wakes() {
    let mut s = stream();
    assert!(!s.poll_response_ready(9));
    assert_eq!(set_promise_complete(&mut s, 404), Some(9));
    assert_eq!(s.status(), Some(404));
    assert!(s.is_ready());
    assert_eq!(set_promise_complete(&mut s, 200), None);
    assert_eq!(s.status(), Some(200));
}

#[test]
fn response_head_is_plain_ok() {
    assert_eq!(response_head(), "HTTP/1.1 200 OK\r\n\r\n");
    assert_eq!(response_head().as_bytes(), b"HTTP/1.1 200 OK\r\n\r\n");
}

#[test]
fn set_promise_complete_ignores_invalid_status() {
    let mut s = stream();
    s.set_status(201);
    assert!(!s.poll_response_ready(8));
    assert_eq!(set_promise_complete(&mut s, 42), Some(8));
    assert_eq!(s.status(), Some(201));
    assert!(s.is_ready());
    let mut t = stream();
    assert_eq!(set_promise_complete(&mut t, 1000), None);
    assert_eq!(t.status(), None);
    assert!(t.is_ready());
    let mut u = stream();
    set_promise_complete(&mut u, 100);
    assert_eq!(u.status(), Some(100));
    let mut v = stream();
    set_promise_complete(&mut v, 999);
    assert_eq!(v.status(), Some(999));
    let mut z = stream();
    set_promise_complete(&mut z, 99);
    assert_eq!(z.status(), None);
}
