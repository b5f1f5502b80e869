use deno_server::http::serve::{
    next_wait_step, HttpError, WaitStep, LISTEN_ADDR, REQUEST_QUEUE_CAPACITY, RESOURCE_NAME,
};

#[test]
fn http_error_text_and_class() {
    assert_eq!(HttpError::ServerError.message(), "Listener has been closed");
    assert_eq!(HttpError::ServerError.class(), "BadResource");
}

#[test]
fn wait_delivers_a_received_request() {
    assert_eq!(next_wait_step(Some(5u8)), WaitStep::Deliver(5u8));
}

#[test]
fn wait_finishes_when_the_queue_is_closed() {
    assert_eq!(next_wait_step::<u8>(None), WaitStep::Finish);
}

#[test]
fn serving_configuration() {
    assert_eq!(LISTEN_ADDR, "127.0.0.1:8000");
    assert_eq!(REQUEST_QUEUE_CAPACITY, 10);
    assert_eq!(RESOURCE_NAME, "http");
}
