use quad_net::HttpError;
use quad_net::sandbox::poll_host_response;

#[test]
fn no_answer_from_the_host_is_pending_without_error() {
    assert!(poll_host_response(None).is_none());
}

#[test]
fn a_buffer_from_the_host_is_the_decoded_terminal_result() {
    let outcome = poll_host_response(Some(b"hello".to_vec()));
    assert!(matches!(outcome, Some(Ok(text)) if text == "hello"));
}

#[test]
fn multi_byte_text_is_decoded_not_copied() {
    let outcome = poll_host_response(Some(vec![0xC3, 0xA9]));
    assert!(matches!(outcome, Some(Ok(text)) if text == "\u{e9}"));
}

#[test]
fn an_empty_buffer_is_the_empty_body() {
    let outcome = poll_host_response(Some(Vec::new()));
    assert!(matches!(outcome, Some(Ok(text)) if text.is_empty()));
}

#[test]
fn malformed_utf8_surfaces_as_io_error() {
    let outcome = poll_host_response(Some(vec![0xFF, 0xFE, 0xFD]));
    assert!(matches!(outcome, Some(Err(HttpError::IOError))));
}

#[test]
fn a_truncated_multi_byte_sequence_is_io_error() {
    let outcome = poll_host_response(Some(vec![b'a', 0xC3]));
    assert!(matches!(outcome, Some(Err(HttpError::IOError))));
}
