use noorsigner_link::wire::{decode_response, finish_exchange, frame_request, Exchange, RequestError, IO_TIMEOUT_SECS};

#[test]
fn request_gets_exactly_one_terminator() {
    assert_eq!(frame_request(r#"{"method":"ping"}"#), "{\"method\":\"ping\"}\n");
    assert_eq!(frame_request(""), "\n");
    assert_eq!(frame_request("a\n"), "a\n\n");
}

#[test]
fn echoed_payload_comes_back_unchanged() {
    for p in [r#"{"id":1,"result":"ok"}"#, "", "  spaced  ", "tab\tand ünïcode", "ends with cr\r"] {
        let line = frame_request(p);
        assert_eq!(decode_response(&line).unwrap(), p);
        assert_eq!(finish_exchange(Exchange::Received(line)).unwrap(), p);
    }
}

#[test]
fn only_the_terminator_is_stripped() {
    assert_eq!(decode_response("abc  \n").unwrap(), "abc  ");
    assert_eq!(decode_response("abc\r\n").unwrap(), "abc\r");
    assert_eq!(decode_response("\n").unwrap(), "");
}

#[test]
fn line_without_terminator_is_an_io_error() {
    assert!(matches!(decode_response(""), Err(RequestError::Io(_))));
    assert!(matches!(decode_response("{\"partial\":"), Err(RequestError::Io(_))));
}

#[test]
fn no_listener_is_connection_failed_not_timeout() {
    let r = finish_exchange(Exchange::ConnectFailed("No such file or directory".to_string()));
    match r {
        Err(RequestError::ConnectionFailed(d)) => assert_eq!(d, "No such file or directory"),
        other => panic!("unexpected {:?}", other),
    }
    let e = finish_exchange(Exchange::ConnectFailed("refused".to_string())).unwrap_err();
    assert_eq!(e.message(), "Failed to connect to KeySigner daemon: refused. Is the daemon running?");
}

#[test]
fn silent_listener_is_timeout() {
    let r = finish_exchange(Exchange::ReadFailed { timed_out: true, detail: "timed out".to_string() });
    assert!(matches!(r, Err(RequestError::Timeout)));
    assert_eq!(RequestError::Timeout.message(), "Request timed out - daemon may have crashed or is unresponsive");
    assert_eq!(IO_TIMEOUT_SECS, 10);
}

#[test]
fn other_failures_are_io_errors() {
    let r = finish_exchange(Exchange::ReadFailed { timed_out: false, detail: "Failed to read response: reset".to_string() });
    match r {
        Err(e @ RequestError::Io(_)) => assert_eq!(e.message(), "Failed to read response: reset"),
        other => panic!("unexpected {:?}", other),
    }
    let r = finish_exchange(Exchange::SendFailed("Failed to send request: broken pipe".to_string()));
    assert!(matches!(r, Err(RequestError::Io(d)) if d == "Failed to send request: broken pipe"));
}
